//! Validated subscriber identity: display name and email address.
//!
//! `SubscriberName::parse` and `SubscriberEmail::parse` are the only
//! constructors, so a value of either type always satisfies its grammar:
//! a name is non-empty after trimming, at most 256 characters, and free of
//! forbidden characters; an email has exactly one `@`, a non-empty local
//! part, and a non-empty domain containing a `.`.

use vstd::prelude::*;
use vstd::string::StrSliceExecFns;

verus! {

/// Which field of the raw form was rejected.
#[derive(Clone, Copy, Debug, PartialEq, Eq, Structural)]
pub enum ValidationError {
    InvalidName,
    InvalidEmail,
}

/// The raw, untrusted form fields as the HTTP layer hands them over.
pub struct FormData {
    pub name: String,
    pub email: String,
}

/// The code points of the Unicode `White_Space` property, which is what
/// trimming removes.
pub open spec fn is_whitespace_char(c: char) -> bool {
    (0x09 <= c as u32 && c as u32 <= 0x0D) || c as u32 == 0x20 || c as u32 == 0x85
        || c as u32 == 0xA0 || c as u32 == 0x1680 || (0x2000 <= c as u32 && c as u32 <= 0x200A)
        || c as u32 == 0x2028 || c as u32 == 0x2029 || c as u32 == 0x202F || c as u32 == 0x205F
        || c as u32 == 0x3000
}

/// The Unicode control characters (category Cc).
pub open spec fn is_control_char(c: char) -> bool {
    c as u32 <= 0x1F || (0x7F <= c as u32 && c as u32 <= 0x9F)
}

/// Characters a subscriber name may not contain: control characters and a
/// small set of punctuation that could carry injection payloads.
pub open spec fn forbidden_name_char(c: char) -> bool {
    is_control_char(c) || c == '/' || c == '(' || c == ')' || c == '{' || c == '}' || c == '"'
        || c == '<' || c == '>' || c == '\\'
}

/// A name is accepted verbatim when it is at most 256 characters, contains
/// at least one non-whitespace character (so it is not empty after
/// trimming), and contains no forbidden character.
pub open spec fn valid_name(s: Seq<char>) -> bool {
    s.len() <= 256 && (exists|i: int| 0 <= i < s.len() && !is_whitespace_char(s[i])) && (forall|
        i: int,
    |
        0 <= i < s.len() ==> !forbidden_name_char(s[i]))
}

/// `i` is the position of the only `@` in `s`, with a non-empty local part
/// before it and a non-empty domain containing a `.` after it.
pub open spec fn is_email_split(s: Seq<char>, i: int) -> bool {
    0 < i < s.len() - 1 && s[i] == '@' && (forall|j: int| 0 <= j < s.len() && j != i ==> s[j] != '@')
        && (exists|j: int| i < j < s.len() && s[j] == '.')
}

/// The accepted email grammar: exactly one `@`, non-empty local part,
/// non-empty domain that contains a `.`. The address is stored unmodified,
/// casing included.
pub open spec fn valid_email(s: Seq<char>) -> bool {
    exists|i: int| is_email_split(s, i)
}

/// Runtime check for `is_whitespace_char`.
pub fn is_whitespace(c: char) -> (r: bool)
    ensures
        r == is_whitespace_char(c),
{
    let u = c as u32;
    (0x09 <= u && u <= 0x0D) || u == 0x20 || u == 0x85 || u == 0xA0 || u == 0x1680 || (0x2000 <= u
        && u <= 0x200A) || u == 0x2028 || u == 0x2029 || u == 0x202F || u == 0x205F || u == 0x3000
}

/// Runtime check for `forbidden_name_char`.
pub fn is_forbidden_name_char(c: char) -> (r: bool)
    ensures
        r == forbidden_name_char(c),
{
    let u = c as u32;
    u <= 0x1F || (0x7F <= u && u <= 0x9F) || c == '/' || c == '(' || c == ')' || c == '{' || c
        == '}' || c == '"' || c == '<' || c == '>' || c == '\\'
}

/// A subscriber's display name, accepted by `parse` and stored verbatim.
#[derive(Debug)]
pub struct SubscriberName {
    name: String,
}

impl View for SubscriberName {
    type V = Seq<char>;

    closed spec fn view(&self) -> Seq<char> {
        self.name@
    }
}

impl SubscriberName {
    /// Accepts `s` exactly when `valid_name(s@)` holds and keeps it
    /// unmodified; rejects it with `InvalidName` otherwise.
    pub fn parse(s: String) -> (r: Result<SubscriberName, ValidationError>)
        ensures
            valid_name(s@) ==> (r matches Ok(n) && n@ == s@),
            !valid_name(s@) ==> (r matches Err(e) && e == ValidationError::InvalidName),
    {
        let n = s.as_str().unicode_len();
        if n > 256 {
            return Err(ValidationError::InvalidName);
        }
        let mut i: usize = 0;
        let mut seen_non_ws = false;
        while i < n
            invariant
                n == s@.len(),
                i <= n,
                forall|j: int| 0 <= j < i ==> !forbidden_name_char(s@[j]),
                seen_non_ws <==> (exists|j: int| 0 <= j < i && !is_whitespace_char(s@[j])),
            decreases n - i,
        {
            let c = s.as_str().get_char(i);
            if is_forbidden_name_char(c) {
                return Err(ValidationError::InvalidName);
            }
            if !is_whitespace(c) {
                seen_non_ws = true;
            }
            i += 1;
        }
        if !seen_non_ws {
            return Err(ValidationError::InvalidName);
        }
        Ok(SubscriberName { name: s })
    }

    /// The stored name.
    pub fn as_str(&self) -> (r: &str)
        ensures
            r@ == self@,
    {
        self.name.as_str()
    }
}

/// A subscriber's email address, accepted by `parse` and stored with its
/// original casing.
#[derive(Debug)]
pub struct SubscriberEmail {
    email: String,
}

impl View for SubscriberEmail {
    type V = Seq<char>;

    closed spec fn view(&self) -> Seq<char> {
        self.email@
    }
}

impl SubscriberEmail {
    /// Accepts `s` exactly when `valid_email(s@)` holds and keeps it
    /// unmodified; rejects it with `InvalidEmail` otherwise.
    pub fn parse(s: String) -> (r: Result<SubscriberEmail, ValidationError>)
        ensures
            valid_email(s@) ==> (r matches Ok(m) && m@ == s@),
            !valid_email(s@) ==> (r matches Err(e) && e == ValidationError::InvalidEmail),
    {
        let n = s.as_str().unicode_len();
        let mut i: usize = 0;
        let mut has_at = false;
        let mut at_pos: usize = 0;
        let mut multiple = false;
        while i < n
            invariant
                n == s@.len(),
                i <= n,
                !has_at ==> (forall|j: int| 0 <= j < i ==> s@[j] != '@') && !multiple,
                has_at ==> at_pos < i && s@[at_pos as int] == '@' && (forall|j: int|
                    0 <= j < at_pos ==> s@[j] != '@'),
                has_at ==> (multiple <==> (exists|j: int|
                    at_pos < j < i && s@[j] == '@')),
            decreases n - i,
        {
            let c = s.as_str().get_char(i);
            if c == '@' {
                if has_at {
                    multiple = true;
                } else {
                    has_at = true;
                    at_pos = i;
                }
            }
            i += 1;
        }
        if !has_at || multiple || at_pos == 0 || at_pos + 1 >= n {
            proof {
                if valid_email(s@) {
                    let k = choose|k: int| is_email_split(s@, k);
                    assert(s@[k] == '@');
                    assert(has_at);
                    assert(at_pos == k);
                }
            }
            return Err(ValidationError::InvalidEmail);
        }
        let mut j: usize = at_pos + 1;
        let mut found_dot = false;
        while j < n
            invariant
                n == s@.len(),
                at_pos < j <= n,
                found_dot <==> (exists|k: int| at_pos < k < j && s@[k] == '.'),
            decreases n - j,
        {
            if s.as_str().get_char(j) == '.' {
                found_dot = true;
            }
            j += 1;
        }
        if !found_dot {
            proof {
                if valid_email(s@) {
                    let k = choose|k: int| is_email_split(s@, k);
                    assert(at_pos == k);
                }
            }
            return Err(ValidationError::InvalidEmail);
        }
        proof {
            assert(is_email_split(s@, at_pos as int));
        }
        Ok(SubscriberEmail { email: s })
    }

    /// The stored address.
    pub fn as_str(&self) -> (r: &str)
        ensures
            r@ == self@,
    {
        self.email.as_str()
    }
}

/// A fully validated identity, ready to be persisted.
#[derive(Debug)]
pub struct NewSubscriber {
    pub email: SubscriberEmail,
    pub name: SubscriberName,
}

impl NewSubscriber {
    /// Validates both form fields; the name is checked first, so a form
    /// with two bad fields reports the bad name.
    pub fn try_from(value: FormData) -> (r: Result<NewSubscriber, ValidationError>)
        ensures
            valid_name(value.name@) && valid_email(value.email@) ==> (r matches Ok(ns)
                && ns.name@ == value.name@ && ns.email@ == value.email@),
            !valid_name(value.name@) ==> (r matches Err(e) && e == ValidationError::InvalidName),
            valid_name(value.name@) && !valid_email(value.email@) ==> (r matches Err(e) && e
                == ValidationError::InvalidEmail),
    {
        let name = match SubscriberName::parse(value.name) {
            Ok(name) => name,
            Err(e) => { return Err(e) },
        };
        let email = match SubscriberEmail::parse(value.email) {
            Ok(email) => email,
            Err(e) => { return Err(e) },
        };
        Ok(NewSubscriber { email, name })
    }
}

} // verus!
