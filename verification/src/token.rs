//! Confirmation token generation.
//!
//! A token is 25 characters drawn from the alphanumeric alphabet
//! `[A-Za-z0-9]`. The randomness comes from rand's thread-local
//! generator; everything else — the length, the alphabet, the assembly
//! into a string — is verified here.

use vstd::prelude::*;

verus! {

/// An ASCII digit or letter, as a byte.
pub open spec fn is_alnum_byte(b: u8) -> bool {
    (0x30 <= b && b <= 0x39) || (0x41 <= b && b <= 0x5A) || (0x61 <= b && b <= 0x7A)
}

/// An ASCII digit or letter.
pub open spec fn is_alnum_char(c: char) -> bool {
    (0x30 <= c as u32 && c as u32 <= 0x39) || (0x41 <= c as u32 && c as u32 <= 0x5A) || (0x61 <= c
        as u32 && c as u32 <= 0x7A)
}

/// The shape of every issued token: exactly 25 alphanumeric characters.
pub open spec fn valid_token(s: Seq<char>) -> bool {
    s.len() == 25 && (forall|i: int| 0 <= i < s.len() ==> is_alnum_char(s[i]))
}

#[verifier::external_type_specification]
#[verifier::external_body]
pub struct ExThreadRng(rand::rngs::ThreadRng);

/// Relies on `rand::thread_rng`: a handle to the thread-local random
/// generator. Nothing is assumed about the values it will produce.
#[verifier::external_body]
fn fresh_rng() -> rand::rngs::ThreadRng {
    rand::thread_rng()
}

/// Relies on rand's `Alphanumeric` distribution: `sample` returns a byte
/// drawn from the 62 ASCII letters and digits, and nothing more is
/// assumed of which one.
#[verifier::external_body]
fn sample_alphanumeric(rng: &mut rand::rngs::ThreadRng) -> (b: u8)
    ensures
        is_alnum_byte(b),
{
    rand::Rng::sample(rng, rand::distributions::Alphanumeric)
}

/// Relies on std's `String::push`: appends exactly one character.
#[verifier::external_body]
fn push_char(s: &mut String, c: char)
    ensures
        final(s)@ == old(s)@.push(c),
{
    s.push(c);
}

/// Draws a fresh confirmation token: 25 characters, each an ASCII letter
/// or digit.
pub fn generate_subscription_token() -> (r: String)
    ensures
        valid_token(r@),
{
    let mut rng = fresh_rng();
    let mut token = String::new();
    let mut i: usize = 0;
    while i < 25
        invariant
            i <= 25,
            token@.len() == i,
            forall|j: int| 0 <= j < token@.len() ==> is_alnum_char(token@[j]),
        decreases 25 - i,
    {
        let b = sample_alphanumeric(&mut rng);
        let c = b as char;
        push_char(&mut token, c);
        i += 1;
    }
    token
}

} // verus!
