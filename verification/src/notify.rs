//! The outbound email notifier, seen from the core's side.
//!
//! The transport (an HTTP email provider, SMTP, anything) is an external
//! collaborator; the core only needs the capability to attempt one send
//! and to learn whether it was accepted. The trait's contract records
//! every attempt in a ghost log, so the workflow can state exactly what
//! was handed to the notifier — recipient, subject, both bodies — and
//! whether that attempt was delivered.

use vstd::prelude::*;
use vstd::string::StringExecFns;

use crate::domain::SubscriberEmail;

verus! {

/// Failure of the email transport.
#[derive(Clone, Copy, Debug, PartialEq, Eq, Structural)]
pub enum NotifyError {
    SendFailed,
}

/// One attempted send, as the contracts speak of it.
#[verifier::ext_equal]
pub struct SendEvent {
    pub recipient: Seq<char>,
    pub subject: Seq<char>,
    pub html_body: Seq<char>,
    pub text_body: Seq<char>,
    pub delivered: bool,
}

/// The capability of sending a confirmation email.
pub trait EmailNotifier {
    /// Every send ever attempted through this notifier, in order, each
    /// with its outcome.
    spec fn sent(&self) -> Seq<SendEvent>;

    /// Attempts one send. Whether the transport accepts it is its own
    /// business; either way exactly this attempt, with its outcome, is
    /// appended to the log.
    fn send_email(
        &mut self,
        recipient: &SubscriberEmail,
        subject: &str,
        html_body: &String,
        text_body: &String,
    ) -> (r: Result<(), NotifyError>)
        ensures
            final(self).sent() == old(self).sent().push(
                SendEvent {
                    recipient: recipient@,
                    subject: subject@,
                    html_body: html_body@,
                    text_body: text_body@,
                    delivered: r is Ok,
                },
            ),
    ;
}

/// One recorded call of the fake notifier, as tests read it back.
pub struct SentEmail {
    pub recipient: String,
    pub subject: String,
    pub html_body: String,
    pub text_body: String,
    pub delivered: bool,
}

impl View for SentEmail {
    type V = SendEvent;

    open spec fn view(&self) -> SendEvent {
        SendEvent {
            recipient: self.recipient@,
            subject: self.subject@,
            html_body: self.html_body@,
            text_body: self.text_body@,
            delivered: self.delivered,
        }
    }
}

/// An in-memory notifier: records every call and can be told to fail,
/// standing in for an unreachable email provider.
pub struct FakeNotifier {
    calls: Vec<SentEmail>,
    fail: bool,
}

impl FakeNotifier {
    /// Whether the next sends will be refused.
    pub closed spec fn fails(&self) -> bool {
        self.fail
    }

    /// A notifier that delivers everything and has sent nothing yet.
    pub fn new() -> (n: FakeNotifier)
        ensures
            n.sent() == Seq::<SendEvent>::empty(),
            !n.fails(),
    {
        let n = FakeNotifier { calls: Vec::new(), fail: false };
        proof {
            assert(n.sent() =~= Seq::<SendEvent>::empty());
        }
        n
    }

    /// Makes the following sends fail (or succeed again); the log of
    /// what was already attempted is untouched.
    pub fn set_fail(&mut self, fail: bool)
        ensures
            final(self).sent() == old(self).sent(),
            final(self).fails() == fail,
    {
        self.fail = fail;
    }

    /// How many sends were attempted.
    pub fn call_count(&self) -> (n: usize)
        ensures
            n == self.sent().len(),
    {
        self.calls.len()
    }

    /// The recorded call at this position.
    pub fn call_at(&self, i: usize) -> (c: &SentEmail)
        requires
            i < self.sent().len(),
        ensures
            c@ == self.sent()[i as int],
    {
        &self.calls[i]
    }
}

impl EmailNotifier for FakeNotifier {
    closed spec fn sent(&self) -> Seq<SendEvent> {
        Seq::new(self.calls@.len(), |i: int| self.calls@[i]@)
    }

    fn send_email(
        &mut self,
        recipient: &SubscriberEmail,
        subject: &str,
        html_body: &String,
        text_body: &String,
    ) -> (r: Result<(), NotifyError>) {
        let delivered = !self.fail;
        let record = SentEmail {
            recipient: String::from_str(recipient.as_str()),
            subject: String::from_str(subject),
            html_body: html_body.clone(),
            text_body: text_body.clone(),
            delivered,
        };
        self.calls.push(record);
        proof {
            assert(self.sent() =~= old(self).sent().push(
                SendEvent {
                    recipient: recipient@,
                    subject: subject@,
                    html_body: html_body@,
                    text_body: text_body@,
                    delivered,
                },
            ));
        }
        if delivered {
            Ok(())
        } else {
            Err(NotifyError::SendFailed)
        }
    }
}

} // verus!
