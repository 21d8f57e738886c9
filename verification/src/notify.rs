//! The notification payload handed to the dispatcher, and the mapping of a
//! publish outcome back into the error taxonomy.
//!
//! The dispatcher itself is an external fire-and-forget capability: the core
//! builds the payload, the surrounding program publishes it. A failed publish
//! never rolls the primary mutation back; it surfaces as its own error kind.

use vstd::prelude::*;

use crate::errors::AuthError;

verus! {

/// A fire-and-forget email message: recipient, subject line, body.
#[derive(Debug)]
pub struct Email {
    pub recipient: String,
    pub subject: String,
    pub body: String,
}

impl Clone for Email {
    fn clone(&self) -> (r: Self)
        ensures
            r == *self,
    {
        Email {
            recipient: self.recipient.clone(),
            subject: self.subject.clone(),
            body: self.body.clone(),
        }
    }
}

/// Turns the dispatcher's publish outcome into the workflow's result: a
/// failed publish is a `NotificationFailed` error, nothing else. The code
/// stored before the publish stays valid either way, so the client may still
/// verify once the email arrives through an out-of-band resend.
pub fn dispatch_outcome(published: bool) -> (r: Result<(), AuthError>)
    ensures
        published ==> r == Ok::<(), AuthError>(()),
        !published ==> r == Err::<(), AuthError>(AuthError::NotificationFailed),
{
    if published {
        Ok(())
    } else {
        Err(AuthError::NotificationFailed)
    }
}

} // verus!
