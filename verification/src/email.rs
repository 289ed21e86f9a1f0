//! The message record that callers hand to a client.

use vstd::prelude::*;

verus! {

/// One message to send. A plain record: no field is validated, and every field
/// may be empty.
#[derive(Debug)]
pub struct Email {
    pub sender: String,
    pub receiver: String,
    pub subject: String,
    pub plaintext: String,
    pub html: String,
}

/// The mathematical content of an [`Email`]: each field as a sequence of
/// characters.
pub ghost struct EmailView {
    pub sender: Seq<char>,
    pub receiver: Seq<char>,
    pub subject: Seq<char>,
    pub plaintext: Seq<char>,
    pub html: Seq<char>,
}

impl EmailView {
    /// The record whose five fields are all the empty text.
    pub open spec fn empty() -> EmailView {
        EmailView {
            sender: Seq::empty(),
            receiver: Seq::empty(),
            subject: Seq::empty(),
            plaintext: Seq::empty(),
            html: Seq::empty(),
        }
    }
}

impl View for Email {
    type V = EmailView;

    open spec fn view(&self) -> EmailView {
        EmailView {
            sender: self.sender@,
            receiver: self.receiver@,
            subject: self.subject@,
            plaintext: self.plaintext@,
            html: self.html@,
        }
    }
}

impl Default for Email {
    /// The all-empty message.
    fn default() -> (email: Email)
        ensures
            email@ == EmailView::empty(),
    {
        Email {
            sender: String::new(),
            receiver: String::new(),
            subject: String::new(),
            plaintext: String::new(),
            html: String::new(),
        }
    }
}

} // verus!
