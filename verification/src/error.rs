//! The two ways in which a client can fail.

use vstd::prelude::*;

verus! {

/// The context that every delivery failure carries.
pub const SEND_CONTEXT: &'static str = "cannot send mail";

/// A live client could not be set up. It is reported once, at construction,
/// and never retried.
#[derive(Debug, PartialEq, Eq)]
pub struct ConfigError {
    /// What the failed setup reported.
    pub cause: String,
}

/// The transport refused or failed to deliver a message. It is handed to the
/// caller as it is: the caller decides whether to try again.
#[derive(Debug, PartialEq, Eq)]
pub struct SendError {
    /// What failed: [`SEND_CONTEXT`] in every error that a client reports.
    pub context: String,
    /// What the transport reported.
    pub cause: String,
}

/// The mathematical content of a [`ConfigError`].
pub ghost struct ConfigErrorView {
    pub cause: Seq<char>,
}

/// The mathematical content of a [`SendError`].
pub ghost struct SendErrorView {
    pub context: Seq<char>,
    pub cause: Seq<char>,
}

impl View for ConfigError {
    type V = ConfigErrorView;

    open spec fn view(&self) -> ConfigErrorView {
        ConfigErrorView { cause: self.cause@ }
    }
}

impl View for SendError {
    type V = SendErrorView;

    open spec fn view(&self) -> SendErrorView {
        SendErrorView { context: self.context@, cause: self.cause@ }
    }
}

impl SendErrorView {
    /// The delivery failure that wraps `cause`.
    pub open spec fn wrapping(cause: Seq<char>) -> SendErrorView {
        SendErrorView { context: SEND_CONTEXT@, cause }
    }
}

impl ConfigError {
    /// The setup failure that reports `cause`.
    pub fn new(cause: String) -> (error: ConfigError)
        ensures
            error@ == (ConfigErrorView { cause: cause@ }),
    {
        ConfigError { cause }
    }
}

impl SendError {
    /// The delivery failure that wraps `cause` under [`SEND_CONTEXT`].
    pub fn new(cause: String) -> (error: SendError)
        ensures
            error@ == SendErrorView::wrapping(cause@),
    {
        SendError { context: SEND_CONTEXT.to_owned(), cause }
    }
}

} // verus!
