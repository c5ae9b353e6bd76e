//! Failures reported by the engine.
//!
//! Every engine call answers with a status code. A negative code is a
//! failure; the engine then keeps a class and a message for it in its
//! last-error slot. [`check`] is the one place where a status code becomes
//! either a value to go on with or an [`Error`].

use vstd::prelude::*;

verus! {

/// The status code for "does not exist".
pub const NOT_FOUND: i32 = -3;

/// The status code for "exists already".
pub const EXISTS: i32 = -4;

/// The status code for "the reference cannot be moved forward".
pub const NOT_FAST_FORWARD: i32 = -11;

/// What the engine's last-error slot held after a failed call.
#[derive(Debug, PartialEq, Eq)]
pub struct LastError {
    /// The engine's class of the failure.
    pub class: i32,
    /// The engine's message for the failure.
    pub message: String,
}

/// A failure of an engine call: the status code, and the class and message
/// that the engine kept for it.
#[derive(Debug, PartialEq, Eq)]
pub struct Error {
    code: i32,
    class: i32,
    message: String,
}

/// An [`Error`] as plain values.
pub struct ErrorView {
    pub code: i32,
    pub class: i32,
    pub message: Seq<char>,
}

impl View for Error {
    type V = ErrorView;

    closed spec fn view(&self) -> ErrorView {
        ErrorView { code: self.code, class: self.class, message: self.message@ }
    }
}

/// The error for status code `code` when the last-error slot held `slot`.
///
/// An empty slot gives class zero and an empty message.
pub open spec fn translated(code: i32, slot: Option<LastError>) -> ErrorView {
    match slot {
        Some(last) => ErrorView { code, class: last.class, message: last.message@ },
        None => ErrorView { code, class: 0, message: Seq::<char>::empty() },
    }
}

impl Error {
    /// Builds the error for status code `code` from what the last-error slot
    /// held.
    pub fn translate(code: i32, slot: Option<LastError>) -> (e: Error)
        ensures
            e@ == translated(code, slot),
    {
        match slot {
            Some(last) => Error { code, class: last.class, message: last.message },
            None => Error { code, class: 0, message: String::new() },
        }
    }

    /// The status code as the engine gave it.
    pub fn code(&self) -> (c: i32)
        ensures
            c == self@.code,
    {
        self.code
    }

    /// The engine's class of the failure.
    pub fn class(&self) -> (c: i32)
        ensures
            c == self@.class,
    {
        self.class
    }

    /// The engine's message for the failure.
    pub fn message(&self) -> (m: &str)
        ensures
            m@ == self@.message,
    {
        self.message.as_str()
    }
}

/// What a status code leads to: the code itself when the call succeeded, the
/// translated error when it failed.
pub open spec fn checked(code: i32, slot: Option<LastError>) -> Result<i32, ErrorView> {
    if code < 0 {
        Err(translated(code, slot))
    } else {
        Ok(code)
    }
}

/// Turns the status code of an engine call into a result.
///
/// A code of zero or more is a success and is handed on unchanged; a negative
/// code is a failure and becomes the [`Error`] made of the code and of what
/// the last-error slot held.
pub fn check(code: i32, slot: Option<LastError>) -> (res: Result<i32, Error>)
    ensures
        match res {
            Ok(c) => checked(code, slot) == Ok::<i32, ErrorView>(c),
            Err(e) => checked(code, slot) == Err::<i32, ErrorView>(e@),
        },
{
    if code < 0 {
        Err(Error::translate(code, slot))
    } else {
        Ok(code)
    }
}

} // verus!
