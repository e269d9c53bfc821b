//! The error that every fallible decision of the library hands back.
use std::io;

use vstd::prelude::*;

verus! {

/// Declares `std::io::ErrorKind`, the categories of the standard library. Nothing is stated of it: a
/// category that the library does not tell apart is only handed on.
#[verifier::external_type_specification]
#[verifier::external_body]
pub struct ExErrorKind(std::io::ErrorKind);

/// What went wrong, in the categories that the library tells apart.
#[derive(Clone, Copy, Debug, PartialEq, Eq)]
pub enum ErrorKind {
    /// An entity was not found.
    NotFound,
    /// The operation lacked the necessary privileges.
    PermissionDenied,
    /// The device is not connected.
    NotConnected,
    /// The operation would have to wait.
    WouldBlock,
    /// A parameter was incorrect.
    InvalidInput,
    /// Data was received that makes no sense.
    InvalidData,
    /// The peer closed the stream too early.
    UnexpectedEof,
    /// Memory could not be allocated.
    OutOfMemory,
    /// The resource is in use.
    ResourceBusy,
    /// The operation is not supported.
    Unsupported,
    /// An error that was raised without a category.
    Other,
    /// A category that the library has no use for.
    Unlisted(io::ErrorKind),
}

/// An error: its category, the code of the operating system if it came from there, and a text.
#[derive(Debug)]
pub struct Error {
    /// The category.
    pub kind: ErrorKind,
    /// The raw error code, for an error of the operating system.
    pub os: Option<i32>,
    /// The text of an error that the library raised itself; empty for one of the operating system.
    pub message: String,
}

/// What an [`Error`] says, with its text as a sequence of characters.
pub struct ErrorView {
    pub kind: ErrorKind,
    pub os: Option<i32>,
    pub message: Seq<char>,
}

impl View for Error {
    type V = ErrorView;

    open spec fn view(&self) -> ErrorView {
        ErrorView { kind: self.kind, os: self.os, message: self.message@ }
    }
}

/// An error that the library raises itself: a category and a text, and no code of the operating
/// system.
pub open spec fn raised(kind: ErrorKind, message: Seq<char>) -> ErrorView {
    ErrorView { kind, os: None, message }
}

/// An error of the operating system.
pub open spec fn os_error(code: i32) -> ErrorView {
    ErrorView { kind: os_error_kind(code), os: Some(code), message: Seq::empty() }
}

/// The category that the standard library gives an error code, on the system that the library is
/// built for.
pub uninterp spec fn os_error_kind(code: i32) -> ErrorKind;

/// Calls `std::io::Error::kind` on the error that `std::io::Error::from_raw_os_error` makes of the
/// code, and hands back the category under this library's name for it, or as it is where the
/// library has none. On one system,
/// the category is a function of the code; which code falls into which category is not stated.
#[verifier::external_body]
fn decode_error_kind(code: i32) -> (kind: ErrorKind)
    ensures
        kind == os_error_kind(code),
{
    match io::Error::from_raw_os_error(code).kind() {
        io::ErrorKind::NotFound => ErrorKind::NotFound,
        io::ErrorKind::PermissionDenied => ErrorKind::PermissionDenied,
        io::ErrorKind::NotConnected => ErrorKind::NotConnected,
        io::ErrorKind::WouldBlock => ErrorKind::WouldBlock,
        io::ErrorKind::InvalidInput => ErrorKind::InvalidInput,
        io::ErrorKind::InvalidData => ErrorKind::InvalidData,
        io::ErrorKind::UnexpectedEof => ErrorKind::UnexpectedEof,
        io::ErrorKind::OutOfMemory => ErrorKind::OutOfMemory,
        io::ErrorKind::ResourceBusy => ErrorKind::ResourceBusy,
        io::ErrorKind::Unsupported => ErrorKind::Unsupported,
        io::ErrorKind::Other => ErrorKind::Other,
        other => ErrorKind::Unlisted(other),
    }
}

impl Error {
    /// An error with the given category and text.
    pub fn new(kind: ErrorKind, message: &str) -> (error: Error)
        ensures
            error@ == raised(kind, message@),
    {
        Error { kind, os: None, message: message.to_owned() }
    }

    /// An error without a category.
    pub fn other(message: &str) -> (error: Error)
        ensures
            error@ == raised(ErrorKind::Other, message@),
    {
        Error::new(ErrorKind::Other, message)
    }

    /// The error of the operating system with the given code.
    pub fn from_raw_os_error(code: i32) -> (error: Error)
        ensures
            error@ == os_error(code),
    {
        Error { kind: decode_error_kind(code), os: Some(code), message: String::new() }
    }

    /// The category.
    pub fn kind(&self) -> (kind: ErrorKind)
        ensures
            kind == self.kind,
    {
        self.kind
    }

    /// The code of the operating system, if the error came from there.
    pub fn raw_os_error(&self) -> (code: Option<i32>)
        ensures
            code == self.os,
    {
        self.os
    }
}

impl Clone for Error {
    fn clone(&self) -> (copy: Error)
        ensures
            copy == *self,
    {
        Error { kind: self.kind, os: self.os, message: self.message.clone() }
    }
}

/// An error that the library raises has the category and the text that it is raised with, and no
/// code; an error of the operating system has its code, and no text.
pub proof fn lemma_errors_say_what_they_are_made_of(kind: ErrorKind, message: Seq<char>, code: i32)
    ensures
        raised(kind, message).kind == kind,
        raised(kind, message).os is None,
        raised(kind, message).message == message,
        os_error(code).kind == os_error_kind(code),
        os_error(code).os == Some(code),
        os_error(code).message.len() == 0,
{
}

} // verus!
