//! What can go wrong while the address is looked up or reported.

use crate::text::{followed_by, copy_texts, join, join_with, texts};
use vstd::prelude::*;

verus! {

/// Why a lookup or a report failed.
#[derive(Debug)]
pub enum ErrorReason {
    /// The services disagree; holds every non-empty reading, in the order of
    /// the services.
    IpConflict(Vec<String>),
    InvalidInput(String),
    NoIpAddressesFound,
    /// Holds the path of the file.
    FileWriteFailed(String),
    /// Holds the path of the file.
    FileOpenFailed(String),
    S3WriteFailed(String),
    RestRequestFailed(String),
    Generic(String),
}

/// An `ErrorReason` as contracts see it.
pub enum Reason {
    IpConflict(Seq<Seq<char>>),
    InvalidInput(Seq<char>),
    NoIpAddressesFound,
    FileWriteFailed(Seq<char>),
    FileOpenFailed(Seq<char>),
    S3WriteFailed(Seq<char>),
    RestRequestFailed(Seq<char>),
    Generic(Seq<char>),
}

impl View for ErrorReason {
    type V = Reason;

    open spec fn view(&self) -> Reason {
        match self {
            ErrorReason::IpConflict(ips) => Reason::IpConflict(texts(ips@)),
            ErrorReason::InvalidInput(context) => Reason::InvalidInput(context@),
            ErrorReason::NoIpAddressesFound => Reason::NoIpAddressesFound,
            ErrorReason::FileWriteFailed(file) => Reason::FileWriteFailed(file@),
            ErrorReason::FileOpenFailed(file) => Reason::FileOpenFailed(file@),
            ErrorReason::S3WriteFailed(reason) => Reason::S3WriteFailed(reason@),
            ErrorReason::RestRequestFailed(reason) => Reason::RestRequestFailed(reason@),
            ErrorReason::Generic(context) => Reason::Generic(context@),
        }
    }
}

/// What the formatter of std writes for a string under `{:?}`: the string
/// between double quotes, with its special characters escaped.
pub uninterp spec fn debug_text(s: Seq<char>) -> Seq<char>;

/// Calls `<str as std::fmt::Debug>::fmt` through `format!` with `{:#?}`,
/// which for a string writes what `{:?}` does. Nothing is claimed of the
/// text but that it depends on the characters of `s` alone.
#[verifier::external_body]
fn debug_quoted(s: &str) -> (out: String)
    ensures
        out@ == debug_text(s@),
{
    format!("{:#?}", s)
}

/// The conflicting readings as one text, a reading per line.
pub open spec fn conflict_lines(ips: Seq<Seq<char>>) -> Seq<char> {
    join_with(ips, "\n"@)
}

/// The sentence that reports a conflict between the readings `ips`.
pub open spec fn conflict_message(ips: Seq<Seq<char>>) -> Seq<char> {
    "Multiple IPs were reported back from the list of services\n"@ + debug_text(
        conflict_lines(ips),
    )
}

/// The sentence that reports `reason`.
pub open spec fn message_text(reason: Reason) -> Seq<char> {
    match reason {
        Reason::IpConflict(ips) => conflict_message(ips),
        Reason::InvalidInput(context) => "An input was unexpected. Context: "@ + context,
        Reason::NoIpAddressesFound =>
            "No IP addresses were found in the result storage. Most likely, a query has not been run."@,
        Reason::FileWriteFailed(file) => "Failed to write IP address to file at path "@ + file,
        Reason::FileOpenFailed(file) => "Failed to open file at path "@ + file,
        Reason::S3WriteFailed(reason) => "Failed to write IP address to S3. Reason: "@ + reason,
        Reason::RestRequestFailed(reason) => "Failed to make a REST request. Reason: "@ + reason,
        Reason::Generic(context) => "An error was encountered. Context: "@ + context,
    }
}

fn conflict_report(ips: &Vec<String>) -> (out: String)
    ensures
        out@ == conflict_message(texts(ips@)),
{
    let lines: String = join(ips, "\n");
    let quoted: String = debug_quoted(lines.as_str());
    followed_by("Multiple IPs were reported back from the list of services\n", quoted.as_str())
}

impl Clone for ErrorReason {
    fn clone(&self) -> (copy: Self)
        ensures
            copy@ == self@,
    {
        match self {
            ErrorReason::IpConflict(ips) => ErrorReason::IpConflict(copy_texts(ips)),
            ErrorReason::InvalidInput(context) => ErrorReason::InvalidInput(context.clone()),
            ErrorReason::NoIpAddressesFound => ErrorReason::NoIpAddressesFound,
            ErrorReason::FileWriteFailed(file) => ErrorReason::FileWriteFailed(file.clone()),
            ErrorReason::FileOpenFailed(file) => ErrorReason::FileOpenFailed(file.clone()),
            ErrorReason::S3WriteFailed(reason) => ErrorReason::S3WriteFailed(reason.clone()),
            ErrorReason::RestRequestFailed(reason) => ErrorReason::RestRequestFailed(
                reason.clone(),
            ),
            ErrorReason::Generic(context) => ErrorReason::Generic(context.clone()),
        }
    }
}

/// A failure of the lookup or of a report, with its reason.
#[derive(Debug)]
pub struct IpError {
    reason: ErrorReason,
}

impl View for IpError {
    type V = Reason;

    closed spec fn view(&self) -> Reason {
        self.reason@
    }
}

impl Clone for IpError {
    fn clone(&self) -> (copy: Self)
        ensures
            copy@ == self@,
    {
        IpError { reason: self.reason.clone() }
    }
}

impl IpError {
    pub fn new(reason: ErrorReason) -> (err: Self)
        ensures
            err@ == reason@,
    {
        IpError { reason }
    }

    /// The reason this error was made with.
    pub fn reason(&self) -> (reason: &ErrorReason)
        ensures
            reason@ == self@,
    {
        &self.reason
    }

    /// The sentence that reports this error.
    pub fn message(&self) -> (out: String)
        ensures
            out@ == message_text(self@),
    {
        match &self.reason {
            ErrorReason::IpConflict(ips) => conflict_report(ips),
            ErrorReason::InvalidInput(context) => followed_by(
                "An input was unexpected. Context: ",
                context.as_str(),
            ),
            ErrorReason::NoIpAddressesFound => String::from_str(
                "No IP addresses were found in the result storage. Most likely, a query has not been run.",
            ),
            ErrorReason::FileWriteFailed(file) => followed_by(
                "Failed to write IP address to file at path ",
                file.as_str(),
            ),
            ErrorReason::FileOpenFailed(file) => followed_by(
                "Failed to open file at path ",
                file.as_str(),
            ),
            ErrorReason::S3WriteFailed(reason) => followed_by(
                "Failed to write IP address to S3. Reason: ",
                reason.as_str(),
            ),
            ErrorReason::RestRequestFailed(reason) => followed_by(
                "Failed to make a REST request. Reason: ",
                reason.as_str(),
            ),
            ErrorReason::Generic(context) => followed_by(
                "An error was encountered. Context: ",
                context.as_str(),
            ),
        }
    }
}

/// The services disagree on the address.
#[derive(Debug)]
pub struct IpConflictError {
    ips: Vec<String>,
}

impl View for IpConflictError {
    type V = Seq<Seq<char>>;

    closed spec fn view(&self) -> Seq<Seq<char>> {
        texts(self.ips@)
    }
}

impl Clone for IpConflictError {
    fn clone(&self) -> (copy: Self)
        ensures
            copy@ == self@,
    {
        IpConflictError { ips: copy_texts(&self.ips) }
    }
}

impl IpConflictError {
    pub fn new(ips: Vec<String>) -> (err: Self)
        ensures
            err@ == texts(ips@),
    {
        IpConflictError { ips }
    }

    /// The readings, one per line.
    pub fn ips_as_string_list(&self) -> (out: String)
        ensures
            out@ == conflict_lines(self@),
    {
        join(&self.ips, "\n")
    }

    /// The sentence that reports this conflict.
    pub fn message(&self) -> (out: String)
        ensures
            out@ == conflict_message(self@),
    {
        conflict_report(&self.ips)
    }
}

} // verus!
