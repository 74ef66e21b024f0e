//! The failures of an install, as plain values.

use vstd::prelude::*;
use crate::text::concat3;

verus! {

/// What went wrong.
#[derive(Clone, Copy, Debug, PartialEq, Eq, Structural)]
pub enum ErrorKind {
    /// The manifest file is missing.
    NotFound,
    /// The manifest is not a well-formed document.
    ParseError,
    /// A required field of the manifest is absent or of the wrong shape.
    SchemaError,
    /// The package address is a URL whose scheme is neither `http` nor `https`.
    UnsupportedScheme,
    /// The user's home directory cannot be resolved.
    NoHome,
    /// The cloned repository holds no manifest at its root.
    NotAFormula,
    /// The manifest has no artifact for the host.
    UnsupportedPlatform,
    /// The requested version is not among the listed versions.
    UnknownVersion,
    /// Neither the manifest nor the repository names any version.
    NoVersionsAvailable,
    /// A template of the manifest cannot be expanded.
    TemplateError,
    /// Reading or storing the artifact failed.
    DownloadFailed,
    /// The server did not say how long the artifact is.
    NoContentLength,
    /// The artifact's digest differs from the one the manifest gives.
    ChecksumMismatch,
    /// The archive holds no entry for the executable.
    BinaryNotFound,
    /// The executable could not be published.
    SymlinkFailed,
    /// Any other failure: of the file system, of a child process, of an archive.
    IOError,
}

/// A failure: its kind and the package or input that it is about.
#[derive(Debug)]
pub struct CaskError {
    pub kind: ErrorKind,
    pub subject: String,
}

/// The mathematical value of a [`CaskError`].
pub struct CaskErrorView {
    pub kind: ErrorKind,
    pub subject: Seq<char>,
}

impl View for CaskError {
    type V = CaskErrorView;

    open spec fn view(&self) -> CaskErrorView {
        CaskErrorView { kind: self.kind, subject: self.subject@ }
    }
}

/// The words of a message that stand before its subject.
pub open spec fn message_head(kind: ErrorKind) -> Seq<char> {
    match kind {
        ErrorKind::NotFound => "the formula '"@,
        ErrorKind::ParseError => "the formula '"@,
        ErrorKind::SchemaError => "the formula '"@,
        ErrorKind::UnsupportedScheme => "Not support the protocol '"@,
        ErrorKind::NoHome => "can not get $HOME dir"@,
        ErrorKind::NotAFormula => ""@,
        ErrorKind::UnsupportedPlatform => "the package '"@,
        ErrorKind::UnknownVersion => "can not found version '"@,
        ErrorKind::NoVersionsAvailable => "can not found any version of formula '"@,
        ErrorKind::TemplateError => "can not render the template of '"@,
        ErrorKind::DownloadFailed => "Error while downloading '"@,
        ErrorKind::NoContentLength => "Failed to get content length from "@,
        ErrorKind::ChecksumMismatch => "the checksum of '"@,
        ErrorKind::BinaryNotFound => "can not found binary file '"@,
        ErrorKind::SymlinkFailed => "can not link '"@,
        ErrorKind::IOError => "I/O failure: "@,
    }
}

/// The words of a message that stand behind its subject.
pub open spec fn message_tail(kind: ErrorKind) -> Seq<char> {
    match kind {
        ErrorKind::NotFound => "' does not exist"@,
        ErrorKind::ParseError => "' is not a well-formed document"@,
        ErrorKind::SchemaError => "' lacks a required field or holds one of the wrong shape"@,
        ErrorKind::UnsupportedScheme => "' of package address."@,
        ErrorKind::NoHome => ""@,
        ErrorKind::NotAFormula => " is not a valid formula!"@,
        ErrorKind::UnsupportedPlatform => "' not support your system"@,
        ErrorKind::UnknownVersion => "' of formula"@,
        ErrorKind::NoVersionsAvailable => "'"@,
        ErrorKind::TemplateError => "'"@,
        ErrorKind::DownloadFailed => "'"@,
        ErrorKind::NoContentLength => ""@,
        ErrorKind::ChecksumMismatch => "' does not match"@,
        ErrorKind::BinaryNotFound => "' in tar"@,
        ErrorKind::SymlinkFailed => "'"@,
        ErrorKind::IOError => ""@,
    }
}

/// The message of a failure: the words for its kind around its subject.
pub open spec fn message_text(e: CaskErrorView) -> Seq<char> {
    message_head(e.kind) + e.subject + message_tail(e.kind)
}

fn head_of(kind: ErrorKind) -> (r: &'static str)
    ensures
        r@ == message_head(kind),
{
    match kind {
        ErrorKind::NotFound => "the formula '",
        ErrorKind::ParseError => "the formula '",
        ErrorKind::SchemaError => "the formula '",
        ErrorKind::UnsupportedScheme => "Not support the protocol '",
        ErrorKind::NoHome => "can not get $HOME dir",
        ErrorKind::NotAFormula => "",
        ErrorKind::UnsupportedPlatform => "the package '",
        ErrorKind::UnknownVersion => "can not found version '",
        ErrorKind::NoVersionsAvailable => "can not found any version of formula '",
        ErrorKind::TemplateError => "can not render the template of '",
        ErrorKind::DownloadFailed => "Error while downloading '",
        ErrorKind::NoContentLength => "Failed to get content length from ",
        ErrorKind::ChecksumMismatch => "the checksum of '",
        ErrorKind::BinaryNotFound => "can not found binary file '",
        ErrorKind::SymlinkFailed => "can not link '",
        ErrorKind::IOError => "I/O failure: ",
    }
}

fn tail_of(kind: ErrorKind) -> (r: &'static str)
    ensures
        r@ == message_tail(kind),
{
    match kind {
        ErrorKind::NotFound => "' does not exist",
        ErrorKind::ParseError => "' is not a well-formed document",
        ErrorKind::SchemaError => "' lacks a required field or holds one of the wrong shape",
        ErrorKind::UnsupportedScheme => "' of package address.",
        ErrorKind::NoHome => "",
        ErrorKind::NotAFormula => " is not a valid formula!",
        ErrorKind::UnsupportedPlatform => "' not support your system",
        ErrorKind::UnknownVersion => "' of formula",
        ErrorKind::NoVersionsAvailable => "'",
        ErrorKind::TemplateError => "'",
        ErrorKind::DownloadFailed => "'",
        ErrorKind::NoContentLength => "",
        ErrorKind::ChecksumMismatch => "' does not match",
        ErrorKind::BinaryNotFound => "' in tar",
        ErrorKind::SymlinkFailed => "'",
        ErrorKind::IOError => "",
    }
}

impl CaskError {
    /// A failure of the given kind about `subject`.
    pub fn new(kind: ErrorKind, subject: &str) -> (r: CaskError)
        ensures
            r@ == (CaskErrorView { kind, subject: subject@ }),
    {
        CaskError { kind, subject: String::from_str(subject) }
    }

    /// The message to show to the user.
    pub fn message(&self) -> (r: String)
        ensures
            r@ == message_text(self@),
    {
        concat3(head_of(self.kind), self.subject.as_str(), tail_of(self.kind))
    }
}

} // verus!
