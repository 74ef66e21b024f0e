//! The archive formats that an artifact can have.

use vstd::prelude::*;
use crate::text::{ends_with, str_eq};

verus! {

/// The format of a downloaded archive, named by its file extension.
#[derive(Clone, Copy, Debug, PartialEq, Eq, Structural)]
pub enum Extension {
    TarGz,
    Tgz,
    Tar,
    Zip,
}

impl Extension {
    /// The extension as it is written, with its leading dot.
    pub open spec fn text(self) -> Seq<char> {
        match self {
            Extension::TarGz => ".tar.gz"@,
            Extension::Tgz => ".tgz"@,
            Extension::Tar => ".tar"@,
            Extension::Zip => ".zip"@,
        }
    }

    /// The extension as it is written, with its leading dot.
    pub fn as_str(&self) -> (r: &'static str)
        ensures
            r@ == self.text(),
    {
        match self {
            Extension::TarGz => ".tar.gz",
            Extension::Tgz => ".tgz",
            Extension::Tar => ".tar",
            Extension::Zip => ".zip",
        }
    }

    /// The format that `s` names.
    pub open spec fn named(s: Seq<char>) -> Option<Extension> {
        if s == ".tar.gz"@ {
            Some(Extension::TarGz)
        } else if s == ".tgz"@ {
            Some(Extension::Tgz)
        } else if s == ".tar"@ {
            Some(Extension::Tar)
        } else if s == ".zip"@ {
            Some(Extension::Zip)
        } else {
            None
        }
    }

    /// Reads an extension from its written form.
    pub fn from_text(s: &str) -> (r: Option<Extension>)
        ensures
            r == Extension::named(s@),
    {
        if str_eq(s, ".tar.gz") {
            Some(Extension::TarGz)
        } else if str_eq(s, ".tgz") {
            Some(Extension::Tgz)
        } else if str_eq(s, ".tar") {
            Some(Extension::Tar)
        } else if str_eq(s, ".zip") {
            Some(Extension::Zip)
        } else {
            None
        }
    }

    /// The format that a file name suggests: the first of `.tar.gz`, `.tgz`,
    /// `.tar`, `.zip` that the name ends with, and `.tar.gz` where it ends
    /// with none of them.
    pub open spec fn inferred(file_name: Seq<char>) -> Extension {
        if ".tar.gz"@.is_suffix_of(file_name) {
            Extension::TarGz
        } else if ".tgz"@.is_suffix_of(file_name) {
            Extension::Tgz
        } else if ".tar"@.is_suffix_of(file_name) {
            Extension::Tar
        } else if ".zip"@.is_suffix_of(file_name) {
            Extension::Zip
        } else {
            Extension::TarGz
        }
    }

    /// Infers the format of an artifact from its file name.
    pub fn infer(file_name: &str) -> (r: Extension)
        ensures
            r == Extension::inferred(file_name@),
    {
        if ends_with(file_name, ".tar.gz") {
            Extension::TarGz
        } else if ends_with(file_name, ".tgz") {
            Extension::Tgz
        } else if ends_with(file_name, ".tar") {
            Extension::Tar
        } else if ends_with(file_name, ".zip") {
            Extension::Zip
        } else {
            Extension::TarGz
        }
    }
}

} // verus!
