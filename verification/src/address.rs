//! Web addresses: what the installer reads of a parsed URL.

use vstd::prelude::*;
use crate::text::{chars_of, split, split_on, texts};

verus! {

/// The parts of a URL that the installer reads.
#[derive(Debug)]
pub struct Address {
    /// The scheme, in small letters, without the colon.
    pub scheme: String,
    /// The whole URL as the parser writes it.
    pub href: String,
    /// The path, percent-encoded.
    pub path: String,
}

/// The mathematical value of an [`Address`].
pub struct AddressView {
    pub scheme: Seq<char>,
    pub href: Seq<char>,
    pub path: Seq<char>,
}

impl View for Address {
    type V = AddressView;

    open spec fn view(&self) -> AddressView {
        AddressView { scheme: self.scheme@, href: self.href@, path: self.path@ }
    }
}

/// The parser's account of why a text is no URL.
#[verifier::external_type_specification]
#[verifier::external_body]
pub struct ExUrlParseError(url::ParseError);

/// The URL that `text` is read as, or `None` where it is no absolute URL.
pub uninterp spec fn url_of(text: Seq<char>) -> Option<AddressView>;

/// Calls `url::Url::parse`, and reads `scheme()`, `as_str()` and `path()`
/// of the URL that comes back. The contract names the outcome, which
/// depends on the text alone.
#[verifier::external_body]
fn parse_url(text: &str) -> (r: Result<Address, url::ParseError>)
    ensures
        match r {
            Ok(a) => url_of(text@) == Some(a@),
            Err(_) => url_of(text@) is None,
        },
{
    match url::Url::parse(text) {
        Ok(u) => Ok(
            Address {
                scheme: u.scheme().to_string(),
                href: u.as_str().to_string(),
                path: u.path().to_string(),
            },
        ),
        Err(e) => Err(e),
    }
}

/// The last of the pieces between the slashes of a path that starts
/// with a slash; a path that does not start with one has no pieces.
pub open spec fn last_segment(path: Seq<char>) -> Option<Seq<char>> {
    if path.len() > 0 && path[0] == '/' {
        Some(split_on(path.skip(1), '/').last())
    } else {
        None
    }
}

impl Address {
    /// Reads `text` as an absolute URL.
    pub fn parse(text: &str) -> (r: Option<Address>)
        ensures
            match r {
                Some(a) => url_of(text@) == Some(a@),
                None => url_of(text@) is None,
            },
    {
        match parse_url(text) {
            Ok(a) => Some(a),
            Err(_) => None,
        }
    }

    /// The last segment of the path: the file name that the URL points at.
    pub fn file_name(&self) -> (r: Option<String>)
        ensures
            match r {
                Some(s) => last_segment(self.path@) == Some(s@),
                None => last_segment(self.path@) is None,
            },
    {
        let chars = chars_of(self.path.as_str());
        if chars.len() > 0 && chars[0] == '/' {
            let rest = self.path.as_str().substring_char(1, chars.len());
            assert(rest@ =~= self.path@.skip(1));
            let mut pieces = split(rest, '/');
            proof {
                crate::text::lemma_split_nonempty(rest@, '/');
                assert(texts(pieces@).len() == pieces@.len());
            }
            let ghost all = pieces@;
            let last = pieces.pop();
            match last {
                Some(s) => {
                    assert(s@ == texts(all).last());
                    Some(s)
                },
                None => None,
            }
        } else {
            None
        }
    }
}

} // verus!
