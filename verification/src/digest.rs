//! Content digests: SHA-256 in lowercase hexadecimal.

use vstd::prelude::*;
use vstd::string::*;
use sha2::Digest;
use crate::error::ErrorKind;
use crate::text::{digit_char, eq_ignore_case, same_ignoring_case};

verus! {

/// The SHA-256 digest of `data`.
pub uninterp spec fn sha256(data: Seq<u8>) -> Seq<u8>;

/// Calls `sha2::Sha256::digest`. The contract names the digest, which
/// depends on the data alone, and states its length: 32 bytes.
#[verifier::external_body]
fn sha256_digest(data: &[u8]) -> (r: Vec<u8>)
    ensures
        r@ == sha256(data@),
        r@.len() == 32,
{
    sha2::Sha256::digest(data).to_vec()
}

/// The character that writes `n` in base sixteen, with small letters.
pub open spec fn hex_digit(n: nat) -> char
    recommends
        n < 16,
{
    if n < 10 {
        digit_char(n)
    } else if n == 10 {
        'a'
    } else if n == 11 {
        'b'
    } else if n == 12 {
        'c'
    } else if n == 13 {
        'd'
    } else if n == 14 {
        'e'
    } else {
        'f'
    }
}

/// Whether `c` is one of `0` to `9` and `a` to `f`.
pub open spec fn is_lower_hex(c: char) -> bool {
    exists|n: nat| n < 16 && c == hex_digit(n)
}

/// Two digits for every byte: the high half first.
pub open spec fn hex_lower(data: Seq<u8>) -> Seq<char>
    decreases data.len(),
{
    if data.len() == 0 {
        Seq::empty()
    } else {
        hex_lower(data.drop_last()).push(hex_digit((data.last() / 16) as nat)).push(
            hex_digit((data.last() % 16) as nat),
        )
    }
}

/// The hexadecimal form of `data` has two characters for each byte, each
/// of them one of `0` to `9` and `a` to `f`.
pub proof fn lemma_hex_lower_shape(data: Seq<u8>)
    ensures
        hex_lower(data).len() == 2 * data.len(),
        forall|i: int| 0 <= i < hex_lower(data).len() ==> is_lower_hex(#[trigger] hex_lower(data)[i]),
    decreases data.len(),
{
    if data.len() > 0 {
        lemma_hex_lower_shape(data.drop_last());
        let hi = (data.last() / 16) as nat;
        let lo = (data.last() % 16) as nat;
        assert(is_lower_hex(hex_digit(hi)));
        assert(is_lower_hex(hex_digit(lo)));
    }
}

fn hex_digit_str(n: u8) -> (r: &'static str)
    requires
        n < 16,
    ensures
        r@ == seq![hex_digit(n as nat)],
{
    proof {
        reveal_strlit("0");
        reveal_strlit("1");
        reveal_strlit("2");
        reveal_strlit("3");
        reveal_strlit("4");
        reveal_strlit("5");
        reveal_strlit("6");
        reveal_strlit("7");
        reveal_strlit("8");
        reveal_strlit("9");
        reveal_strlit("a");
        reveal_strlit("b");
        reveal_strlit("c");
        reveal_strlit("d");
        reveal_strlit("e");
        reveal_strlit("f");
    }
    let r = if n == 0 {
        "0"
    } else if n == 1 {
        "1"
    } else if n == 2 {
        "2"
    } else if n == 3 {
        "3"
    } else if n == 4 {
        "4"
    } else if n == 5 {
        "5"
    } else if n == 6 {
        "6"
    } else if n == 7 {
        "7"
    } else if n == 8 {
        "8"
    } else if n == 9 {
        "9"
    } else if n == 10 {
        "a"
    } else if n == 11 {
        "b"
    } else if n == 12 {
        "c"
    } else if n == 13 {
        "d"
    } else if n == 14 {
        "e"
    } else {
        "f"
    };
    assert(r@ =~= seq![hex_digit(n as nat)]);
    r
}

/// Writes bytes in lowercase hexadecimal.
pub fn to_hex(data: &[u8]) -> (r: String)
    ensures
        r@ == hex_lower(data@),
{
    let mut out = String::new();
    let mut i: usize = 0;
    assert(data@.take(0) =~= Seq::<u8>::empty());
    while i < data.len()
        invariant
            i <= data.len(),
            out@ == hex_lower(data@.take(i as int)),
        decreases data.len() - i,
    {
        let b = data[i];
        assert(data@.take(i + 1).drop_last() =~= data@.take(i as int));
        out.append(hex_digit_str(b / 16));
        out.append(hex_digit_str(b % 16));
        assert(out@ =~= hex_lower(data@.take(i as int)).push(hex_digit((b / 16) as nat)).push(
            hex_digit((b % 16) as nat),
        ));
        i += 1;
    }
    assert(data@.take(data.len() as int) =~= data@);
    out
}

/// The digest of `data` as it is written: SHA-256 in lowercase hexadecimal.
pub open spec fn digest_text(data: Seq<u8>) -> Seq<char> {
    hex_lower(sha256(data))
}

/// The SHA-256 of `data` in lowercase hexadecimal: 64 characters.
pub fn sha256_hex(data: &[u8]) -> (r: String)
    ensures
        r@ == digest_text(data@),
        r@.len() == 64,
        forall|i: int| 0 <= i < 64 ==> is_lower_hex(#[trigger] r@[i]),
{
    let digest = sha256_digest(data);
    proof {
        lemma_hex_lower_shape(digest@);
    }
    to_hex(digest.as_slice())
}

/// The name of a package's directory in the store: the digest of the
/// UTF-8 bytes of the package's name.
pub open spec fn package_hash_of(name: Seq<char>) -> Seq<char> {
    digest_text(vstd::utf8::encode_utf8(name))
}

/// The name of a package's directory in the store.
pub fn package_hash(name: &str) -> (r: String)
    ensures
        r@ == package_hash_of(name@),
        r@.len() == 64,
        forall|i: int| 0 <= i < 64 ==> is_lower_hex(#[trigger] r@[i]),
{
    sha256_hex(name.as_bytes())
}

/// Whether a digest satisfies what a manifest expects: anything does
/// where it expects nothing; else the two must be equal up to the case of
/// the letters.
pub open spec fn digest_accepted(expected: Option<Seq<char>>, actual: Seq<char>) -> bool {
    match expected {
        None => true,
        Some(e) => same_ignoring_case(e, actual),
    }
}

/// Holds a digest against the one that the manifest expects.
pub fn check_digest(expected: Option<&str>, actual: &str) -> (r: Result<(), ErrorKind>)
    ensures
        r is Ok <==> digest_accepted(crate::formula::opt_str(expected), actual@),
        r is Err ==> r == Err::<(), ErrorKind>(ErrorKind::ChecksumMismatch),
{
    match expected {
        None => Ok(()),
        Some(e) => if eq_ignore_case(e, actual) {
            Ok(())
        } else {
            Err(ErrorKind::ChecksumMismatch)
        },
    }
}

/// Holds a downloaded artifact against the digest that the manifest
/// expects of it.
pub fn verify_checksum(expected: Option<&str>, artifact: &[u8]) -> (r: Result<(), ErrorKind>)
    ensures
        r is Ok <==> digest_accepted(crate::formula::opt_str(expected), digest_text(artifact@)),
        r is Err ==> r == Err::<(), ErrorKind>(ErrorKind::ChecksumMismatch),
{
    match expected {
        None => Ok(()),
        Some(_) => {
            let actual = sha256_hex(artifact);
            check_digest(expected, actual.as_str())
        },
    }
}

/// Every text is equal to itself up to case, so a digest always
/// satisfies a manifest that expects exactly it.
pub proof fn lemma_digest_accepts_itself(actual: Seq<char>)
    ensures
        digest_accepted(Some(actual), actual),
        digest_accepted(None, actual),
{
}

/// Two digests that a manifest's expectation accepts differ at most in
/// the case of their letters.
pub proof fn lemma_digest_accepted_is_exact(expected: Seq<char>, a: Seq<char>, b: Seq<char>)
    requires
        digest_accepted(Some(expected), a),
        digest_accepted(Some(expected), b),
    ensures
        same_ignoring_case(a, b),
{
}

} // verus!
