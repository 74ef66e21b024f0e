//! Archives: finding the executable among the entries of a downloaded artifact.

use vstd::prelude::*;
use vstd::slice::slice_to_vec;
use std::io::Read;
use crate::error::{CaskError, ErrorKind};
use crate::extension::Extension;
use crate::formula::{DownloadTarget, DownloadTargetView};
use crate::text::{split, split_on, str_eq, texts};

verus! {

/// One entry of an archive: what its header says.
#[derive(Debug)]
pub struct ArchiveEntry {
    /// The path of the entry inside the archive, with `/` between its names.
    pub path: String,
    /// Whether the entry is a regular file.
    pub is_file: bool,
    /// The permission bits that the archive records, if it records any.
    pub mode: Option<u32>,
}

/// The mathematical value of an [`ArchiveEntry`].
pub struct EntryView {
    pub path: Seq<char>,
    pub is_file: bool,
    pub mode: Option<u32>,
}

impl View for ArchiveEntry {
    type V = EntryView;

    open spec fn view(&self) -> EntryView {
        EntryView { path: self.path@, is_file: self.is_file, mode: self.mode }
    }
}

/// The views of a list of entries.
pub open spec fn entry_views(v: Seq<ArchiveEntry>) -> Seq<EntryView> {
    v.map_values(|e: ArchiveEntry| e@)
}

/// A walk over an archive: the entries that were met, in order, and
/// whether the walk came to the end of the archive or broke off before.
pub struct ListingView {
    pub entries: Seq<EntryView>,
    pub complete: bool,
}

/// What was taken out of an artifact: the bytes of the executable and the
/// permission bits that came with it.
#[derive(Debug)]
pub struct Extracted {
    pub data: Vec<u8>,
    pub mode: Option<u32>,
}

/// The failure that the operating system reports for a read.
#[verifier::external_type_specification]
#[verifier::external_body]
pub struct ExIoError(std::io::Error);

/// The zip reader's account of why an archive cannot be read.
#[verifier::external_type_specification]
#[verifier::external_body]
pub struct ExZipError(zip::result::ZipError);

/// The zip reader's word that an entry needs a password that was not given.
#[verifier::external_type_specification]
#[verifier::external_body]
pub struct ExZipPassword(zip::result::InvalidPassword);

/// The walk over a tar archive: it breaks off at the first entry that
/// cannot be read.
pub uninterp spec fn tar_listing(data: Seq<u8>) -> ListingView;

/// The contents of the entry that a walk over a tar archive meets at
/// place `index`, or `None` where there is no such entry or it cannot be
/// read.
pub uninterp spec fn tar_contents(data: Seq<u8>, index: int) -> Option<Seq<u8>>;

/// The walk over a tar archive inside a gzip stream, which is unpacked as
/// the walk goes: it breaks off at the first entry that cannot be read,
/// be it for the archive or for the stream.
pub uninterp spec fn tar_gz_listing(data: Seq<u8>) -> ListingView;

/// The contents of the entry that a walk over a tar archive inside a gzip
/// stream meets at place `index`, or `None` where there is no such entry
/// or it cannot be read.
pub uninterp spec fn tar_gz_contents(data: Seq<u8>, index: int) -> Option<Seq<u8>>;

/// The walk over the directory of a zip archive: it breaks off at the
/// first entry that cannot be opened without a password, and meets
/// nothing where the directory itself cannot be read.
pub uninterp spec fn zip_listing(data: Seq<u8>) -> ListingView;

/// The contents of the entry at place `index` of the directory of a zip
/// archive, or `None` where there is no such entry or it cannot be read.
pub uninterp spec fn zip_contents(data: Seq<u8>, index: int) -> Option<Seq<u8>>;

/// Walks `tar::Archive::entries` over the bytes and reads of every entry
/// its `path_bytes()` as text, whether its header's type is a regular
/// file, and its header's `mode()`; the walk ends at the first failure.
/// The contract names the outcome, which depends on the bytes alone.
#[verifier::external_body]
fn tar_entries(data: &[u8]) -> (r: (Vec<ArchiveEntry>, Result<(), std::io::Error>))
    ensures
        tar_listing(data@) == (ListingView { entries: entry_views(r.0@), complete: r.1 is Ok }),
{
    let (mut out, mut archive) = (Vec::new(), tar::Archive::new(data));
    let entries = match archive.entries() {
        Ok(entries) => entries,
        Err(e) => return (out, Err(e)),
    };
    for item in entries {
        let entry = match item {
            Ok(entry) => entry,
            Err(e) => return (out, Err(e)),
        };
        let (is_file, mode) = (entry.header().entry_type().is_file(), entry.header().mode().ok());
        let path = String::from_utf8_lossy(&entry.path_bytes()).into_owned();
        out.push(ArchiveEntry { path, is_file, mode });
    }
    (out, Ok(()))
}

/// Walks `tar::Archive::entries` over the bytes up to place `index` and
/// reads the entry there to its end. The contract names the outcome,
/// which depends on the bytes and the place alone.
#[verifier::external_body]
fn tar_entry_data(data: &[u8], index: usize) -> (r: Result<Option<Vec<u8>>, std::io::Error>)
    ensures
        tar_contents(data@, index as int) == match r {
            Ok(Some(bytes)) => Some(bytes@),
            _ => None,
        },
{
    let mut out = Vec::new();
    match tar::Archive::new(data).entries()?.nth(index) {
        Some(entry) => {
            entry?.read_to_end(&mut out)?;
            Ok(Some(out))
        },
        None => Ok(None),
    }
}

/// Walks `tar::Archive::entries` over a `flate2::read::GzDecoder` over
/// the bytes, and reads of every entry what [`tar_entries`] reads; the
/// walk ends at the first failure. The contract names the outcome, which
/// depends on the bytes alone.
#[verifier::external_body]
fn tar_gz_entries(data: &[u8]) -> (r: (Vec<ArchiveEntry>, Result<(), std::io::Error>))
    ensures
        tar_gz_listing(data@) == (ListingView { entries: entry_views(r.0@), complete: r.1 is Ok }),
{
    let (mut out, mut archive) = (Vec::new(), tar::Archive::new(flate2::read::GzDecoder::new(data)));
    let entries = match archive.entries() {
        Ok(entries) => entries,
        Err(e) => return (out, Err(e)),
    };
    for item in entries {
        let entry = match item {
            Ok(entry) => entry,
            Err(e) => return (out, Err(e)),
        };
        let (is_file, mode) = (entry.header().entry_type().is_file(), entry.header().mode().ok());
        let path = String::from_utf8_lossy(&entry.path_bytes()).into_owned();
        out.push(ArchiveEntry { path, is_file, mode });
    }
    (out, Ok(()))
}

/// Walks `tar::Archive::entries` over a `flate2::read::GzDecoder` over
/// the bytes up to place `index` and reads the entry there to its end.
/// The contract names the outcome, which depends on the bytes and the
/// place alone.
#[verifier::external_body]
fn tar_gz_entry_data(data: &[u8], index: usize) -> (r: Result<Option<Vec<u8>>, std::io::Error>)
    ensures
        tar_gz_contents(data@, index as int) == match r {
            Ok(Some(bytes)) => Some(bytes@),
            _ => None,
        },
{
    let mut out = Vec::new();
    match tar::Archive::new(flate2::read::GzDecoder::new(data)).entries()?.nth(index) {
        Some(entry) => {
            entry?.read_to_end(&mut out)?;
            Ok(Some(out))
        },
        None => Ok(None),
    }
}

/// Opens a `zip::ZipArchive` over the bytes and reads of every entry, by
/// `by_index_decrypt` with an empty password, its `name()`, `is_file()`
/// and `unix_mode()`; the walk ends at the first entry that cannot be
/// opened, be it for a failure or for the password. The contract names
/// the outcome, which depends on the bytes alone.
#[verifier::external_body]
fn zip_entries(data: &[u8]) -> (r: (
    Vec<ArchiveEntry>,
    Result<Result<(), zip::result::InvalidPassword>, zip::result::ZipError>,
))
    ensures
        zip_listing(data@) == (ListingView {
            entries: entry_views(r.0@),
            complete: r.1 matches Ok(Ok(_)),
        }),
{
    let mut out = Vec::new();
    let mut archive = match zip::ZipArchive::new(std::io::Cursor::new(data)) {
        Ok(archive) => archive,
        Err(e) => return (out, Err(e)),
    };
    for index in 0..archive.len() {
        let file = match archive.by_index_decrypt(index, &[]) {
            Ok(Ok(file)) => file,
            Ok(Err(e)) => return (out, Ok(Err(e))),
            Err(e) => return (out, Err(e)),
        };
        let (path, is_file, mode) = (file.name().to_string(), file.is_file(), file.unix_mode());
        out.push(ArchiveEntry { path, is_file, mode });
    }
    (out, Ok(Ok(())))
}

/// Opens a `zip::ZipArchive` over the bytes and reads the entry that
/// `by_index_decrypt` gives for `index` and an empty password to its end.
/// The contract names the outcome, which depends on the bytes and the
/// place alone.
#[verifier::external_body]
fn zip_entry_data(data: &[u8], index: usize) -> (r: Result<
    Result<Vec<u8>, zip::result::InvalidPassword>,
    zip::result::ZipError,
>)
    ensures
        zip_contents(data@, index as int) == match r {
            Ok(Ok(bytes)) => Some(bytes@),
            _ => None,
        },
{
    let mut archive = zip::ZipArchive::new(std::io::Cursor::new(data))?;
    let mut out = Vec::new();
    let mut file = match archive.by_index_decrypt(index, &[])? {
        Ok(file) => file,
        Err(e) => return Ok(Err(e)),
    };
    file.read_to_end(&mut out)?;
    Ok(Ok(out))
}

/// The walk over the entries of an archive of the given format.
pub open spec fn listing_of(data: Seq<u8>, format: Extension) -> ListingView {
    match format {
        Extension::TarGz | Extension::Tgz => tar_gz_listing(data),
        Extension::Tar => tar_listing(data),
        Extension::Zip => zip_listing(data),
    }
}

/// The contents of the entry at place `index` of the walk.
pub open spec fn contents_of(data: Seq<u8>, format: Extension, index: int) -> Option<Seq<u8>> {
    match format {
        Extension::TarGz | Extension::Tgz => tar_gz_contents(data, index),
        Extension::Tar => tar_contents(data, index),
        Extension::Zip => zip_contents(data, index),
    }
}

/// The bytes of an optional list of bytes.
pub open spec fn opt_bytes(o: Option<Vec<u8>>) -> Option<Seq<u8>> {
    match o {
        Some(v) => Some(v@),
        None => None,
    }
}

/// A walk over the entries of an archive, as far as it got.
#[derive(Debug)]
pub struct Listing {
    pub entries: Vec<ArchiveEntry>,
    pub complete: bool,
}

impl View for Listing {
    type V = ListingView;

    open spec fn view(&self) -> ListingView {
        ListingView { entries: entry_views(self.entries@), complete: self.complete }
    }
}

/// Walks over the entries of an archive of the given format.
pub fn list_entries(data: &[u8], format: Extension) -> (r: Listing)
    ensures
        r@ == listing_of(data@, format),
{
    match format {
        Extension::TarGz | Extension::Tgz => {
            let (entries, ended) = tar_gz_entries(data);
            Listing { entries, complete: ended.is_ok() }
        },
        Extension::Tar => {
            let (entries, ended) = tar_entries(data);
            Listing { entries, complete: ended.is_ok() }
        },
        Extension::Zip => {
            let (entries, ended) = zip_entries(data);
            let complete = match ended {
                Ok(Ok(_)) => true,
                _ => false,
            };
            Listing { entries, complete }
        },
    }
}

/// Reads the contents of the entry at place `index` of the walk.
pub fn read_entry(data: &[u8], format: Extension, index: usize) -> (r: Option<Vec<u8>>)
    ensures
        opt_bytes(r) == contents_of(data@, format, index as int),
{
    match format {
        Extension::TarGz | Extension::Tgz => match tar_gz_entry_data(data, index) {
            Ok(Some(bytes)) => Some(bytes),
            _ => None,
        },
        Extension::Tar => match tar_entry_data(data, index) {
            Ok(Some(bytes)) => Some(bytes),
            _ => None,
        },
        Extension::Zip => match zip_entry_data(data, index) {
            Ok(Ok(bytes)) => Some(bytes),
            _ => None,
        },
    }
}

/// Whether a piece of a path is a name: not empty, and not `.`.
pub open spec fn is_name(piece: Seq<char>) -> bool {
    piece.len() > 0 && piece != "."@
}

/// The names among the pieces of a path, in order.
pub open spec fn names_among(pieces: Seq<Seq<char>>) -> Seq<Seq<char>>
    decreases pieces.len(),
{
    if pieces.len() == 0 {
        Seq::empty()
    } else if is_name(pieces.last()) {
        names_among(pieces.drop_last()).push(pieces.last())
    } else {
        names_among(pieces.drop_last())
    }
}

/// The names that a path is made of: its pieces between slashes, without
/// the empty ones and without `.`.
pub open spec fn components(path: Seq<char>) -> Seq<Seq<char>> {
    names_among(split_on(path, '/'))
}

/// Whether an entry is the executable: its last name is the executable's
/// file name, and the names before it are those of the inner path, unless
/// the inner path names nothing, as the root does. Where `files_only` is
/// set, the entry must also be a regular file.
pub open spec fn is_wanted(e: EntryView, bin: Seq<char>, inner: Seq<char>, files_only: bool) -> bool {
    let names = components(e.path);
    let dir = components(inner);
    &&& files_only ==> e.is_file
    &&& names.len() > 0
    &&& names.last() == bin
    &&& dir.len() > 0 ==> names.drop_last() == dir
}

/// The place of the first entry, from place `from` on, that is the executable.
pub open spec fn first_wanted_from(
    entries: Seq<EntryView>,
    bin: Seq<char>,
    inner: Seq<char>,
    files_only: bool,
    from: int,
) -> Option<int>
    decreases entries.len() - from,
{
    if from < 0 || from >= entries.len() {
        None
    } else if is_wanted(entries[from], bin, inner, files_only) {
        Some(from)
    } else {
        first_wanted_from(entries, bin, inner, files_only, from + 1)
    }
}

/// The place of the first entry that is the executable.
pub open spec fn first_wanted(
    entries: Seq<EntryView>,
    bin: Seq<char>,
    inner: Seq<char>,
    files_only: bool,
) -> Option<int> {
    first_wanted_from(entries, bin, inner, files_only, 0)
}

/// What is found from a place on is the first wanted entry from there:
/// it is wanted, and no entry between the place and it is.
pub proof fn lemma_first_wanted_from(
    entries: Seq<EntryView>,
    bin: Seq<char>,
    inner: Seq<char>,
    files_only: bool,
    from: int,
)
    requires
        0 <= from,
    ensures
        match first_wanted_from(entries, bin, inner, files_only, from) {
            Some(i) => {
                &&& from <= i < entries.len()
                &&& is_wanted(entries[i], bin, inner, files_only)
                &&& forall|k: int| from <= k < i ==> !is_wanted(entries[k], bin, inner, files_only)
            },
            None => forall|k: int|
                from <= k < entries.len() ==> !is_wanted(entries[k], bin, inner, files_only),
        },
    decreases entries.len() - from,
{
    if from < entries.len() && !is_wanted(entries[from], bin, inner, files_only) {
        lemma_first_wanted_from(entries, bin, inner, files_only, from + 1);
    }
}

/// What is found is the first wanted entry of the archive: it is wanted,
/// and no entry before it is. Nothing is found exactly where no entry is
/// wanted.
pub proof fn lemma_first_wanted_is_first(
    entries: Seq<EntryView>,
    bin: Seq<char>,
    inner: Seq<char>,
    files_only: bool,
)
    ensures
        match first_wanted(entries, bin, inner, files_only) {
            Some(i) => {
                &&& 0 <= i < entries.len()
                &&& is_wanted(entries[i], bin, inner, files_only)
                &&& forall|k: int| 0 <= k < i ==> !is_wanted(entries[k], bin, inner, files_only)
            },
            None => forall|k: int|
                0 <= k < entries.len() ==> !is_wanted(entries[k], bin, inner, files_only),
        },
{
    lemma_first_wanted_from(entries, bin, inner, files_only, 0);
}

/// The names that a path is made of.
pub fn path_components(path: &str) -> (r: Vec<String>)
    ensures
        texts(r@) == components(path@),
{
    let pieces = split(path, '/');
    let mut out: Vec<String> = Vec::new();
    let mut i: usize = 0;
    assert(texts(pieces@).take(0) =~= Seq::<Seq<char>>::empty());
    assert(texts(out@) =~= Seq::<Seq<char>>::empty());
    while i < pieces.len()
        invariant
            i <= pieces.len(),
            texts(out@) == names_among(texts(pieces@).take(i as int)),
        decreases pieces.len() - i,
    {
        let piece = &pieces[i];
        assert(texts(pieces@).take(i + 1).drop_last() =~= texts(pieces@).take(i as int));
        assert(texts(pieces@).take(i + 1).last() == piece@);
        if !piece.as_str().is_empty() && !str_eq(piece.as_str(), ".") {
            let ghost before = out@;
            out.push(piece.clone());
            assert(texts(out@) =~= texts(before).push(piece@));
        }
        i += 1;
    }
    assert(texts(pieces@).take(pieces.len() as int) =~= texts(pieces@));
    out
}

fn same_texts(a: &Vec<String>, a_len: usize, b: &Vec<String>) -> (r: bool)
    requires
        a_len <= a.len(),
    ensures
        r == (texts(a@).take(a_len as int) == texts(b@)),
{
    if a_len != b.len() {
        assert(texts(a@).take(a_len as int).len() != texts(b@).len());
        return false;
    }
    let mut i: usize = 0;
    while i < a_len
        invariant
            i <= a_len,
            a_len <= a.len(),
            a_len == b.len(),
            forall|k: int| 0 <= k < i ==> a@[k]@ == b@[k]@,
        decreases a_len - i,
    {
        if !str_eq(a[i].as_str(), b[i].as_str()) {
            assert(texts(a@).take(a_len as int)[i as int] != texts(b@)[i as int]);
            return false;
        }
        i += 1;
    }
    assert(texts(a@).take(a_len as int) =~= texts(b@));
    true
}

/// Whether an entry is the executable.
pub fn entry_is_wanted(entry: &ArchiveEntry, bin: &str, dir: &Vec<String>, files_only: bool) -> (r:
    bool)
    ensures
        forall|inner: Seq<char>|
            components(inner) == texts(dir@) ==> r == is_wanted(entry@, bin@, inner, files_only),
{
    if files_only && !entry.is_file {
        return false;
    }
    let names = path_components(entry.path.as_str());
    if names.len() == 0 {
        return false;
    }
    let last = names.len() - 1;
    assert(texts(names@).last() == names@[last as int]@);
    if !str_eq(names[last].as_str(), bin) {
        return false;
    }
    assert(texts(names@).drop_last() =~= texts(names@).take(last as int));
    if dir.len() > 0 {
        same_texts(&names, last, dir)
    } else {
        true
    }
}

/// Finds the executable among the entries of an archive: the place of
/// the first entry that is wanted.
pub fn find_entry(entries: &Vec<ArchiveEntry>, bin: &str, inner: &str, files_only: bool) -> (r:
    Option<usize>)
    ensures
        match r {
            Some(i) => first_wanted(entry_views(entries@), bin@, inner@, files_only) == Some(
                i as int,
            ) && i < entries.len(),
            None => first_wanted(entry_views(entries@), bin@, inner@, files_only) is None,
        },
{
    let dir = path_components(inner);
    let mut i: usize = 0;
    let ghost all = entry_views(entries@);
    while i < entries.len()
        invariant
            i <= entries.len(),
            all == entry_views(entries@),
            texts(dir@) == components(inner@),
            first_wanted(all, bin@, inner@, files_only) == first_wanted_from(
                all,
                bin@,
                inner@,
                files_only,
                i as int,
            ),
        decreases entries.len() - i,
    {
        assert(all[i as int] == entries@[i as int]@);
        if entry_is_wanted(&entries[i], bin, &dir, files_only) {
            return Some(i);
        }
        i += 1;
    }
    None
}

/// What is taken out of an archive of the given format. The first wanted
/// entry of the walk is read, whatever comes after it in the archive; an
/// entry that cannot be read is an I/O failure. A zip archive only offers
/// its regular files. Where the walk meets no wanted entry, the archive
/// holds no executable if the walk came to its end, and else the failure
/// is one of I/O.
pub open spec fn taken_from(
    data: Seq<u8>,
    format: Extension,
    bin: Seq<char>,
    inner: Seq<char>,
) -> Result<(Seq<u8>, Option<u32>), ErrorKind> {
    let listing = listing_of(data, format);
    match first_wanted(listing.entries, bin, inner, format == Extension::Zip) {
        Some(i) => match contents_of(data, format, i) {
            Some(bytes) => Ok((bytes, listing.entries[i].mode)),
            None => Err(ErrorKind::IOError),
        },
        None => if listing.complete {
            Err(ErrorKind::BinaryNotFound)
        } else {
            Err(ErrorKind::IOError)
        },
    }
}

/// What extraction gives for an artifact: a bare executable is taken as
/// it is; of an archive, the first wanted entry. An artifact that is no
/// archive of a known format holds no executable.
pub open spec fn extraction(
    artifact: Seq<u8>,
    target: DownloadTargetView,
    bin: Seq<char>,
) -> Result<(Seq<u8>, Option<u32>), ErrorKind> {
    if target.executable {
        Ok((artifact, None))
    } else {
        match Extension::named(target.ext) {
            None => Err(ErrorKind::BinaryNotFound),
            Some(format) => taken_from(artifact, format, bin, target.path),
        }
    }
}

/// Takes the executable out of an archive of the given format: walks the
/// archive, finds the first wanted entry and reads it.
pub fn take_from(data: &[u8], format: Extension, bin: &str, inner: &str) -> (r: Result<
    Extracted,
    ErrorKind,
>)
    ensures
        match r {
            Ok(x) => taken_from(data@, format, bin@, inner@) == Ok::<
                (Seq<u8>, Option<u32>),
                ErrorKind,
            >((x.data@, x.mode)),
            Err(k) => taken_from(data@, format, bin@, inner@) == Err::<
                (Seq<u8>, Option<u32>),
                ErrorKind,
            >(k),
        },
{
    let files_only = match format {
        Extension::Zip => true,
        _ => false,
    };
    let listing = list_entries(data, format);
    match find_entry(&listing.entries, bin, inner, files_only) {
        Some(i) => {
            assert(entry_views(listing.entries@)[i as int] == listing.entries@[i as int]@);
            match read_entry(data, format, i) {
                Some(bytes) => Ok(Extracted { data: bytes, mode: listing.entries[i].mode }),
                None => Err(ErrorKind::IOError),
            }
        },
        None => if listing.complete {
            Err(ErrorKind::BinaryNotFound)
        } else {
            Err(ErrorKind::IOError)
        },
    }
}

/// Takes the executable named `bin` out of a downloaded artifact.
pub fn extract(artifact: &[u8], target: &DownloadTarget, bin: &str) -> (r: Result<
    Extracted,
    CaskError,
>)
    ensures
        match r {
            Ok(x) => extraction(artifact@, target@, bin@) == Ok::<
                (Seq<u8>, Option<u32>),
                ErrorKind,
            >((x.data@, x.mode)),
            Err(e) => {
                &&& extraction(artifact@, target@, bin@) == Err::<
                    (Seq<u8>, Option<u32>),
                    ErrorKind,
                >(e@.kind)
                &&& e@.subject == bin@
            },
        },
{
    if target.executable {
        return Ok(Extracted { data: slice_to_vec(artifact), mode: None });
    }
    let taken = match Extension::from_text(target.ext.as_str()) {
        None => Err(ErrorKind::BinaryNotFound),
        Some(format) => take_from(artifact, format, bin, target.path.as_str()),
    };
    match taken {
        Ok(x) => Ok(x),
        Err(k) => Err(CaskError::new(k, bin)),
    }
}

/// The permission bits of the installed executable on a POSIX host: those
/// that came with it, and at least `0755`.
pub open spec fn executable_mode_of(stored: Option<u32>) -> u32 {
    match stored {
        Some(m) => m | 0o755u32,
        None => 0o755u32,
    }
}

/// The permission bits of the installed executable on a POSIX host.
pub fn executable_mode(stored: Option<u32>) -> (r: u32)
    ensures
        r == executable_mode_of(stored),
{
    match stored {
        Some(m) => m | 0o755u32,
        None => 0o755u32,
    }
}

/// An archive whose walk comes to its end without a wanted entry holds
/// no executable.
pub proof fn lemma_nothing_wanted_is_not_found(
    data: Seq<u8>,
    format: Extension,
    bin: Seq<char>,
    inner: Seq<char>,
)
    requires
        listing_of(data, format).complete,
        forall|i: int|
            0 <= i < listing_of(data, format).entries.len() ==> !is_wanted(
                #[trigger] listing_of(data, format).entries[i],
                bin,
                inner,
                format == Extension::Zip,
            ),
    ensures
        taken_from(data, format, bin, inner) == Err::<(Seq<u8>, Option<u32>), ErrorKind>(
            ErrorKind::BinaryNotFound,
        ),
{
    lemma_first_wanted_is_first(
        listing_of(data, format).entries,
        bin,
        inner,
        format == Extension::Zip,
    );
}

} // verus!
