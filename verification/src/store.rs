//! The store: where formulas, artifacts and executables live on disk.
//!
//! A place is a list of names below the root of the store, `.cask` in the
//! user's home directory. Turning it into a path of the platform is left
//! to the caller.

use vstd::prelude::*;
use vstd::string::*;
use crate::digest::{package_hash, package_hash_of};
use crate::error::{CaskError, CaskErrorView, ErrorKind};
use crate::formula::{Cask, CaskView};
use crate::host::Os;
use crate::text::{chars_of, texts};

verus! {

/// The name of the store's root inside the home directory.
pub fn root_name() -> (r: &'static str)
    ensures
        r@ == ".cask"@,
{
    ".cask"
}

/// Where the store lies: in the directory `.cask` of the user's home
/// directory, given as the home directory and that name. Without a home
/// directory there is no store.
pub open spec fn root_of(home: Option<Seq<char>>) -> Result<Seq<Seq<char>>, CaskErrorView> {
    match home {
        Some(h) => Ok(seq![h, ".cask"@]),
        None => Err(CaskErrorView { kind: ErrorKind::NoHome, subject: ""@ }),
    }
}

/// Locates the store from the user's home directory, if that is known.
pub fn locate(home: Option<&str>) -> (r: Result<Vec<String>, CaskError>)
    ensures
        match r {
            Ok(root) => root_of(crate::formula::opt_str(home)) == Ok::<
                Seq<Seq<char>>,
                CaskErrorView,
            >(texts(root@)),
            Err(e) => root_of(crate::formula::opt_str(home)) == Err::<
                Seq<Seq<char>>,
                CaskErrorView,
            >(e@),
        },
{
    match home {
        Some(h) => {
            let mut out: Vec<String> = Vec::new();
            out.push(String::from_str(h));
            out.push(String::from_str(root_name()));
            assert(texts(out@) =~= seq![h@, ".cask"@]);
            Ok(out)
        },
        None => Err(CaskError::new(ErrorKind::NoHome, "")),
    }
}

/// The name of a manifest's file.
pub fn manifest_name() -> (r: &'static str)
    ensures
        r@ == "Cask.toml"@,
{
    "Cask.toml"
}

/// The file name of a package's executable: `.exe` is added on Windows.
pub open spec fn binary_name_of(bin: Seq<char>, os: Os) -> Seq<char> {
    if os == Os::Windows {
        bin + ".exe"@
    } else {
        bin
    }
}

/// The file name of a downloaded artifact: the version, then the extension.
pub open spec fn artifact_name_of(version: Seq<char>, ext: Seq<char>) -> Seq<char> {
    version + ext
}

/// The directory where executables are published.
pub open spec fn bin_dir_of() -> Seq<Seq<char>> {
    seq!["bin"@]
}

/// The directory that holds every package's directory.
pub open spec fn formula_dir_of() -> Seq<Seq<char>> {
    seq!["formula"@]
}

/// The directory of a package.
pub open spec fn package_dir_of(name: Seq<char>) -> Seq<Seq<char>> {
    seq!["formula"@, package_hash_of(name)]
}

/// A name below the directory of a package.
pub open spec fn in_package(name: Seq<char>, entry: Seq<char>) -> Seq<Seq<char>> {
    package_dir_of(name).push(entry)
}

/// The stored manifest of a package.
pub open spec fn manifest_path_of(name: Seq<char>) -> Seq<Seq<char>> {
    in_package(name, "Cask.toml"@)
}

/// The persistent clone of a package's formula repository.
pub open spec fn repository_dir_of(name: Seq<char>) -> Seq<Seq<char>> {
    in_package(name, "repository"@)
}

/// The extracted executable of a package.
pub open spec fn binary_path_of(name: Seq<char>, bin: Seq<char>, os: Os) -> Seq<Seq<char>> {
    in_package(name, "bin"@).push(binary_name_of(bin, os))
}

/// The retained artifact of a version of a package.
pub open spec fn artifact_path_of(name: Seq<char>, version: Seq<char>, ext: Seq<char>) -> Seq<
    Seq<char>,
> {
    in_package(name, "version"@).push(artifact_name_of(version, ext))
}

/// The published link to a package's executable.
pub open spec fn link_path_of(bin: Seq<char>, os: Os) -> Seq<Seq<char>> {
    bin_dir_of().push(binary_name_of(bin, os))
}

/// The directories that an install makes sure of, parents first: the
/// root, `bin`, `formula`, the package's directory, and in it `bin` and
/// `version`.
pub open spec fn install_dirs_of(name: Seq<char>) -> Seq<Seq<Seq<char>>> {
    seq![
        Seq::empty(),
        bin_dir_of(),
        formula_dir_of(),
        package_dir_of(name),
        in_package(name, "bin"@),
        in_package(name, "version"@),
    ]
}

/// The views of a list of places.
pub open spec fn places(v: Seq<Vec<String>>) -> Seq<Seq<Seq<char>>> {
    v.map_values(|p: Vec<String>| texts(p@))
}

/// The file name of a package's executable on a host.
pub fn binary_name(bin: &str, os: Os) -> (r: String)
    ensures
        r@ == binary_name_of(bin@, os),
{
    let mut out = String::from_str(bin);
    if os == Os::Windows {
        out.append(".exe");
    }
    out
}

/// The file name of a downloaded artifact.
pub fn artifact_name(version: &str, ext: &str) -> (r: String)
    ensures
        r@ == artifact_name_of(version@, ext@),
{
    let mut out = String::from_str(version);
    out.append(ext);
    out
}

/// The directory where executables are published.
pub fn bin_dir() -> (r: Vec<String>)
    ensures
        texts(r@) == bin_dir_of(),
{
    let mut out: Vec<String> = Vec::new();
    out.push(String::from_str("bin"));
    assert(texts(out@) =~= bin_dir_of());
    out
}

/// The directory that holds every package's directory.
pub fn formula_dir() -> (r: Vec<String>)
    ensures
        texts(r@) == formula_dir_of(),
{
    let mut out: Vec<String> = Vec::new();
    out.push(String::from_str("formula"));
    assert(texts(out@) =~= formula_dir_of());
    out
}

/// The directory of a package.
pub fn package_dir(name: &str) -> (r: Vec<String>)
    ensures
        texts(r@) == package_dir_of(name@),
{
    let mut out: Vec<String> = Vec::new();
    out.push(String::from_str("formula"));
    out.push(package_hash(name));
    assert(texts(out@) =~= package_dir_of(name@));
    out
}

fn below_package(name: &str, entry: &str) -> (r: Vec<String>)
    ensures
        texts(r@) == in_package(name@, entry@),
{
    let mut out = package_dir(name);
    let ghost before = out@;
    out.push(String::from_str(entry));
    assert(texts(out@) =~= texts(before).push(entry@));
    out
}

/// The stored manifest of a package.
pub fn manifest_path(name: &str) -> (r: Vec<String>)
    ensures
        texts(r@) == manifest_path_of(name@),
{
    below_package(name, "Cask.toml")
}

/// The persistent clone of a package's formula repository.
pub fn repository_dir(name: &str) -> (r: Vec<String>)
    ensures
        texts(r@) == repository_dir_of(name@),
{
    below_package(name, "repository")
}

/// The extracted executable of a package.
pub fn binary_path(name: &str, bin: &str, os: Os) -> (r: Vec<String>)
    ensures
        texts(r@) == binary_path_of(name@, bin@, os),
{
    let mut out = below_package(name, "bin");
    let ghost before = out@;
    out.push(binary_name(bin, os));
    assert(texts(out@) =~= texts(before).push(binary_name_of(bin@, os)));
    out
}

/// The retained artifact of a version of a package.
pub fn artifact_path(name: &str, version: &str, ext: &str) -> (r: Vec<String>)
    ensures
        texts(r@) == artifact_path_of(name@, version@, ext@),
{
    let mut out = below_package(name, "version");
    let ghost before = out@;
    out.push(artifact_name(version, ext));
    assert(texts(out@) =~= texts(before).push(artifact_name_of(version@, ext@)));
    out
}

/// The published link to a package's executable.
pub fn link_path(bin: &str, os: Os) -> (r: Vec<String>)
    ensures
        texts(r@) == link_path_of(bin@, os),
{
    let mut out = bin_dir();
    let ghost before = out@;
    out.push(binary_name(bin, os));
    assert(texts(out@) =~= texts(before).push(binary_name_of(bin@, os)));
    out
}

/// The directories that an install makes sure of, parents first.
pub fn install_dirs(name: &str) -> (r: Vec<Vec<String>>)
    ensures
        places(r@) == install_dirs_of(name@),
{
    let mut out: Vec<Vec<String>> = Vec::new();
    let root: Vec<String> = Vec::new();
    assert(texts(root@) =~= Seq::<Seq<char>>::empty());
    out.push(root);
    out.push(bin_dir());
    out.push(formula_dir());
    out.push(package_dir(name));
    out.push(below_package(name, "bin"));
    out.push(below_package(name, "version"));
    assert(places(out@) =~= install_dirs_of(name@));
    out
}

/// The start of the generated block, up to the quote that opens the name.
pub open spec fn header_lead() -> Seq<char> {
    "# The file is generated by Cask. DO NOT MODIFY IT.\n[cask]\npackage_name = \""@
}

/// What stands between the name and the time of the install.
pub open spec fn header_before_time() -> Seq<char> {
    "\"\ncreated_at = \""@
}

/// What stands between the time of the install and the version.
pub open spec fn header_before_version() -> Seq<char> {
    "\"\nversion = \""@
}

/// What stands between the version and the repository.
pub open spec fn header_before_repository() -> Seq<char> {
    "\"\nrepository = \""@
}

/// The end of the generated block: the closing quote and an empty line.
pub open spec fn header_close() -> Seq<char> {
    "\"\n\n"@
}

/// The block that an install writes above the manifest: a comment, the
/// `[cask]` table with the record of the install, and an empty line.
pub open spec fn cask_header(record: CaskView) -> Seq<char> {
    header_lead() + record.name + header_before_time() + record.created_at
        + header_before_version() + record.version + header_before_repository()
        + record.repository + header_close()
}

/// The stored manifest: the generated block, then the manifest as it was read.
pub open spec fn stored_manifest(record: CaskView, file_content: Seq<char>) -> Seq<char> {
    cask_header(record) + file_content
}

/// Writes the block that an install puts above the manifest.
pub fn render_header(record: &Cask) -> (r: String)
    ensures
        r@ == cask_header(record@),
{
    let mut out = String::from_str(
        "# The file is generated by Cask. DO NOT MODIFY IT.\n[cask]\npackage_name = \"",
    );
    out.append(record.name.as_str());
    out.append("\"\ncreated_at = \"");
    out.append(record.created_at.as_str());
    out.append("\"\nversion = \"");
    out.append(record.version.as_str());
    out.append("\"\nrepository = \"");
    out.append(record.repository.as_str());
    out.append("\"\n\n");
    out
}

/// Writes the stored manifest of an install.
pub fn render_stored_manifest(record: &Cask, file_content: &str) -> (r: String)
    ensures
        r@ == stored_manifest(record@, file_content@),
{
    let mut out = render_header(record);
    out.append(file_content);
    out
}

/// The manifest as it was read stands in the stored manifest unchanged,
/// right behind the generated block.
pub proof fn lemma_stored_manifest_keeps_body(record: CaskView, file_content: Seq<char>)
    ensures
        cask_header(record).is_prefix_of(stored_manifest(record, file_content)),
        stored_manifest(record, file_content).skip(cask_header(record).len() as int)
            == file_content,
{
    let header = cask_header(record);
    let stored = stored_manifest(record, file_content);
    assert(stored.subrange(0, header.len() as int) =~= header);
    assert(stored.skip(header.len() as int) =~= file_content);
}

/// Whether `literal` stands in `s` at place `at`.
pub open spec fn has_literal(s: Seq<char>, at: int, literal: Seq<char>) -> bool {
    &&& 0 <= at
    &&& at + literal.len() <= s.len()
    &&& s.subrange(at, at + literal.len()) == literal
}

/// The place of the first double quote of `s` at or behind `from`, and
/// the length of `s` where there is none.
pub open spec fn quote_at(s: Seq<char>, from: int) -> int
    decreases s.len() - from,
{
    if from < 0 || from >= s.len() {
        s.len() as int
    } else if s[from] == '"' {
        from
    } else {
        quote_at(s, from + 1)
    }
}

/// What a stored manifest is made of: the record in its generated block
/// and the manifest behind it. Each field of the record runs up to the
/// next double quote. `None` where the text does not start with a
/// generated block.
pub open spec fn stored_parts(s: Seq<char>) -> Option<(CaskView, Seq<char>)> {
    let name_from = header_lead().len() as int;
    let name_to = quote_at(s, name_from);
    let time_from = name_to + header_before_time().len();
    let time_to = quote_at(s, time_from);
    let version_from = time_to + header_before_version().len();
    let version_to = quote_at(s, version_from);
    let repository_from = version_to + header_before_repository().len();
    let repository_to = quote_at(s, repository_from);
    let body_from = repository_to + header_close().len();
    if has_literal(s, 0, header_lead()) && has_literal(s, name_to, header_before_time())
        && has_literal(s, time_to, header_before_version()) && has_literal(
        s,
        version_to,
        header_before_repository(),
    ) && has_literal(s, repository_to, header_close()) {
        Some(
            (
                CaskView {
                    name: s.subrange(name_from, name_to),
                    created_at: s.subrange(time_from, time_to),
                    version: s.subrange(version_from, version_to),
                    repository: s.subrange(repository_from, repository_to),
                },
                s.skip(body_from),
            ),
        )
    } else {
        None
    }
}

/// Whether a text can stand between the quotes of the generated block:
/// it holds no double quote.
pub open spec fn quote_free(t: Seq<char>) -> bool {
    forall|i: int| 0 <= i < t.len() ==> t[i] != '"'
}

/// Whether a record can be read back from its generated block: none of
/// its fields holds a double quote.
pub open spec fn record_is_plain(record: CaskView) -> bool {
    &&& quote_free(record.name)
    &&& quote_free(record.created_at)
    &&& quote_free(record.version)
    &&& quote_free(record.repository)
}

/// The first quote behind a run without quotes is the quote that ends the run.
pub proof fn lemma_quote_at(s: Seq<char>, from: int, to: int)
    requires
        0 <= from <= to < s.len(),
        s[to] == '"',
        forall|k: int| from <= k < to ==> s[k] != '"',
    ensures
        quote_at(s, from) == to,
    decreases to - from,
{
    if from < to {
        lemma_quote_at(s, from + 1, to);
    }
}

/// One field of a generated block reads back: behind `before` stand the
/// field and then `literal`, which starts with a double quote.
proof fn lemma_field_reads_back(
    s: Seq<char>,
    before: Seq<char>,
    field: Seq<char>,
    literal: Seq<char>,
    rest: Seq<char>,
)
    requires
        s == before + field + literal + rest,
        quote_free(field),
        literal.len() > 0,
        literal[0] == '"',
    ensures
        quote_at(s, before.len() as int) == before.len() + field.len(),
        has_literal(s, (before.len() + field.len()) as int, literal),
        s.subrange(before.len() as int, (before.len() + field.len()) as int) == field,
{
    let from = before.len() as int;
    let to = from + field.len();
    assert(s[to] == literal[0]);
    assert forall|k: int| from <= k < to implies s[k] != '"' by {
        assert(s[k] == field[k - from]);
    }
    lemma_quote_at(s, from, to);
    assert(s.subrange(to, to + literal.len()) =~= literal);
    assert(s.subrange(from, to) =~= field);
}

/// A stored manifest reads back as what it was made of: the record of the
/// install and the manifest, character for character. This holds of every
/// record whose fields hold no double quote.
pub proof fn lemma_stored_manifest_reads_back(record: CaskView, file_content: Seq<char>)
    requires
        record_is_plain(record),
    ensures
        stored_parts(stored_manifest(record, file_content)) == Some((record, file_content)),
{
    reveal_strlit("\"\ncreated_at = \"");
    reveal_strlit("\"\nversion = \"");
    reveal_strlit("\"\nrepository = \"");
    reveal_strlit("\"\n\n");
    let s = stored_manifest(record, file_content);
    let l0 = header_lead();
    let l1 = header_before_time();
    let l2 = header_before_version();
    let l3 = header_before_repository();
    let l4 = header_close();
    let b1 = l0;
    let b2 = l0 + record.name + l1;
    let b3 = b2 + record.created_at + l2;
    let b4 = b3 + record.version + l3;
    let r1 = record.created_at + l2 + record.version + l3 + record.repository + l4 + file_content;
    let r2 = record.version + l3 + record.repository + l4 + file_content;
    let r3 = record.repository + l4 + file_content;
    assert(s =~= b1 + record.name + l1 + r1);
    assert(s =~= b2 + record.created_at + l2 + r2);
    assert(s =~= b3 + record.version + l3 + r3);
    assert(s =~= b4 + record.repository + l4 + file_content);
    lemma_field_reads_back(s, b1, record.name, l1, r1);
    lemma_field_reads_back(s, b2, record.created_at, l2, r2);
    lemma_field_reads_back(s, b3, record.version, l3, r3);
    lemma_field_reads_back(s, b4, record.repository, l4, file_content);
    assert(s.subrange(0, l0.len() as int) =~= l0);
    assert(s.skip((b4.len() + record.repository.len() + l4.len()) as int) =~= file_content);
}

fn literal_at(chars: &Vec<char>, at: usize, literal: &str) -> (r: bool)
    ensures
        r == has_literal(chars@, at as int, literal@),
{
    let want = chars_of(literal);
    if at > chars.len() || want.len() > chars.len() - at {
        return false;
    }
    let mut i: usize = 0;
    while i < want.len()
        invariant
            i <= want.len(),
            want@ == literal@,
            at + want.len() <= chars.len(),
            forall|k: int| 0 <= k < i ==> chars@[at + k] == want@[k],
        decreases want.len() - i,
    {
        if chars[at + i] != want[i] {
            assert(chars@.subrange(at as int, at + literal@.len())[i as int] != literal@[i as int]);
            return false;
        }
        i += 1;
    }
    assert(chars@.subrange(at as int, at + literal@.len()) =~= literal@);
    true
}

fn find_quote(chars: &Vec<char>, from: usize) -> (r: usize)
    ensures
        r == quote_at(chars@, from as int),
        from <= chars.len() ==> from <= r <= chars.len(),
{
    let mut i: usize = from;
    while i < chars.len() && chars[i] != '"'
        invariant
            from <= i,
            quote_at(chars@, from as int) == quote_at(chars@, i as int),
        decreases chars.len() - i,
    {
        i += 1;
    }
    if i >= chars.len() {
        chars.len()
    } else {
        i
    }
}

/// Takes a stored manifest apart into the record of its generated block
/// and the manifest behind it.
pub fn read_stored_manifest(text: &str) -> (r: Option<(Cask, String)>)
    ensures
        match r {
            Some(parts) => stored_parts(text@) == Some((parts.0@, parts.1@)),
            None => stored_parts(text@) is None,
        },
{
    let lead = "# The file is generated by Cask. DO NOT MODIFY IT.\n[cask]\npackage_name = \"";
    let before_time = "\"\ncreated_at = \"";
    let before_version = "\"\nversion = \"";
    let before_repository = "\"\nrepository = \"";
    let close = "\"\n\n";
    let chars = chars_of(text);
    if !literal_at(&chars, 0, lead) {
        return None;
    }
    let name_from = lead.unicode_len();
    let name_to = find_quote(&chars, name_from);
    if !literal_at(&chars, name_to, before_time) {
        return None;
    }
    let time_from = name_to + before_time.unicode_len();
    let time_to = find_quote(&chars, time_from);
    if !literal_at(&chars, time_to, before_version) {
        return None;
    }
    let version_from = time_to + before_version.unicode_len();
    let version_to = find_quote(&chars, version_from);
    if !literal_at(&chars, version_to, before_repository) {
        return None;
    }
    let repository_from = version_to + before_repository.unicode_len();
    let repository_to = find_quote(&chars, repository_from);
    if !literal_at(&chars, repository_to, close) {
        return None;
    }
    let body_from = repository_to + close.unicode_len();
    let record = Cask {
        name: String::from_str(text.substring_char(name_from, name_to)),
        created_at: String::from_str(text.substring_char(time_from, time_to)),
        version: String::from_str(text.substring_char(version_from, version_to)),
        repository: String::from_str(text.substring_char(repository_from, repository_to)),
    };
    let body = String::from_str(text.substring_char(body_from, chars.len()));
    assert(body@ =~= text@.skip(body_from as int));
    Some((record, body))
}

} // verus!
