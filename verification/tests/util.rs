use cask::address::Address;
use cask::error::ErrorKind;
use cask::extension::Extension;
use cask::template::{render, Binding};
use cask::text::{concat2, concat3, ends_with, eq_ignore_case, str_eq};
use cask::util::{download, iso8601, DownloadAction, DownloadEvent, DownloadState};

#[test]
fn iso8601_writes_utc() {
    assert_eq!(iso8601(0, 0).as_deref(), Some("1970-01-01T00:00:00+00:00"));
    assert_eq!(iso8601(1431648000, 0).as_deref(), Some("2015-05-15T00:00:00+00:00"));
    assert_eq!(
        iso8601(994552500, 26490000).as_deref(),
        Some("2001-07-08T00:35:00.026490+00:00")
    );
    assert_eq!(iso8601(-1, 0).as_deref(), Some("1969-12-31T23:59:59+00:00"));
    assert_eq!(iso8601(i64::MAX, 0), None);
    assert_eq!(iso8601(0, 2_000_000_000), None);
}

#[test]
fn download_needs_status_200_and_a_length() {
    let head = |status, content_length| DownloadEvent::Response { status, content_length };
    assert_eq!(
        download(DownloadState::Requesting, head(200, Some(10))),
        (DownloadState::Streaming { total: 10, received: 0 }, DownloadAction::Begin { total: 10 })
    );
    assert_eq!(
        download(DownloadState::Requesting, head(200, None)),
        (DownloadState::Done, DownloadAction::Fail(ErrorKind::NoContentLength))
    );
    for status in [404, 500, 301, 204] {
        assert_eq!(
            download(DownloadState::Requesting, head(status, Some(10))),
            (DownloadState::Done, DownloadAction::Fail(ErrorKind::DownloadFailed))
        );
    }
    assert_eq!(
        download(DownloadState::Requesting, head(404, None)),
        (DownloadState::Done, DownloadAction::Fail(ErrorKind::DownloadFailed))
    );
}

#[test]
fn download_progress_is_capped_at_the_total() {
    let mut state = DownloadState::Streaming { total: 10, received: 0 };
    let mut seen = Vec::new();
    for len in [4, 4, 4, 0, u64::MAX] {
        let (next, action) = download(state, DownloadEvent::Chunk { len });
        match action {
            DownloadAction::Progress { position } => seen.push(position),
            other => panic!("unexpected {:?}", other),
        }
        state = next;
    }
    assert_eq!(seen, vec![4, 8, 10, 10, 10]);
    assert_eq!(state, DownloadState::Streaming { total: 10, received: 10 });
    assert_eq!(
        download(state, DownloadEvent::End),
        (DownloadState::Done, DownloadAction::Finish)
    );
    let big = DownloadState::Streaming { total: u64::MAX, received: u64::MAX - 1 };
    assert_eq!(
        download(big, DownloadEvent::Chunk { len: 5 }).1,
        DownloadAction::Progress { position: u64::MAX }
    );
}

#[test]
fn download_failures_end_it() {
    let streaming = DownloadState::Streaming { total: 10, received: 3 };
    let failed = (DownloadState::Done, DownloadAction::Fail(ErrorKind::DownloadFailed));
    assert_eq!(download(streaming, DownloadEvent::ReadFailed), failed);
    assert_eq!(download(streaming, DownloadEvent::WriteFailed), failed);
    assert_eq!(
        download(streaming, DownloadEvent::Response { status: 200, content_length: Some(1) }),
        failed
    );
    assert_eq!(download(DownloadState::Requesting, DownloadEvent::End), failed);
    assert_eq!(download(DownloadState::Requesting, DownloadEvent::Chunk { len: 1 }), failed);
    assert_eq!(download(DownloadState::Done, DownloadEvent::End), failed);
}

#[test]
fn addresses_are_read_by_the_url_parser() {
    let a = Address::parse("HTTPS://Example.com/a/b/tool.tar.gz?x=1#top").unwrap();
    assert_eq!(a.scheme, "https");
    assert_eq!(a.href, "https://example.com/a/b/tool.tar.gz?x=1#top");
    assert_eq!(a.path, "/a/b/tool.tar.gz");
    assert_eq!(a.file_name().as_deref(), Some("tool.tar.gz"));
    let root = Address::parse("https://example.com").unwrap();
    assert_eq!(root.path, "/");
    assert_eq!(root.file_name().as_deref(), Some(""));
    let data = Address::parse("data:text/plain,Stuff").unwrap();
    assert_eq!(data.scheme, "data");
    assert_eq!(data.file_name(), None);
    assert!(Address::parse("github.com/axetroy/gpm.rs").is_none());
    assert!(Address::parse("").is_none());
}

#[test]
fn extensions_are_inferred_in_order() {
    assert_eq!(Extension::infer("gpm_darwin_amd64.tar.gz"), Extension::TarGz);
    assert_eq!(Extension::infer("gpm.tgz"), Extension::Tgz);
    assert_eq!(Extension::infer("gpm.tar"), Extension::Tar);
    assert_eq!(Extension::infer("gpm.zip"), Extension::Zip);
    assert_eq!(Extension::infer("gpm"), Extension::TarGz);
    assert_eq!(Extension::infer(""), Extension::TarGz);
    assert_eq!(Extension::infer(".zip"), Extension::Zip);
    assert_eq!(Extension::infer("gpm.ZIP"), Extension::TarGz);
    assert_eq!(Extension::infer("gpm.zip.tar"), Extension::Tar);
    for e in [Extension::TarGz, Extension::Tgz, Extension::Tar, Extension::Zip] {
        assert_eq!(Extension::from_text(e.as_str()), Some(e));
    }
    assert_eq!(Extension::TarGz.as_str(), ".tar.gz");
    assert_eq!(Extension::from_text("zip"), None);
    assert_eq!(Extension::from_text(""), None);
}

#[test]
fn strings_are_compared_and_joined() {
    assert!(str_eq("gpm", "gpm"));
    assert!(!str_eq("gpm", "gpn"));
    assert!(!str_eq("gpm", "gp"));
    assert!(str_eq("", ""));
    assert!(str_eq("π/ü", "π/ü"));
    assert!(ends_with("a.tar.gz", ".gz"));
    assert!(ends_with("a", ""));
    assert!(!ends_with("gz", ".gz"));
    assert!(eq_ignore_case("AbC1", "aBc1"));
    assert!(!eq_ignore_case("abc", "abd"));
    assert!(!eq_ignore_case("abc", "abcd"));
    assert!(!eq_ignore_case("[", "{"));
    assert_eq!(concat2("ab", "cd"), "abcd");
    assert_eq!(concat3("a", "", "c"), "ac");
}

#[test]
fn later_fields_of_a_record_replace_earlier_ones() {
    let record = Binding::Record(vec![
        ("version".to_string(), Binding::Text("1".to_string())),
        ("bin".to_string(), Binding::Text("tool".to_string())),
        ("version".to_string(), Binding::Text("2".to_string())),
        ("none".to_string(), Binding::Absent),
        ("inner".to_string(), Binding::Record(vec![
            ("a".to_string(), Binding::Text("x".to_string())),
            ("a".to_string(), Binding::Text("y".to_string())),
        ])),
    ]);
    assert_eq!(
        render("{bin}-{version}{none}", "/{inner.a}", &record),
        Some(("tool-2".to_string(), "/y".to_string()))
    );
    assert_eq!(render("{bin}", "{missing}", &record), None);
    assert_eq!(render("{missing}", "{bin}", &record), None);
    assert_eq!(render("{{ call path_template with @root }}", "/", &record), None);
    let list = Binding::Record(vec![(
        "versions".to_string(),
        Binding::List(vec!["1".to_string(), "2".to_string()]),
    )]);
    assert_eq!(render("{versions.1}", "{versions.0}", &list), Some(("2".to_string(), "1".to_string())));
    assert_eq!(render("{versions}", "/", &list), None);
}
