use cask::error::ErrorKind;
use cask::formula;
use cask::resolver::{
    clone_options, clone_place, fetch, find_package_in_build_in, get_formula_git_url,
    publishing_msg, ClonePlace, FetchAction, FetchEvent, FetchRequest, FetchState, ManifestFile,
};

const HASH: &str = "f8aa04fa7332a88e0c1433ace2683b9f1e445727815428d9ffd18541db45b9fc";

fn request(package_name: &str, temp: bool) -> FetchRequest {
    FetchRequest {
        package_name: package_name.to_string(),
        temp,
        is_verbose: false,
        unix_time: 1650000000,
    }
}

fn manifest_of(name: &str) -> ManifestFile {
    ManifestFile {
        path: "clone/Cask.toml".to_string(),
        text: format!(
            "[package]\nname = \"{}\"\nbin = \"prune\"\nrepository = \"https://{}\"\ndescription = \"d\"\n",
            name, name
        ),
    }
}

fn names(parts: &[&str]) -> Vec<String> {
    parts.iter().map(|s| s.to_string()).collect()
}

fn place_of(action: &FetchAction) -> ClonePlace {
    match action {
        FetchAction::Clone { place, .. } | FetchAction::ReadManifest { place } => {
            ClonePlace { temporary: place.temporary, parts: place.parts.clone() }
        }
        other => panic!("no place in {:?}", other),
    }
}

#[test]
fn test_fetch_from_git_url() {
    let req = request("https://github.com/axetroy/prune.v", true);

    let (state, action) = formula::fetch(&req, FetchState::Start, FetchEvent::Begin);
    match &action {
        FetchAction::Probe { url } => assert_eq!(url, "https://github.com/axetroy/prune.v"),
        other => panic!("unexpected {:?}", other),
    }

    let (state, action) = formula::fetch(&req, state, FetchEvent::RepositoryExists(true));
    let place = place_of(&action);
    match &action {
        FetchAction::Clone { url, place, options } => {
            assert_eq!(url, "https://github.com/axetroy/prune.v");
            assert!(place.temporary);
            assert_eq!(place.parts, names(&["cask_formula_1650000000"]));
            assert_eq!(options.depth, Some(1));
            assert_eq!(options.filter.as_deref(), Some("tree:0"));
        }
        other => panic!("unexpected {:?}", other),
    }

    let (state, action) = formula::fetch(&req, state, FetchEvent::Cloned);
    assert_eq!(place_of(&action).parts, place.parts);
    assert!(matches!(action, FetchAction::ReadManifest { .. }));

    let found = FetchEvent::Manifest(Some(manifest_of("github.com/axetroy/prune.v")));
    let (state, action) = formula::fetch(&req, state, found);
    assert!(matches!(state, FetchState::Done));
    match action {
        FetchAction::Finish { outcome, hint, remove } => {
            let formula = outcome.unwrap();
            assert_eq!(formula.package.name, "github.com/axetroy/prune.v");
            assert_eq!(formula.repository, "https://github.com/axetroy/prune.v");
            assert_eq!(formula.filepath, "clone/Cask.toml");
            assert!(hint.is_none());
            let removed = remove.unwrap();
            assert!(removed.temporary);
            assert_eq!(removed.parts, place.parts);
        }
        other => panic!("unexpected {:?}", other),
    }
}

#[test]
fn persistent_clone_stays_in_the_store() {
    let req = request("github.com/axetroy/gpm.rs", false);
    let (state, action) = fetch(&req, FetchState::Start, FetchEvent::Begin);
    match &action {
        FetchAction::ReadBuiltin { path } => {
            assert_eq!(path, &names(&["github.com", "axetroy", "gpm.rs", "Cask.toml"]))
        }
        other => panic!("unexpected {:?}", other),
    }
    let (state, action) = fetch(&req, state, FetchEvent::Builtin(None));
    match &action {
        FetchAction::Probe { url } => assert_eq!(url, "https://github.com/axetroy/gpm.rs.git"),
        other => panic!("unexpected {:?}", other),
    }
    let (state, action) = fetch(&req, state, FetchEvent::RepositoryExists(true));
    match &action {
        FetchAction::Clone { url, place, options } => {
            assert_eq!(url, "https://github.com/axetroy/gpm.rs.git");
            assert!(!place.temporary);
            assert_eq!(place.parts, names(&["formula", HASH, "repository"]));
            assert_eq!(options.quiet, Some(true));
        }
        other => panic!("unexpected {:?}", other),
    }
    let (state, _) = fetch(&req, state, FetchEvent::Cloned);
    let found = FetchEvent::Manifest(Some(manifest_of("github.com/axetroy/gpm.rs")));
    let (state, action) = fetch(&req, state, found);
    assert!(matches!(state, FetchState::Done));
    match action {
        FetchAction::Finish { outcome, hint, remove } => {
            let formula = outcome.unwrap();
            assert_eq!(formula.package.name, "github.com/axetroy/gpm.rs");
            assert_eq!(formula.repository, "https://github.com/axetroy/gpm.rs.git");
            assert!(hint.is_none());
            assert!(remove.is_none());
        }
        other => panic!("unexpected {:?}", other),
    }
}

#[test]
fn built_in_manifest_is_loaded_without_origin() {
    let req = request("github.com/axetroy/gpm.rs", true);
    let (state, _) = fetch(&req, FetchState::Start, FetchEvent::Begin);
    assert!(matches!(state, FetchState::SearchingBuiltin));
    let mut file = manifest_of("github.com/axetroy/gpm.rs");
    file.path = "builtin/github.com/axetroy/gpm.rs/Cask.toml".to_string();
    let (state, action) = fetch(&req, state, FetchEvent::Builtin(Some(file)));
    assert!(matches!(state, FetchState::Done));
    match action {
        FetchAction::Finish { outcome, hint, remove } => {
            let formula = outcome.unwrap();
            assert_eq!(formula.repository, "");
            assert_eq!(formula.filepath, "builtin/github.com/axetroy/gpm.rs/Cask.toml");
            assert!(hint.is_none());
            assert!(remove.is_none());
        }
        other => panic!("unexpected {:?}", other),
    }
}

#[test]
fn other_schemes_are_unsupported() {
    for (name, scheme) in [
        ("ftp://example.com/repo", "ftp"),
        ("ssh://git@example.com/repo.git", "ssh"),
        ("FILE:///tmp/repo", "file"),
        ("mailto:someone@example.com", "mailto"),
    ] {
        let req = request(name, true);
        let (state, action) = fetch(&req, FetchState::Start, FetchEvent::Begin);
        assert!(matches!(state, FetchState::Done));
        match action {
            FetchAction::Finish { outcome, hint, remove } => {
                let err = outcome.unwrap_err();
                assert_eq!(err.kind, ErrorKind::UnsupportedScheme);
                assert_eq!(err.subject, scheme);
                assert!(hint.is_none());
                assert!(remove.is_none());
            }
            other => panic!("unexpected {:?}", other),
        }
    }
    let req = request("HTTP://Example.com/repo", true);
    let (_, action) = fetch(&req, FetchState::Start, FetchEvent::Begin);
    match action {
        FetchAction::Probe { url } => assert_eq!(url, "http://example.com/repo"),
        other => panic!("unexpected {:?}", other),
    }
}

#[test]
fn missing_repository_is_not_found() {
    for name in ["https://example.com/none", "example.com/none"] {
        let req = request(name, true);
        let (mut state, mut action) = fetch(&req, FetchState::Start, FetchEvent::Begin);
        if matches!(action, FetchAction::ReadBuiltin { .. }) {
            (state, action) = fetch(&req, state, FetchEvent::Builtin(None));
        }
        assert!(matches!(action, FetchAction::Probe { .. }));
        let (state, action) = fetch(&req, state, FetchEvent::RepositoryExists(false));
        assert!(matches!(state, FetchState::Done));
        match action {
            FetchAction::Finish { outcome, remove, .. } => {
                let err = outcome.unwrap_err();
                assert_eq!(err.kind, ErrorKind::NotFound);
                assert_eq!(err.subject, name);
                assert!(remove.is_none());
            }
            other => panic!("unexpected {:?}", other),
        }
    }
}

fn reading(req: &FetchRequest) -> FetchState {
    let (state, _) = fetch(req, FetchState::Start, FetchEvent::Begin);
    let (state, _) = fetch(req, state, FetchEvent::RepositoryExists(true));
    let (state, _) = fetch(req, state, FetchEvent::Cloned);
    assert!(matches!(state, FetchState::Reading { .. }));
    state
}

#[test]
fn clone_without_manifest_is_no_formula() {
    for temp in [true, false] {
        let req = request("https://github.com/axetroy/prune.v", temp);
        let (state, action) = fetch(&req, reading(&req), FetchEvent::Manifest(None));
        assert!(matches!(state, FetchState::Done));
        match action {
            FetchAction::Finish { outcome, hint, remove } => {
                let err = outcome.unwrap_err();
                assert_eq!(err.kind, ErrorKind::NotAFormula);
                assert_eq!(err.subject, "https://github.com/axetroy/prune.v");
                assert_eq!(
                    err.message(),
                    "https://github.com/axetroy/prune.v is not a valid formula!"
                );
                assert_eq!(hint, Some(publishing_msg()));
                assert_eq!(remove.is_some(), temp);
            }
            other => panic!("unexpected {:?}", other),
        }
    }
}

#[test]
fn broken_manifest_still_removes_a_temporary_clone() {
    let req = request("https://github.com/axetroy/prune.v", true);
    let broken = ManifestFile { path: "clone/Cask.toml".to_string(), text: "[package".to_string() };
    let (_, action) = fetch(&req, reading(&req), FetchEvent::Manifest(Some(broken)));
    match action {
        FetchAction::Finish { outcome, hint, remove } => {
            let err = outcome.unwrap_err();
            assert_eq!(err.kind, ErrorKind::ParseError);
            assert_eq!(err.subject, "clone/Cask.toml");
            assert!(hint.is_none());
            assert_eq!(remove.unwrap().parts, names(&["cask_formula_1650000000"]));
        }
        other => panic!("unexpected {:?}", other),
    }
}

#[test]
fn failed_actions_end_the_resolution() {
    let req = request("https://github.com/axetroy/prune.v", true);
    let (state, _) = fetch(&req, FetchState::Start, FetchEvent::Begin);
    let (state, _) = fetch(&req, state, FetchEvent::RepositoryExists(true));
    let (state, action) = fetch(&req, state, FetchEvent::Failed("clone failed".to_string()));
    assert!(matches!(state, FetchState::Done));
    match action {
        FetchAction::Finish { outcome, remove, .. } => {
            let err = outcome.unwrap_err();
            assert_eq!(err.kind, ErrorKind::IOError);
            assert_eq!(err.subject, "clone failed");
            assert!(remove.is_some());
        }
        other => panic!("unexpected {:?}", other),
    }
    let (state, action) = fetch(&req, FetchState::Start, FetchEvent::Cloned);
    assert!(matches!(state, FetchState::Done));
    match action {
        FetchAction::Finish { outcome, remove, .. } => {
            assert_eq!(outcome.unwrap_err().kind, ErrorKind::IOError);
            assert!(remove.is_none());
        }
        other => panic!("unexpected {:?}", other),
    }
    let (state, action) = fetch(&req, FetchState::Done, FetchEvent::Begin);
    assert!(matches!(state, FetchState::Done));
    assert!(matches!(action, FetchAction::Finish { outcome: Err(_), .. }));
}

#[test]
fn formula_git_url_is_derived_from_the_name() {
    assert_eq!(
        get_formula_git_url("github.com/axetroy/gpm.rs"),
        "https://github.com/axetroy/gpm.rs.git"
    );
    assert_eq!(get_formula_git_url(""), "https://.git");
}

#[test]
fn built_in_path_follows_the_name() {
    assert_eq!(
        find_package_in_build_in("github.com/axetroy/gpm.rs"),
        names(&["github.com", "axetroy", "gpm.rs", "Cask.toml"])
    );
    assert_eq!(find_package_in_build_in("tool"), names(&["tool", "Cask.toml"]));
}

#[test]
fn clone_options_follow_verbosity() {
    let quiet = clone_options(false);
    assert_eq!(quiet.depth, Some(1));
    assert_eq!(quiet.quiet, Some(true));
    assert_eq!(quiet.verbose, Some(false));
    assert_eq!(quiet.progress, Some(true));
    assert_eq!(quiet.single_branch, Some(true));
    assert_eq!(quiet.dissociate, Some(true));
    assert_eq!(quiet.filter.as_deref(), Some("tree:0"));
    let verbose = clone_options(true);
    assert_eq!(verbose.quiet, Some(false));
    assert_eq!(verbose.verbose, Some(true));
    assert_eq!(verbose.progress, Some(false));
}

#[test]
fn clone_place_depends_on_the_mode() {
    let temp = clone_place(&request("github.com/axetroy/gpm.rs", true));
    assert!(temp.temporary);
    assert_eq!(temp.parts, names(&["cask_formula_1650000000"]));
    let kept = clone_place(&request("github.com/axetroy/gpm.rs", false));
    assert!(!kept.temporary);
    assert_eq!(kept.parts, names(&["formula", HASH, "repository"]));
}

#[test]
fn publishing_hint_has_three_lines() {
    let lines = [
        "It looks like the package does not support Cask",
        "If you are the package owner, see our documentation for how to publish a package:",
        "https://github.com/cask-pkg/cask.rs/blob/main/DESIGN.md#how-do-i-publish-package",
    ];
    assert_eq!(publishing_msg(), lines.join("\n"));
}
