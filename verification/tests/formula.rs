use cask::document::Node;
use cask::error::ErrorKind;
use cask::formula;
use cask::host::{Arch, Host, Os};

fn default_manifest() -> String {
    let text = r#"[package]
name = "github.com/axetroy/gpm.rs"
bin = "gpm"
repository = "https://github.com/axetroy/gpm.rs"
description = """
A command line tool, manage your hundreds of repository, written with Rust.
"""
versions = ["0.1.12", "0.1.11"]
authors = ["Axetroy <axetroy.dev@gmail.com>"]
keywords = ["gpm", "git", "project", "manager"]

[windows]
x86_64 = { url = "{package.repository}/releases/download/v{version}/gpm_windows_amd64.tar.gz" }

[darwin]
x86_64 = { url = "{package.repository}/releases/download/v{version}/gpm_darwin_amd64.tar.gz" }
aarch64 = { url = "{package.repository}/releases/download/v{version}/gpm_darwin_arm64.tar.gz" }

[linux]
x86_64 = { url = "{package.repository}/releases/download/v{version}/gpm_linux_amd64.tar.gz" }
aarch64 = { url = "{package.repository}/releases/download/v{version}/gpm_linux_arm64.tar.gz" }
"#;
    text.to_string()
}

fn simple_manifest() -> String {
    let text = r#"[package]
name = "github.com/axetroy/gpm.rs"
bin = "gpm"
repository = "https://github.com/axetroy/gpm.rs"
description = """
A command line tool, manage your hundreds of repository, written with Rust.
"""
versions = ["0.1.12", "0.1.11"]
authors = ["Axetroy <axetroy.dev@gmail.com>"]
keywords = ["gpm", "git", "project", "manager"]

[windows]
x86_64 = "https://github.com/axetroy/gpm.rs/releases/download/v{version}/gpm_windows_amd64.tar.gz"

[darwin]
x86_64 = "https://github.com/axetroy/gpm.rs/releases/download/v{version}/gpm_darwin_amd64.tar.gz"
aarch64 = "https://github.com/axetroy/gpm.rs/releases/download/v{version}/gpm_darwin_arm64.tar.gz"

[linux]
x86_64 = "https://github.com/axetroy/gpm.rs/releases/download/v{version}/gpm_linux_amd64.tar.gz"
aarch64 = "https://github.com/axetroy/gpm.rs/releases/download/v{version}/gpm_linux_arm64.tar.gz"
"#;
    text.to_string()
}

fn hook_manifest() -> String {
    let text = r#"[package]
name = "github.com/axetroy/gpm.rs"
bin = "gpm"
repository = "https://github.com/axetroy/gpm.rs"
description = "A tool"

[hook.unix]
preinstall = "echo 'hello sh'"

[hook.windows]
preinstall = "echo 'hello cmd'"
"#;
    text.to_string()
}

fn detailed_url(target: Option<&formula::ResourceTarget>) -> String {
    match target.unwrap() {
        formula::ResourceTarget::Detailed(arch) => arch.url.clone(),
        formula::ResourceTarget::Executable(_) => panic!("an executable target"),
        formula::ResourceTarget::Simple(_) => panic!("a simple target"),
    }
}

fn simple_url(target: Option<&formula::ResourceTarget>) -> String {
    match target.unwrap() {
        formula::ResourceTarget::Detailed(_) => panic!("a detailed target"),
        formula::ResourceTarget::Executable(_) => panic!("an executable target"),
        formula::ResourceTarget::Simple(url) => url.clone(),
    }
}

#[test]
fn test_read_default_config() {
    let config_path = "fixtures/config/default_Cask.toml";

    let rc = formula::new(
        config_path,
        Some(default_manifest()),
        "https://github.com/example/example.git",
    )
    .unwrap();

    assert_eq!(rc.repository, "https://github.com/example/example.git");
    assert_eq!(format!("{}", rc.filepath), format!("{}", config_path));
    assert_eq!(rc.package.name, "github.com/axetroy/gpm.rs");
    assert_eq!(rc.package.bin, "gpm");
    assert_eq!(
        rc.package.versions.as_ref().unwrap(),
        &vec!["0.1.12", "0.1.11"]
    );
    assert_eq!(
        rc.package.authors.as_ref().unwrap(),
        &vec!["Axetroy <axetroy.dev@gmail.com>"]
    );
    assert_eq!(
        rc.package.keywords.as_ref().unwrap(),
        &vec!["gpm", "git", "project", "manager"]
    );
    assert_eq!(rc.package.repository, "https://github.com/axetroy/gpm.rs");
    assert_eq!(
        rc.package.description,
        "A command line tool, manage your hundreds of repository, written with Rust.\n"
    );

    let windows = &rc.windows.as_ref().unwrap();
    let darwin = &rc.darwin.as_ref().unwrap();
    let linux = &rc.linux.as_ref().unwrap();

    // windows
    assert_eq!(
        detailed_url(windows.x86_64.as_ref()),
        "{package.repository}/releases/download/v{version}/gpm_windows_amd64.tar.gz"
    );

    // darwin
    assert_eq!(
        detailed_url(darwin.x86_64.as_ref()),
        "{package.repository}/releases/download/v{version}/gpm_darwin_amd64.tar.gz"
    );
    assert_eq!(
        detailed_url(darwin.aarch64.as_ref()),
        "{package.repository}/releases/download/v{version}/gpm_darwin_arm64.tar.gz"
    );

    let mac = Host { os: Os::Macos, arch: Arch::X86_64 };
    assert_eq!(
        &rc.get_current_download_url(mac, "0.1.12").as_ref().unwrap().url,
        "https://github.com/axetroy/gpm.rs/releases/download/v0.1.12/gpm_darwin_amd64.tar.gz"
    );

    // linux
    assert_eq!(
        detailed_url(linux.x86_64.as_ref()),
        "{package.repository}/releases/download/v{version}/gpm_linux_amd64.tar.gz"
    );
    assert_eq!(
        detailed_url(linux.aarch64.as_ref()),
        "{package.repository}/releases/download/v{version}/gpm_linux_arm64.tar.gz"
    );
}

#[test]
fn test_read_simple_config() {
    let config_path = "fixtures/config/simple_Cask.toml";

    let rc = formula::new(
        config_path,
        Some(simple_manifest()),
        "https://github.com/example/example.git",
    )
    .unwrap();

    assert_eq!(rc.repository, "https://github.com/example/example.git");
    assert_eq!(format!("{}", rc.filepath), format!("{}", config_path));
    assert_eq!(rc.package.name, "github.com/axetroy/gpm.rs");
    assert_eq!(rc.package.bin, "gpm");
    assert_eq!(rc.package.versions.unwrap(), vec!["0.1.12", "0.1.11"]);
    assert_eq!(
        rc.package.authors.unwrap(),
        vec!["Axetroy <axetroy.dev@gmail.com>"]
    );
    assert_eq!(
        rc.package.keywords.unwrap(),
        vec!["gpm", "git", "project", "manager"]
    );
    assert_eq!(rc.package.repository, "https://github.com/axetroy/gpm.rs");
    assert_eq!(
        rc.package.description,
        "A command line tool, manage your hundreds of repository, written with Rust.\n"
    );

    let windows = &rc.windows.unwrap();
    let darwin = &rc.darwin.unwrap();
    let linux = &rc.linux.unwrap();

    // windows
    assert_eq!(
        simple_url(windows.x86_64.as_ref()),
        "https://github.com/axetroy/gpm.rs/releases/download/v{version}/gpm_windows_amd64.tar.gz"
    );

    // darwin
    assert_eq!(
        simple_url(darwin.x86_64.as_ref()),
        "https://github.com/axetroy/gpm.rs/releases/download/v{version}/gpm_darwin_amd64.tar.gz"
    );
    assert_eq!(
        simple_url(darwin.aarch64.as_ref()),
        "https://github.com/axetroy/gpm.rs/releases/download/v{version}/gpm_darwin_arm64.tar.gz"
    );

    // linux
    assert_eq!(
        simple_url(linux.x86_64.as_ref()),
        "https://github.com/axetroy/gpm.rs/releases/download/v{version}/gpm_linux_amd64.tar.gz"
    );
    assert_eq!(
        simple_url(linux.aarch64.as_ref()),
        "https://github.com/axetroy/gpm.rs/releases/download/v{version}/gpm_linux_arm64.tar.gz"
    );
}

#[test]
fn test_get_hook() {
    let config_path = "fixtures/config/hook_Cask.toml";

    let rc = formula::new(
        config_path,
        Some(hook_manifest()),
        "https://github.com/example/example.git",
    )
    .unwrap();

    let hook = rc.hook.as_ref().unwrap();

    let unix = hook.get("unix").unwrap();
    assert_eq!(
        unix.get("preinstall").unwrap().as_text().unwrap(),
        r#"echo 'hello sh'"#
    );
    let windows = hook.get("windows").unwrap();
    assert_eq!(
        windows.get("preinstall").unwrap().as_text().unwrap(),
        r#"echo 'hello cmd'"#
    );
    assert!(matches!(hook, Node::Table(_)));
    assert!(hook.get("preinstall").is_none());
}

#[test]
fn file_content_is_the_source_text() {
    let text = default_manifest();
    let rc = formula::new("Cask.toml", Some(text.clone()), "").unwrap();
    assert_eq!(rc.file_content, text);
    assert_eq!(rc.get_file_content(), text);
    assert_eq!(rc.repository, "");
    assert!(rc.cask.is_none());
    assert!(rc.context.is_none());
    assert!(rc.dependencies.is_none());
    assert!(rc.hook.is_none());
    assert!(rc.package.version.is_none());
    assert!(rc.package.license.is_none());
}

#[test]
fn missing_file_is_not_found() {
    let err = formula::new("nowhere/Cask.toml", None, "https://example.com/a.git").unwrap_err();
    assert_eq!(err.kind, ErrorKind::NotFound);
    assert_eq!(err.subject, "nowhere/Cask.toml");
    assert_eq!(err.message(), "the formula 'nowhere/Cask.toml' does not exist");
}

#[test]
fn text_that_is_no_document_is_a_parse_error() {
    let err = formula::new("bad/Cask.toml", Some("[package\nname = ".to_string()), "").unwrap_err();
    assert_eq!(err.kind, ErrorKind::ParseError);
    assert_eq!(err.subject, "bad/Cask.toml");
    assert_eq!(
        err.message(),
        "the formula 'bad/Cask.toml' is not a well-formed document"
    );
}

#[test]
fn missing_required_fields_are_schema_errors() {
    let complete = "[package]\nname = \"a\"\nbin = \"b\"\nrepository = \"c\"\ndescription = \"d\"\n";
    assert!(formula::new("Cask.toml", Some(complete.to_string()), "").is_ok());
    for missing in ["name", "bin", "repository", "description"] {
        let text: String = complete
            .lines()
            .filter(|line| !line.starts_with(missing))
            .map(|line| format!("{}\n", line))
            .collect();
        let err = formula::new("Cask.toml", Some(text), "").unwrap_err();
        assert_eq!(err.kind, ErrorKind::SchemaError);
        assert_eq!(err.subject, "Cask.toml");
    }
    let err = formula::new("Cask.toml", Some("title = \"no package\"\n".to_string()), "").unwrap_err();
    assert_eq!(err.kind, ErrorKind::SchemaError);
}

#[test]
fn a_named_field_of_the_wrong_shape_is_a_schema_error() {
    let base = "[package]\nname = \"a\"\nbin = \"b\"\nrepository = \"c\"\ndescription = \"d\"\n";
    let bad = [
        "license = 3\n",
        "versions = \"1.0\"\n",
        "versions = [\"1.0\", 2]\n",
        "version = true\n",
        "[linux]\nx86_64 = 5\n",
        "[linux]\nx86_64 = { path = \"/\" }\n",
        "[linux]\nx86_64 = { url = \"u\", extension = \".rar\" }\n",
        "[context]\nname = 1\n",
        "[cask]\npackage_name = \"a\"\n",
        "[dependencies]\nother = 1\n",
    ];
    for extra in bad {
        let err = formula::new("Cask.toml", Some(format!("{}{}", base, extra)), "").unwrap_err();
        assert_eq!(err.kind, ErrorKind::SchemaError);
    }
    let unknown = format!("{}homepage = 3\n[linux]\nsparc = 5\n", base);
    assert!(formula::new("Cask.toml", Some(unknown), "").is_ok());
}

#[test]
fn the_three_shapes_of_a_target_are_told_apart() {
    let text = r#"[package]
name = "a"
bin = "b"
repository = "c"
description = "d"

[linux]
x86 = "https://example.com/{version}/b.zip"
x86_64 = { url = "https://example.com/b.tar", checksum = "AB", extension = ".tar", path = "/bin" }
arm = { executable = "https://example.com/b", checksum = "cd" }
aarch64 = { url = "https://example.com/both.tgz", executable = "https://example.com/b" }
"#;
    let rc = formula::new("Cask.toml", Some(text.to_string()), "").unwrap();
    let linux = rc.linux.as_ref().unwrap();
    assert_eq!(simple_url(linux.x86.as_ref()), "https://example.com/{version}/b.zip");
    match linux.x86_64.as_ref().unwrap() {
        formula::ResourceTarget::Detailed(d) => {
            assert_eq!(d.url, "https://example.com/b.tar");
            assert_eq!(d.checksum.as_deref(), Some("AB"));
            assert_eq!(d.extension, Some(cask::extension::Extension::Tar));
            assert_eq!(d.path.as_deref(), Some("/bin"));
        }
        _ => panic!("not a detailed target"),
    }
    match linux.arm.as_ref().unwrap() {
        formula::ResourceTarget::Executable(e) => {
            assert_eq!(e.executable, "https://example.com/b");
            assert_eq!(e.checksum.as_deref(), Some("cd"));
        }
        _ => panic!("not an executable target"),
    }
    assert_eq!(detailed_url(linux.aarch64.as_ref()), "https://example.com/both.tgz");
    assert!(linux.mips.is_none());
    assert!(rc.darwin.is_none());
}

#[test]
fn optional_blocks_are_read() {
    let text = r#"[cask]
package_name = "a"
created_at = "2022-03-01T10:00:00+00:00"
version = "1.0.0"
repository = "https://example.com/a.git"

[package]
name = "a"
bin = "b"
repository = "c"
description = "d"
version = "1.0.0"
license = "MIT"

[context]
mirror = "https://mirror.example.com"
channel = "stable"

[dependencies]
"example.com/x" = "1.2.3"
"example.com/y" = { version = "4.5.6" }
"#;
    let rc = formula::new("Cask.toml", Some(text.to_string()), "").unwrap();
    let record = rc.cask.as_ref().unwrap();
    assert_eq!(record.name, "a");
    assert_eq!(record.created_at, "2022-03-01T10:00:00+00:00");
    assert_eq!(record.version, "1.0.0");
    assert_eq!(record.repository, "https://example.com/a.git");
    assert_eq!(rc.package.version.as_deref(), Some("1.0.0"));
    assert_eq!(rc.package.license.as_deref(), Some("MIT"));
    let mut context = rc.context.clone().unwrap();
    context.sort();
    assert_eq!(
        context,
        vec![
            ("channel".to_string(), "stable".to_string()),
            ("mirror".to_string(), "https://mirror.example.com".to_string()),
        ]
    );
    let dependencies = rc.dependencies.as_ref().unwrap();
    assert_eq!(dependencies.len(), 2);
    for (name, dependency) in dependencies {
        match dependency {
            formula::Dependencies::Simple(v) => {
                assert_eq!(name, "example.com/x");
                assert_eq!(v, "1.2.3");
            }
            formula::Dependencies::Detail(d) => {
                assert_eq!(name, "example.com/y");
                assert_eq!(d.version, "4.5.6");
            }
        }
    }
}

#[test]
fn target_selection_goes_by_system_then_architecture() {
    let rc = formula::new("Cask.toml", Some(default_manifest()), "").unwrap();
    let pick = |os, arch| rc.get_current_arch(Host { os, arch }).map(|t| t.url_template().clone());
    assert_eq!(
        pick(Os::Macos, Arch::Aarch64).unwrap(),
        "{package.repository}/releases/download/v{version}/gpm_darwin_arm64.tar.gz"
    );
    assert_eq!(
        pick(Os::Windows, Arch::X86_64).unwrap(),
        "{package.repository}/releases/download/v{version}/gpm_windows_amd64.tar.gz"
    );
    assert_eq!(
        pick(Os::Linux, Arch::X86_64).unwrap(),
        "{package.repository}/releases/download/v{version}/gpm_linux_amd64.tar.gz"
    );
    assert!(pick(Os::Windows, Arch::Aarch64).is_none());
    assert!(pick(Os::Linux, Arch::Riscv64).is_none());
    assert!(pick(Os::Other, Arch::X86_64).is_none());
    assert!(pick(Os::Linux, Arch::Other).is_none());
    assert!(rc.get_current_os(Os::Macos).is_some());
    assert!(rc.get_current_os(Os::Other).is_none());
    let twice = (pick(Os::Linux, Arch::Aarch64), pick(Os::Linux, Arch::Aarch64));
    assert_eq!(twice.0, twice.1);
}

#[test]
fn hosts_are_read_from_their_names() {
    assert_eq!(Os::from_name("macos"), Os::Macos);
    assert_eq!(Os::from_name("windows"), Os::Windows);
    assert_eq!(Os::from_name("linux"), Os::Linux);
    assert_eq!(Os::from_name("freebsd"), Os::Other);
    assert_eq!(Os::from_name("darwin"), Os::Other);
    let names = [
        ("x86", Arch::X86),
        ("x86_64", Arch::X86_64),
        ("arm", Arch::Arm),
        ("armv7", Arch::Armv7),
        ("aarch64", Arch::Aarch64),
        ("mips", Arch::Mips),
        ("mips64", Arch::Mips64),
        ("mips64el", Arch::Mips64el),
        ("riscv64", Arch::Riscv64),
        ("sparc", Arch::Other),
    ];
    for (name, arch) in names {
        assert_eq!(Arch::from_name(name), arch);
    }
    assert_eq!(
        Host::from_names("linux", "aarch64"),
        Host { os: Os::Linux, arch: Arch::Aarch64 }
    );
}

#[test]
fn simple_target_expands_the_version_in_place() {
    let rc = formula::new("Cask.toml", Some(simple_manifest()), "").unwrap();
    let hosts = [
        (Os::Windows, Arch::X86_64, "windows_amd64"),
        (Os::Macos, Arch::X86_64, "darwin_amd64"),
        (Os::Macos, Arch::Aarch64, "darwin_arm64"),
        (Os::Linux, Arch::X86_64, "linux_amd64"),
        (Os::Linux, Arch::Aarch64, "linux_arm64"),
    ];
    for (os, arch, tag) in hosts {
        assert!(matches!(
            rc.get_current_arch(Host { os, arch }),
            Some(formula::ResourceTarget::Simple(_))
        ));
        let target = rc.get_current_download_url(Host { os, arch }, "0.1.12").unwrap();
        assert_eq!(
            target.url,
            format!(
                "https://github.com/axetroy/gpm.rs/releases/download/v0.1.12/gpm_{}.tar.gz",
                tag
            )
        );
        assert_eq!(target.path, "/");
        assert_eq!(target.ext, ".tar.gz");
        assert_eq!(target.checksum, None);
        assert!(!target.executable);
    }
}

#[test]
fn unsupported_platform_names_the_package() {
    let text = r#"[package]
name = "example.com/tool"
bin = "tool"
repository = "https://example.com/tool"
description = "d"
versions = ["1.0.0"]

[linux]
x86_64 = "https://example.com/tool-{version}.tar.gz"
"#;
    let rc = formula::new("Cask.toml", Some(text.to_string()), "").unwrap();
    let windows = Host { os: Os::Windows, arch: Arch::X86_64 };
    let err = rc.get_current_download_url(windows, "1.0.0").unwrap_err();
    assert_eq!(err.kind, ErrorKind::UnsupportedPlatform);
    assert_eq!(err.subject, "example.com/tool");
    assert_eq!(
        err.message(),
        "the package 'example.com/tool' not support your system"
    );
    let arm = Host { os: Os::Linux, arch: Arch::Arm };
    assert_eq!(
        rc.get_current_download_url(arm, "1.0.0").unwrap_err().kind,
        ErrorKind::UnsupportedPlatform
    );
}

fn manifest_with_linux(target: &str) -> formula::Formula {
    let text = format!(
        "[package]\nname = \"example.com/tool\"\nbin = \"tool\"\nrepository = \"https://example.com/tool\"\ndescription = \"d\"\nversions = [\"1.0.0\"]\n\n[context]\nmirror = \"https://mirror.example.com\"\n\n[linux]\nx86_64 = {}\n\n[windows]\nx86_64 = {}\n",
        target, target
    );
    formula::new("Cask.toml", Some(text), "").unwrap()
}

fn linux() -> Host {
    Host { os: Os::Linux, arch: Arch::X86_64 }
}

#[test]
fn extension_is_taken_from_the_target_or_the_url() {
    let cases = [
        ("\"https://example.com/{version}/tool.tar.gz\"", ".tar.gz"),
        ("\"https://example.com/{version}/tool.tgz\"", ".tgz"),
        ("\"https://example.com/{version}/tool.tar\"", ".tar"),
        ("\"https://example.com/{version}/tool.zip\"", ".zip"),
        ("\"https://example.com/{version}/tool.zip?download=1\"", ".zip"),
        ("\"https://example.com/{version}/tool.bin\"", ".tar.gz"),
        ("\"https://example.com/tool.zip/{version}/\"", ".tar.gz"),
        ("\"https://example.com\"", ".tar.gz"),
        ("\"data:text/plain,tool.zip\"", ".tar.gz"),
        ("{ url = \"https://example.com/tool.zip\" }", ".zip"),
        ("{ url = \"https://example.com/tool.zip\", extension = \".tar\" }", ".tar"),
        ("{ url = \"not a url\", extension = \".tgz\" }", ".tgz"),
    ];
    for (target, ext) in cases {
        let rc = manifest_with_linux(target);
        let found = rc.get_current_download_url(linux(), "1.0.0").unwrap();
        assert_eq!(found.ext, ext, "for {}", target);
        assert!(!found.executable);
    }
}

#[test]
fn executable_target_has_no_archive_extension() {
    let rc = manifest_with_linux(
        "{ executable = \"https://example.com/{version}/tool.zip\", checksum = \"ABCDEF\" }",
    );
    let posix = rc.get_current_download_url(linux(), "1.0.0").unwrap();
    assert_eq!(posix.url, "https://example.com/1.0.0/tool.zip");
    assert_eq!(posix.ext, "");
    assert_eq!(posix.path, "/");
    assert_eq!(posix.checksum.as_deref(), Some("ABCDEF"));
    assert!(posix.executable);
    let windows = Host { os: Os::Windows, arch: Arch::X86_64 };
    let exe = rc.get_current_download_url(windows, "1.0.0").unwrap();
    assert_eq!(exe.ext, ".exe");
    assert!(exe.executable);
}

#[test]
fn inner_path_is_expanded_and_trimmed() {
    let cases = [
        ("{ url = \"https://example.com/t.zip\", path = \" /tool-{version}/bin \" }", "/tool-1.0.0/bin"),
        ("{ url = \"https://example.com/t.zip\", path = \"  \\t \" }", "/"),
        ("{ url = \"https://example.com/t.zip\", path = \"\" }", "/"),
        ("{ url = \"https://example.com/t.zip\" }", "/"),
        ("{ url = \"https://example.com/t.zip\", path = \"{package.bin}\" }", "tool"),
    ];
    for (target, path) in cases {
        let rc = manifest_with_linux(target);
        let found = rc.get_current_download_url(linux(), "1.0.0").unwrap();
        assert_eq!(found.path, path, "for {}", target);
    }
}

#[test]
fn templates_see_version_package_and_context() {
    let rc = manifest_with_linux(
        "{ url = \"{context.mirror}/{package.name}/{package.bin}-{version}.zip\", checksum = \"00ff\" }",
    );
    let found = rc.get_current_download_url(linux(), "1.0.0").unwrap();
    assert_eq!(
        found.url,
        "https://mirror.example.com/example.com/tool/tool-1.0.0.zip"
    );
    assert_eq!(found.checksum.as_deref(), Some("00ff"));
    assert_eq!(found.ext, ".zip");
}

#[test]
fn expanded_values_are_escaped_by_the_renderer() {
    let text = "[package]\nname = \"example.com/tool\"\nbin = \"tool\"\nrepository = \"https://example.com/tool\"\ndescription = \"d\"\n\n[context]\nquery = \"a=1&b=<2>\"\n\n[linux]\nx86_64 = \"https://example.com/t.zip?{context.query}&v={version}\"\n";
    let rc = formula::new("Cask.toml", Some(text.to_string()), "").unwrap();
    let found = rc.get_current_download_url(linux(), "1.0.0").unwrap();
    assert_eq!(found.url, "https://example.com/t.zip?a=1&amp;b=&lt;2&gt;&v=1.0.0");
    assert_eq!(found.ext, ".zip");
}

#[test]
fn templates_that_are_not_plain_are_template_errors() {
    let bad = [
        "\"https://example.com/{#}.zip\"",
        "\"https://example.com/{# a comment #}t.zip\"",
        "\"https://example.com/{{ if not }}.zip\"",
        "\"https://example.com/{{ if version }}a{{ endif }}.zip\"",
        "\"https://example.com/t.zip\\\\\"",
        "{ url = \"https://example.com/t.zip\", path = \"bin\\\\\" }",
        "{ url = \"https://example.com/t.zip\", path = \"{#}\" }",
        "{ executable = \"https://example.com/{{ call url_template with @root }}\" }",
    ];
    for target in bad {
        let rc = manifest_with_linux(target);
        let err = rc.get_current_download_url(linux(), "1.0.0").unwrap_err();
        assert_eq!(err.kind, ErrorKind::TemplateError, "for {}", target);
        assert_eq!(err.subject, "example.com/tool");
    }
    for plain in ["", "/", "{version}", "a{b.c}d", "{ version }", "a\\{b", "#{x}", "}{"] {
        assert!(cask::template::is_plain_template(plain), "for {:?}", plain);
    }
    for not_plain in ["{#", "{{", "a{{b", "a{#b", "\\", "{x}\\", "{{}}"] {
        assert!(!cask::template::is_plain_template(not_plain), "for {:?}", not_plain);
    }
}

#[test]
fn broken_templates_are_template_errors() {
    let bad = [
        "\"https://example.com/{unknown}.zip\"",
        "\"https://example.com/{context.missing}.zip\"",
        "\"https://example.com/{package.versions}.zip\"",
        "\"https://example.com/{{ if version }}.zip\"",
        "{ url = \"https://example.com/t.zip\", path = \"{nothing}\" }",
        "\"no url at all {version}\"",
    ];
    for target in bad {
        let rc = manifest_with_linux(target);
        let err = rc.get_current_download_url(linux(), "1.0.0").unwrap_err();
        assert_eq!(err.kind, ErrorKind::TemplateError, "for {}", target);
        assert_eq!(err.subject, "example.com/tool");
    }
}

fn manifest_with_versions(lines: &str) -> formula::Formula {
    let text = format!(
        "[package]\nname = \"example.com/tool\"\nbin = \"tool\"\nrepository = \"https://example.com/tool\"\ndescription = \"d\"\n{}",
        lines
    );
    formula::new("Cask.toml", Some(text), "").unwrap()
}

fn tags(list: &[&str]) -> Vec<String> {
    list.iter().map(|s| s.to_string()).collect()
}

#[test]
fn missing_version_is_unknown() {
    let rc = formula::new("Cask.toml", Some(default_manifest()), "").unwrap();
    let err = rc.select_version(Some("9.9.9"), &tags(&["9.9.9"])).unwrap_err();
    assert_eq!(err.kind, ErrorKind::UnknownVersion);
    assert_eq!(err.subject, "9.9.9");
    assert_eq!(err.message(), "can not found version '9.9.9' of formula");
    assert_eq!(rc.select_version(Some("0.1.11"), &tags(&[])).unwrap(), "0.1.11");
}

#[test]
fn first_listed_version_is_the_default() {
    let rc = formula::new("Cask.toml", Some(default_manifest()), "").unwrap();
    assert_eq!(rc.select_version(None, &tags(&[])).unwrap(), "0.1.12");
    assert_eq!(rc.select_version(None, &tags(&["7.0.0"])).unwrap(), "0.1.12");
    assert!(!rc.needs_remote_versions(None));
}

#[test]
fn package_version_must_be_listed() {
    let listed = manifest_with_versions("version = \"1.1.0\"\nversions = [\"1.2.0\", \"1.1.0\"]\n");
    assert_eq!(listed.select_version(None, &tags(&[])).unwrap(), "1.1.0");
    assert_eq!(listed.select_version(Some("1.2.0"), &tags(&[])).unwrap(), "1.2.0");
    let unlisted = manifest_with_versions("version = \"3.0.0\"\nversions = [\"1.2.0\"]\n");
    let err = unlisted.select_version(None, &tags(&["3.0.0"])).unwrap_err();
    assert_eq!(err.kind, ErrorKind::UnknownVersion);
    assert_eq!(err.subject, "3.0.0");
    let no_list = manifest_with_versions("version = \"3.0.0\"\n");
    assert_eq!(
        no_list.select_version(None, &tags(&["3.0.0"])).unwrap_err().kind,
        ErrorKind::UnknownVersion
    );
    assert!(!no_list.needs_remote_versions(None));
}

#[test]
fn remote_tags_decide_where_nothing_is_listed() {
    for lines in ["", "versions = []\n"] {
        let rc = manifest_with_versions(lines);
        assert!(rc.needs_remote_versions(None));
        assert!(!rc.needs_remote_versions(Some("1.0.0")));
        assert_eq!(rc.select_version(None, &tags(&["2.0.0", "1.0.0"])).unwrap(), "2.0.0");
        let err = rc.select_version(None, &tags(&[])).unwrap_err();
        assert_eq!(err.kind, ErrorKind::NoVersionsAvailable);
        assert_eq!(err.subject, "example.com/tool");
        assert_eq!(
            rc.select_version(Some("2.0.0"), &tags(&["2.0.0"])).unwrap_err().kind,
            ErrorKind::UnknownVersion
        );
    }
}

#[test]
fn versions_are_listed_or_remote() {
    let listed = formula::new("Cask.toml", Some(default_manifest()), "").unwrap();
    assert_eq!(listed.get_versions(&tags(&["9.0.0"])), vec!["0.1.12", "0.1.11"]);
    assert_eq!(listed.get_latest_version(&tags(&["9.0.0"])).as_deref(), Some("0.1.12"));
    let remote = manifest_with_versions("");
    assert_eq!(remote.get_versions(&tags(&["2.0.0", "1.0.0"])), vec!["2.0.0", "1.0.0"]);
    assert_eq!(remote.get_latest_version(&tags(&["2.0.0", "1.0.0"])).as_deref(), Some("2.0.0"));
    assert_eq!(remote.get_latest_version(&tags(&[])), None);
    let empty = manifest_with_versions("versions = []\n");
    assert!(empty.get_versions(&tags(&["2.0.0"])).is_empty());
    assert_eq!(empty.get_latest_version(&tags(&["2.0.0"])), None);
}
