use libquark::category::AppCategory;
use libquark::error::BundleError;
use libquark::settings::{
    BuildArtifact, BundleSettings, PackageInfo, PackageType, Settings, TargetPlatform,
    WorkspaceInfo,
};

fn package(name: &str, bundle: Option<BundleSettings>) -> PackageInfo {
    PackageInfo {
        name: name.to_string(),
        version: "1.2.3".to_string(),
        authors: vec!["Ada".to_string(), "Grace".to_string()],
        homepage: Some("https://example.org".to_string()),
        description: Some("a demo application".to_string()),
        bundle,
    }
}

fn settings_for(host_os: &str, workspace: WorkspaceInfo) -> Settings {
    Settings::new(
        "/proj",
        host_os.to_string(),
        "x86_64".to_string(),
        "demo".to_string(),
        None,
        None,
        None,
        None,
        workspace,
    )
    .expect("settings should resolve")
}

fn plain_workspace() -> WorkspaceInfo {
    WorkspaceInfo { members: vec![package("demo", None)], root: Some(0) }
}

#[test]
fn short_names_round_trip() {
    for t in [PackageType::Deb, PackageType::WindowsMsi, PackageType::OsxBundle] {
        assert_eq!(PackageType::from_short_name(t.short_name()), Some(t));
    }
    assert_eq!(PackageType::from_short_name("apk"), None);
    assert_eq!(PackageType::from_short_name(""), None);
}

#[test]
fn all_package_types_listed() {
    assert_eq!(
        PackageType::all(),
        vec![PackageType::Deb, PackageType::WindowsMsi, PackageType::OsxBundle]
    );
}

#[test]
fn package_types_follow_the_host_os() {
    let s = settings_for("macos", plain_workspace());
    assert_eq!(s.package_types().unwrap(), vec![PackageType::OsxBundle]);
    let s = settings_for("linux", plain_workspace());
    assert_eq!(s.package_types().unwrap(), vec![PackageType::Deb]);
    let s = settings_for("windows", plain_workspace());
    assert_eq!(s.package_types().unwrap(), vec![PackageType::WindowsMsi]);
}

#[test]
fn package_types_fail_on_unknown_os() {
    let s = settings_for("haiku", plain_workspace());
    assert_eq!(
        s.package_types(),
        Err(BundleError::UnsupportedOs("haiku".to_string()))
    );
}

#[test]
fn package_types_honour_the_explicit_override() {
    let s = Settings::new(
        "/proj",
        "haiku".to_string(),
        "x86_64".to_string(),
        "demo".to_string(),
        None,
        Some(PackageType::Deb),
        None,
        None,
        plain_workspace(),
    )
    .unwrap();
    assert_eq!(s.package_types().unwrap(), vec![PackageType::Deb]);
}

#[test]
fn package_types_follow_the_target_os_when_cross_compiling() {
    let s = Settings::new(
        "/proj",
        "linux".to_string(),
        "x86_64".to_string(),
        "demo".to_string(),
        None,
        None,
        Some(TargetPlatform {
            triple: "x86_64-apple-darwin".to_string(),
            os: "macos".to_string(),
        }),
        None,
        plain_workspace(),
    )
    .unwrap();
    assert_eq!(s.package_types().unwrap(), vec![PackageType::OsxBundle]);
    assert_eq!(s.target_triple(), Some("x86_64-apple-darwin"));
    assert_eq!(s.binary_path(), "/proj/target/x86_64-apple-darwin/release/demo");
}

#[test]
fn the_member_with_a_bundle_section_is_selected() {
    let declared = BundleSettings {
        name: Some("Shiny App".to_string()),
        category: Some(AppCategory::Game),
        ..Default::default()
    };
    let ws = WorkspaceInfo {
        members: vec![package("helper", None), package("app", Some(declared))],
        root: Some(0),
    };
    let s = settings_for("linux", ws);
    assert_eq!(s.bundle_name(), "Shiny App");
    assert_eq!(s.app_category(), Some(AppCategory::Game));
    // The selected package is the one carrying the section, not the root.
    assert_eq!(s.bundle_identifier(), "");
}

#[test]
fn missing_bundle_section_falls_back_to_the_root_package() {
    let ws = WorkspaceInfo {
        members: vec![package("helper", None), package("rootpkg", None)],
        root: Some(1),
    };
    let s = settings_for("linux", ws);
    assert_eq!(s.bundle_name(), "rootpkg");
    assert_eq!(s.app_category(), None);
}

#[test]
fn no_root_package_is_a_fatal_error() {
    let ws = WorkspaceInfo { members: vec![package("helper", None)], root: None };
    let r = Settings::new(
        "/proj",
        "linux".to_string(),
        "x86_64".to_string(),
        "demo".to_string(),
        None,
        None,
        None,
        None,
        ws,
    );
    assert_eq!(
        r.err(),
        Some(BundleError::Config("unable to find root package".to_string()))
    );
}

#[test]
fn output_directory_and_binary_path() {
    let s = settings_for("linux", plain_workspace());
    assert_eq!(s.project_out_directory(), "/proj/target/release");
    assert_eq!(s.binary_path(), "/proj/target/release/demo");
    assert_eq!(s.binary_name(), "demo");
    assert_eq!(s.build_profile(), "release");
    assert_eq!(s.binary_arch(), "x86_64");
    assert_eq!(*s.build_artifact(), BuildArtifact::Main);
}

#[test]
fn configured_artifact_directory_wins() {
    let s = Settings::new(
        "/proj",
        "linux".to_string(),
        "x86_64".to_string(),
        "demo".to_string(),
        Some("/cache/artifacts".to_string()),
        None,
        None,
        None,
        plain_workspace(),
    )
    .unwrap();
    assert_eq!(s.project_out_directory(), "/cache/artifacts/release");
    assert_eq!(s.binary_path(), "/cache/artifacts/release/demo");
}

#[test]
fn declared_fields_shadow_package_facts() {
    let declared = BundleSettings {
        name: Some("Named".to_string()),
        identifier: Some("org.example.named".to_string()),
        version: Some("9.9".to_string()),
        copyright: Some("(c) example".to_string()),
        short_description: Some("short".to_string()),
        long_description: Some("long".to_string()),
        ..Default::default()
    };
    let ws = WorkspaceInfo { members: vec![package("demo", Some(declared))], root: Some(0) };
    let s = settings_for("linux", ws);
    assert_eq!(s.bundle_name(), "Named");
    assert_eq!(s.bundle_identifier(), "org.example.named");
    assert_eq!(s.version_string(), "9.9");
    assert_eq!(s.copyright_string(), Some("(c) example"));
    assert_eq!(s.short_description(), "short");
    assert_eq!(s.long_description(), Some("long"));
}

#[test]
fn absent_fields_fall_back_to_package_facts() {
    let s = settings_for("linux", plain_workspace());
    assert_eq!(s.bundle_name(), "demo");
    assert_eq!(s.bundle_identifier(), "");
    assert_eq!(s.version_string(), "1.2.3");
    assert_eq!(s.copyright_string(), None);
    assert_eq!(s.short_description(), "a demo application");
    assert_eq!(s.long_description(), None);
    assert_eq!(s.homepage_url(), "https://example.org");
    assert_eq!(s.features(), None);
    assert_eq!(s.target_triple(), None);
}

#[test]
fn authors_join_with_comma() {
    let s = settings_for("linux", plain_workspace());
    assert_eq!(s.author_names(), &vec!["Ada".to_string(), "Grace".to_string()]);
    assert_eq!(s.authors_comma_separated(), Some("Ada, Grace".to_string()));

    let mut ws = plain_workspace();
    ws.members[0].authors = Vec::new();
    let s = settings_for("linux", ws);
    assert_eq!(s.authors_comma_separated(), None);
}

#[test]
fn platform_lists_default_to_empty() {
    let s = settings_for("linux", plain_workspace());
    assert!(s.debian_dependencies().is_empty());
    assert!(s.linux_mime_types().is_empty());
    assert!(s.osx_frameworks().is_empty());
    assert!(s.osx_url_schemes().is_empty());
    assert_eq!(s.linux_use_terminal(), None);
    assert_eq!(s.linux_exec_args(), None);
    assert_eq!(s.osx_minimum_system_version(), None);
}

#[test]
fn platform_lists_pass_through_when_declared() {
    let declared = BundleSettings {
        deb_depends: Some(vec!["libgtk-3-0".to_string()]),
        linux_mime_types: Some(vec!["text/plain".to_string()]),
        linux_use_terminal: Some(true),
        linux_exec_args: Some("--fullscreen".to_string()),
        osx_frameworks: Some(vec!["WebKit".to_string()]),
        osx_minimum_system_version: Some("10.11".to_string()),
        osx_url_schemes: Some(vec!["demo".to_string()]),
        ..Default::default()
    };
    let ws = WorkspaceInfo { members: vec![package("demo", Some(declared))], root: Some(0) };
    let s = settings_for("linux", ws);
    assert_eq!(s.debian_dependencies(), vec!["libgtk-3-0".to_string()]);
    assert_eq!(s.linux_mime_types(), vec!["text/plain".to_string()]);
    assert_eq!(s.linux_use_terminal(), Some(true));
    assert_eq!(s.linux_exec_args(), Some("--fullscreen"));
    assert_eq!(s.osx_frameworks(), vec!["WebKit".to_string()]);
    assert_eq!(s.osx_minimum_system_version(), Some("10.11"));
    assert_eq!(s.osx_url_schemes(), vec!["demo".to_string()]);
}

#[test]
fn resource_cursors_take_the_declared_patterns() {
    let declared = BundleSettings {
        icon: Some(vec!["icons/*.png".to_string()]),
        resources: Some(vec!["assets/**".to_string(), "data/*.json".to_string()]),
        ..Default::default()
    };
    let ws = WorkspaceInfo { members: vec![package("demo", Some(declared))], root: Some(0) };
    let s = settings_for("linux", ws);

    let mut icons = s.icon_files();
    match icons.request() {
        libquark::resolver::ResolverRequest::OpenPattern(p) => assert_eq!(p, "icons/*.png"),
        other => panic!("unexpected request {:?}", other),
    }
    // Icons never walk into matched directories.
    icons.on_pattern(libquark::resolver::PatternEvent::Opened);
    let step = icons.on_glob(libquark::resolver::GlobEvent::Match("icons/d".to_string(), true));
    assert_eq!(
        step,
        libquark::resolver::ResolverStep::Yield(Err(BundleError::Filesystem(
            "icons/d is a directory".to_string()
        )))
    );

    let res = s.resource_files();
    match res.request() {
        libquark::resolver::ResolverRequest::OpenPattern(p) => assert_eq!(p, "assets/**"),
        other => panic!("unexpected request {:?}", other),
    }
}

#[test]
fn secondary_binary_identifier() {
    // A named secondary artifact derives `<bin>.<package>`; covered via
    // the identifier fallback of the main artifact above, and checked
    // here through the declared identifier taking precedence.
    let declared = BundleSettings {
        identifier: Some("io.acme.tool".to_string()),
        ..Default::default()
    };
    let ws = WorkspaceInfo { members: vec![package("acme", Some(declared))], root: Some(0) };
    let s = settings_for("macos", ws);
    assert_eq!(s.bundle_identifier(), "io.acme.tool");
}
