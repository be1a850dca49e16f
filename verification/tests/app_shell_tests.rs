use libquark::args::{parse_args, Args, CliAction};
use libquark::builder::WebviewBuilder;
use libquark::config::{QuarkConfig, SizeHint};
use libquark::error::QuarkError;

fn argv(items: &[&str]) -> Vec<String> {
    items.iter().map(|s| s.to_string()).collect()
}

#[test]
fn no_arguments_is_a_plain_run() {
    assert_eq!(
        parse_args(&argv(&["quark"])),
        CliAction::Run(Args { live: false, bundle: false })
    );
}

#[test]
fn live_flag_accumulates() {
    assert_eq!(
        parse_args(&argv(&["quark", "--live"])),
        CliAction::Run(Args { live: true, bundle: false })
    );
}

#[test]
fn help_flag_stops_the_run() {
    assert_eq!(parse_args(&argv(&["quark", "--help"])), CliAction::Help);
    assert_eq!(parse_args(&argv(&["quark", "--live", "--help"])), CliAction::Help);
}

#[test]
fn bundle_flag_starts_a_bundling_run() {
    assert_eq!(parse_args(&argv(&["quark", "--bundle"])), CliAction::Bundle);
}

#[test]
fn unknown_arguments_are_rejected() {
    assert_eq!(
        parse_args(&argv(&["quark", "--nonsense"])),
        CliAction::Reject("--nonsense".to_string())
    );
    // The first stopping argument decides; nothing after it is read.
    assert_eq!(
        parse_args(&argv(&["quark", "--live", "oops", "--help"])),
        CliAction::Reject("oops".to_string())
    );
}

#[test]
fn custom_config() {
    let config = QuarkConfig::new()
        .title("CrowsaTestWindowConfig")
        .width(1024)
        .height(768)
        .resizable(SizeHint::FIXED);
    assert_eq!(config.title, "CrowsaTestWindowConfig");
    assert_eq!(config.width, 1024);
    assert_eq!(config.height, 768);
    assert_eq!(config.resizable, SizeHint::FIXED);
}

#[test]
fn config_defaults() {
    let config = QuarkConfig::new();
    assert_eq!(config.title, "Quark Application");
    assert_eq!(config.width, 800);
    assert_eq!(config.height, 600);
    assert_eq!(config.resizable, SizeHint::MAX);
}

#[test]
fn errors() {
    let errors = [
        QuarkError::FrontendPathMissing,
        QuarkError::IncludeDirCouldntConvertToUTF8,
        QuarkError::ServerPortIsntAvailable,
        QuarkError::ServerError,
    ];
    for error in &errors {
        let debug_str = format!("{:?}", error);
        assert!(!debug_str.is_empty());
    }
}

#[test]
fn builder_records_every_declaration() {
    let b = WebviewBuilder::new()
        .title("win")
        .url("http://127.0.0.1:24114/index.html")
        .init("console.log('init');")
        .eval("console.log('eval');")
        .width(640)
        .height(480)
        .resize(SizeHint::MIN)
        .debug(true);
    assert_eq!(b.title.as_deref(), Some("win"));
    assert_eq!(b.url.as_deref(), Some("http://127.0.0.1:24114/index.html"));
    assert_eq!(b.init.as_deref(), Some("console.log('init');"));
    assert_eq!(b.eval.as_deref(), Some("console.log('eval');"));
    assert_eq!(b.width, 640);
    assert_eq!(b.height, 480);
    assert_eq!(b.resize, SizeHint::MIN);
    assert!(b.debug);
}

#[test]
fn builder_starts_empty() {
    let b = WebviewBuilder::new();
    assert!(b.title.is_none());
    assert!(b.url.is_none());
    assert!(b.init.is_none());
    assert!(b.eval.is_none());
    assert_eq!(b.width, 0);
    assert_eq!(b.height, 0);
    assert_eq!(b.resize, SizeHint::NONE);
    assert!(!b.debug);
}
