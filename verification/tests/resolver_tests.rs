use libquark::error::BundleError;
use libquark::resolver::{
    GlobEvent, PatternEvent, ResolverRequest, ResolverStep, ResourcePaths, WalkEvent,
};

fn patterns(ps: &[&str]) -> Vec<String> {
    ps.iter().map(|p| p.to_string()).collect()
}

/// Two patterns, the first matching two plain files and the second
/// matching nothing at all: exactly two paths come out, in pattern
/// order then match order, and the empty second pattern neither aborts
/// nor contributes.
#[test]
fn two_matches_then_empty_pattern() {
    let mut r = ResourcePaths::new(patterns(&["assets/*.png", "missing/*.svg"]), true);

    match r.request() {
        ResolverRequest::OpenPattern(p) => assert_eq!(p, "assets/*.png"),
        other => panic!("unexpected request {:?}", other),
    }
    assert_eq!(r.on_pattern(PatternEvent::Opened), ResolverStep::Continue);

    assert_eq!(r.request(), ResolverRequest::FetchGlobMatch);
    assert_eq!(
        r.on_glob(GlobEvent::Match("assets/a.png".to_string(), false)),
        ResolverStep::Yield(Ok("assets/a.png".to_string()))
    );
    assert_eq!(r.request(), ResolverRequest::FetchGlobMatch);
    assert_eq!(
        r.on_glob(GlobEvent::Match("assets/b.png".to_string(), false)),
        ResolverStep::Yield(Ok("assets/b.png".to_string()))
    );
    assert_eq!(r.request(), ResolverRequest::FetchGlobMatch);
    assert_eq!(r.on_glob(GlobEvent::Exhausted), ResolverStep::Continue);

    match r.request() {
        ResolverRequest::OpenPattern(p) => assert_eq!(p, "missing/*.svg"),
        other => panic!("unexpected request {:?}", other),
    }
    assert_eq!(r.on_pattern(PatternEvent::Opened), ResolverStep::Continue);
    assert_eq!(r.request(), ResolverRequest::FetchGlobMatch);
    assert_eq!(r.on_glob(GlobEvent::Exhausted), ResolverStep::Continue);

    assert_eq!(r.request(), ResolverRequest::Finished);
}

#[test]
fn directory_match_is_an_error_when_walking_is_disallowed() {
    let mut r = ResourcePaths::new(patterns(&["icons/*"]), false);
    r.request();
    r.on_pattern(PatternEvent::Opened);
    let step = r.on_glob(GlobEvent::Match("icons/sub".to_string(), true));
    assert_eq!(
        step,
        ResolverStep::Yield(Err(BundleError::Filesystem(
            "icons/sub is a directory".to_string()
        )))
    );
    // The error is inline: the expansion goes on afterwards.
    assert_eq!(r.request(), ResolverRequest::FetchGlobMatch);
    assert_eq!(
        r.on_glob(GlobEvent::Match("icons/a.icns".to_string(), false)),
        ResolverStep::Yield(Ok("icons/a.icns".to_string()))
    );
}

#[test]
fn directory_match_is_walked_when_allowed() {
    let mut r = ResourcePaths::new(patterns(&["res/*"]), true);
    r.request();
    r.on_pattern(PatternEvent::Opened);
    assert_eq!(
        r.on_glob(GlobEvent::Match("res/dir".to_string(), true)),
        ResolverStep::Continue
    );
    assert_eq!(r.request(), ResolverRequest::FetchWalkEntry);
    // Directory entries are traversal nodes, not resources.
    assert_eq!(
        r.on_walk(WalkEvent::Entry("res/dir".to_string(), true)),
        ResolverStep::Continue
    );
    assert_eq!(
        r.on_walk(WalkEvent::Entry("res/dir/f.dat".to_string(), false)),
        ResolverStep::Yield(Ok("res/dir/f.dat".to_string()))
    );
    assert_eq!(r.on_walk(WalkEvent::Exhausted), ResolverStep::Continue);
    // Back at the glob level afterwards.
    assert_eq!(r.request(), ResolverRequest::FetchGlobMatch);
    assert_eq!(r.on_glob(GlobEvent::Exhausted), ResolverStep::Continue);
    assert_eq!(r.request(), ResolverRequest::Finished);
}

#[test]
fn malformed_pattern_is_an_inline_error() {
    let mut r = ResourcePaths::new(patterns(&["[bad", "good/*.txt"]), true);
    r.request();
    let step = r.on_pattern(PatternEvent::Invalid("invalid range pattern".to_string()));
    assert_eq!(
        step,
        ResolverStep::Yield(Err(BundleError::Filesystem(
            "invalid range pattern".to_string()
        )))
    );
    // The remaining patterns still run.
    match r.request() {
        ResolverRequest::OpenPattern(p) => assert_eq!(p, "good/*.txt"),
        other => panic!("unexpected request {:?}", other),
    }
}

#[test]
fn failed_reads_are_inline_errors() {
    let mut r = ResourcePaths::new(patterns(&["res/*"]), true);
    r.request();
    r.on_pattern(PatternEvent::Opened);
    assert_eq!(
        r.on_glob(GlobEvent::Failed("permission denied".to_string())),
        ResolverStep::Yield(Err(BundleError::Filesystem("permission denied".to_string())))
    );
    assert_eq!(
        r.on_glob(GlobEvent::Match("res/dir".to_string(), true)),
        ResolverStep::Continue
    );
    assert_eq!(
        r.on_walk(WalkEvent::Failed("unreadable entry".to_string())),
        ResolverStep::Yield(Err(BundleError::Filesystem("unreadable entry".to_string())))
    );
}

#[test]
fn empty_pattern_list_finishes_at_once() {
    let r = ResourcePaths::new(Vec::new(), false);
    assert_eq!(r.request(), ResolverRequest::Finished);
}
