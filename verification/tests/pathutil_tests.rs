use libquark::pathutil::{
    copy_destination, copy_entry_action, is_retina, resource_relpath, CopyAction, PathPart,
};

#[test]
fn retina_suffix_detected() {
    assert!(is_retina("icon@2x.png"));
    assert!(!is_retina("icon.png"));
    assert!(is_retina("icon@2x"));
}

#[test]
fn retina_looks_at_stem_not_extension() {
    assert!(!is_retina("icon.png@2x"));
    assert!(is_retina("assets/icons/logo@2x.png"));
    assert!(!is_retina("assets/ic@2x/logo.png"));
}

#[test]
fn retina_edge_cases() {
    assert!(!is_retina(""));
    assert!(!is_retina("@2"));
    assert!(is_retina("@2x"));
    assert!(is_retina("a.b@2x.c"));
}

#[test]
fn relpath_maps_each_component() {
    let parts = vec![
        PathPart::Root,
        PathPart::Normal("a".to_string()),
        PathPart::Parent,
        PathPart::Cur,
        PathPart::Normal("b.txt".to_string()),
    ];
    let out = resource_relpath(&parts);
    assert_eq!(out, vec!["_root_", "a", "_up_", "b.txt"]);
}

#[test]
fn relpath_drops_prefix_components() {
    let parts = vec![
        PathPart::Prefix("C:".to_string()),
        PathPart::Root,
        PathPart::Normal("data".to_string()),
    ];
    let out = resource_relpath(&parts);
    assert_eq!(out, vec!["_root_", "data"]);
}

#[test]
fn relpath_never_contains_parent_segment() {
    let parts = vec![
        PathPart::Parent,
        PathPart::Parent,
        PathPart::Root,
        PathPart::Cur,
        PathPart::Normal("x".to_string()),
        PathPart::Parent,
    ];
    let out = resource_relpath(&parts);
    assert!(out.iter().all(|s| s != ".."));
    assert_eq!(out, vec!["_up_", "_up_", "_root_", "x", "_up_"]);
}

#[test]
fn relpath_empty_input() {
    let out = resource_relpath(&Vec::new());
    assert!(out.is_empty());
}

#[test]
fn retina_ignores_trailing_separators() {
    assert!(is_retina("icon@2x/"));
    assert!(is_retina("assets/logo@2x.png//"));
    assert!(!is_retina("icon.png/"));
    assert!(!is_retina("/"));
    assert!(!is_retina("///"));
}

#[test]
fn copy_destination_joins_under_the_target() {
    assert_eq!(
        copy_destination("src", "src/a/b.txt", "dst"),
        Some("dst/a/b.txt".to_string())
    );
    assert_eq!(
        copy_destination("src/", "src/a", "out"),
        Some("out/a".to_string())
    );
}

#[test]
fn copy_destination_of_the_root_is_the_target() {
    assert_eq!(copy_destination("src", "src", "dst"), Some("dst".to_string()));
}

#[test]
fn copy_destination_outside_the_root_is_none() {
    assert_eq!(copy_destination("src", "other/x", "dst"), None);
}

#[test]
fn copy_actions_cover_every_entry_kind() {
    assert_eq!(copy_entry_action(true, true), CopyAction::LinkDir);
    assert_eq!(copy_entry_action(true, false), CopyAction::LinkFile);
    assert_eq!(copy_entry_action(false, true), CopyAction::MakeDir);
    assert_eq!(copy_entry_action(false, false), CopyAction::CopyFile);
}
