use flatvodka::reference::{
    needs_descriptor, parse_reference, resolve_descriptor, resolve_plain, RefKind,
};

#[test]
fn bare_identifier_resolves_to_app_stable() {
    let res = resolve_plain("foo").unwrap();
    assert_eq!(res.reference.canonical(), "app/foo/x86_64/stable");
    assert_eq!(res.remote_name, "flathub");
    assert_eq!(res.remote_url, "https://dl.flathub.org/repo/");
}

#[test]
fn slashed_identifier_gets_runtime_prefix() {
    let res = resolve_plain("org.foo/x86_64/beta").unwrap();
    assert_eq!(res.reference.canonical(), "runtime/org.foo/x86_64/beta");
    assert!(matches!(res.reference.kind, RefKind::Runtime));
    assert_eq!(res.reference.id, "org.foo");
    assert_eq!(res.reference.arch, "x86_64");
    assert_eq!(res.reference.branch, "beta");
}

#[test]
fn canonical_identifier_is_kept_unchanged() {
    let res = resolve_plain("app/org.editor/x86_64/stable").unwrap();
    assert_eq!(res.reference.canonical(), "app/org.editor/x86_64/stable");
    let res = resolve_plain("runtime/platform/x86_64/24.08").unwrap();
    assert_eq!(res.reference.canonical(), "runtime/platform/x86_64/24.08");
}

#[test]
fn malformed_identifiers_are_rejected() {
    assert!(resolve_plain("a/b").is_none());
    assert!(resolve_plain("app/a/b").is_none());
    assert!(resolve_plain("app/a/b/c/d").is_none());
}

#[test]
fn parse_reference_requires_exactly_four_fields() {
    let r = parse_reference("app/a/b/c").unwrap();
    assert!(matches!(r.kind, RefKind::App));
    assert_eq!(r.id, "a");
    assert_eq!(r.arch, "b");
    assert_eq!(r.branch, "c");
    assert!(parse_reference("app/a/b").is_none());
    assert!(parse_reference("other/a/b/c").is_none());
    assert!(parse_reference("runtime/a/b/c/d").is_none());
}

#[test]
fn descriptor_identifier_detection() {
    assert!(needs_descriptor("editor.flatpakref"));
    assert!(needs_descriptor("/tmp/x.flatpakref"));
    assert!(!needs_descriptor("editor-app"));
    assert!(!needs_descriptor("runtime/platform/x86_64/24.08"));
}

#[test]
fn descriptor_fields_resolve_to_origin_remote() {
    let res = resolve_descriptor("org.editor", "https://example.test/repo/", Some("beta"));
    assert_eq!(res.reference.canonical(), "app/org.editor/x86_64/beta");
    assert_eq!(res.remote_name, "origin");
    assert_eq!(res.remote_url, "https://example.test/repo/");
    let res = resolve_descriptor("org.editor", "https://example.test/repo/", None);
    assert_eq!(res.reference.canonical(), "app/org.editor/x86_64/stable");
}
