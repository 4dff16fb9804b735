use ejsr::resolver::resolve;
use ejsr::resolver::ResolutionKind;
use ejsr::resolver::ResolveError;

#[test]
fn internal_sibling_is_rewritten() {
    let r = resolve("./modules/console.js", "ejsr:runtime/index.js", ResolutionKind::Import).unwrap();
    assert_eq!(r, "ejsr:runtime/modules/console.js");
}

#[test]
fn internal_rewrite_keeps_specifier_tail_verbatim() {
    let r = resolve("./modules/extra/helper.js", "ejsr:runtime/modules/fs.js", ResolutionKind::Import).unwrap();
    assert_eq!(r, "ejsr:runtime/modules/extra/helper.js");
}

#[test]
fn internal_rewrite_applies_to_every_internal_referrer() {
    let r = resolve("./modules/crypto.js", "ejsr:runtime/modules/timer.js", ResolutionKind::Import).unwrap();
    assert_eq!(r, "ejsr:runtime/modules/crypto.js");
}

#[test]
fn modules_specifier_under_plain_referrer_joins_normally() {
    let r = resolve("./modules/console.js", "file:///tmp/main.js", ResolutionKind::Import).unwrap();
    assert_eq!(r, "file:///tmp/modules/console.js");
}

#[test]
fn absolute_specifier_resolves_to_itself() {
    let r = resolve("https://example.com/lib.js", "file:///tmp/main.js", ResolutionKind::Import).unwrap();
    assert_eq!(r, "https://example.com/lib.js");
}

#[test]
fn relative_specifier_joins_against_referrer() {
    let r = resolve("./util.js", "file:///tmp/main.js", ResolutionKind::Import).unwrap();
    assert_eq!(r, "file:///tmp/util.js");
}

#[test]
fn parent_relative_specifier_joins_against_referrer() {
    let r = resolve("../shared/util.js", "file:///tmp/app/main.js", ResolutionKind::Import).unwrap();
    assert_eq!(r, "file:///tmp/shared/util.js");
}

#[test]
fn rooted_specifier_joins_against_referrer() {
    let r = resolve("/abs.js", "file:///tmp/app/main.js", ResolutionKind::Import).unwrap();
    assert_eq!(r, "file:///abs.js");
}

#[test]
fn absolute_specifier_is_canonicalised() {
    let r = resolve("HTTPS://EXAMPLE.COM/Lib.js", "file:///tmp/main.js", ResolutionKind::Import).unwrap();
    assert_eq!(r, "https://example.com/Lib.js");
    let r = resolve("https://example.com", "file:///tmp/main.js", ResolutionKind::Import).unwrap();
    assert_eq!(r, "https://example.com/");
}

#[test]
fn bare_specifier_is_refused() {
    let e = resolve("lodash", "file:///tmp/main.js", ResolutionKind::Import).unwrap_err();
    assert_eq!(e, ResolveError::PrefixMissing(String::from("lodash")));
}

#[test]
fn bare_specifier_under_internal_referrer_is_refused() {
    let e = resolve("lodash", "ejsr:runtime/index.js", ResolutionKind::Import).unwrap_err();
    assert_eq!(e, ResolveError::PrefixMissing(String::from("lodash")));
}

#[test]
fn relative_specifier_against_bare_referrer_is_invalid() {
    let e = resolve("./util.js", "not a url", ResolutionKind::Import).unwrap_err();
    assert!(matches!(e, ResolveError::InvalidSpecifier(_)));
}

#[test]
fn resolution_failures_render_their_messages() {
    let e = resolve("lodash", "file:///tmp/main.js", ResolutionKind::Import).unwrap_err();
    assert_eq!(
        e.message(),
        "relative import path 'lodash' is not prefixed with / or ./ or ../"
    );
    let e = ResolveError::InvalidSpecifier(String::from("relative URL without a base"));
    assert_eq!(e.message(), "relative URL without a base");
}
