use orestaty::syntax_highlighting::SyntaxHighlighting;

#[test]
fn css_classed_theme_always_resolves() {
    let hl = SyntaxHighlighting::new("css-classed", "").expect("css-classed always resolves");
    let highlighted = hl.highlight("let x = 1;", None).expect("highlighting succeeds");
    assert!(highlighted.starts_with("<pre><code>"), "got: {}", highlighted);
    assert!(highlighted.ends_with("</code></pre>"), "got: {}", highlighted);
}

#[test]
fn css_classed_theme_cannot_be_exported() {
    let hl = SyntaxHighlighting::new("css-classed", "").expect("css-classed always resolves");
    assert_eq!(hl.export_theme(), None);
}

#[test]
fn builtin_theme_resolves_and_exports() {
    let hl = SyntaxHighlighting::new("InspiredGitHub", "").expect("a built-in theme resolves");
    let css = hl.export_theme().expect("a resolved theme exports as CSS");
    assert!(css.contains(".z-"), "the exported stylesheet uses the class prefix, got: {}", css);
}

#[test]
fn builtin_theme_highlights_with_inline_styles() {
    let hl = SyntaxHighlighting::new("InspiredGitHub", "").expect("a built-in theme resolves");
    let highlighted = hl.highlight("let x = 1;", None).expect("highlighting succeeds");
    assert!(highlighted.contains("style="), "a resolved theme bakes colors in, got: {}", highlighted);
}

#[test]
fn unknown_theme_fails_resolution() {
    assert!(SyntaxHighlighting::new("no-such-theme-anywhere", "").is_none());
}

#[test]
fn default_highlighting_context_is_usable() {
    let hl = SyntaxHighlighting::default();
    let highlighted = hl.highlight_or_fallback("print(1)", None);
    assert!(!highlighted.is_empty());
}

#[test]
fn inline_highlight_with_exact_syntax_name() {
    let hl = SyntaxHighlighting::new("css-classed", "").expect("css-classed always resolves");
    let highlighted = hl.inline_highlight("let x = 1;", Some("Rust")).expect("Rust is a grammar");
    assert!(highlighted.starts_with("<pre><code>"), "got: {}", highlighted);
    assert!(highlighted.contains("let"), "got: {}", highlighted);
}

#[test]
fn inline_highlight_unknown_syntax_lists_supported_ones() {
    let hl = SyntaxHighlighting::new("css-classed", "").expect("css-classed always resolves");
    let err = hl.inline_highlight("code", Some("nosuchsyntax")).expect_err("unknown name errors");
    assert!(err.contains("Unsupported syntax nosuchsyntax"), "got: {}", err);
    assert!(err.contains("Supported syntaxes:"), "got: {}", err);
    assert!(err.contains("Rust"), "the hint lists the grammars, got: {}", err);
}

#[test]
fn inline_highlight_trims_and_unindents_the_body() {
    let hl = SyntaxHighlighting::new("css-classed", "").expect("css-classed always resolves");
    let body = "\n            first\n            second\n        ";
    let highlighted = hl.inline_highlight(body, None).expect("no name never errors");
    assert!(highlighted.contains("first"), "got: {}", highlighted);
    assert!(highlighted.contains("second"), "got: {}", highlighted);
    assert!(
        !highlighted.contains("            first"),
        "the body is trimmed and unindented, got: {}",
        highlighted
    );
}

#[test]
fn highlight_or_fallback_never_fails() {
    let hl = SyntaxHighlighting::new("css-classed", "").expect("css-classed always resolves");
    let highlighted = hl.highlight_or_fallback("", None);
    assert_eq!(highlighted, "<pre><code></code></pre>");
}
