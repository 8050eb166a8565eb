use orestaty::markdown::extract_frontmatter;
use orestaty::markdown::parse_markdown;
use orestaty::markdown::Metadata;
use orestaty::Config;
use orestaty::OreStaty;

fn generator() -> OreStaty {
    let mut gen = OreStaty::new(Config::default(), "");
    gen.register_default_markdown_template();
    gen
}

#[test]
fn markdown_heading_end_to_end() {
    let mut gen = generator();
    let built = gen.build_markdown("# Hi", "a.md").expect("document should build");
    assert!(built.contains("<h1>Hi</h1>"), "got: {}", built);
    assert_eq!(gen.errors(), 0);
}

#[test]
fn markdown_without_metadata_block_yields_default_record() {
    let events = parse_markdown("# Hi\n\nSome text.");
    let text = extract_frontmatter(&events);
    assert_eq!(text, "");
    let mut gen = generator();
    let record = gen.parse_metadata(&text);
    assert_eq!(record, Metadata::default());
    assert_eq!(gen.errors(), 0);
}

#[test]
fn frontmatter_is_accumulated_and_typed() {
    let source = "---\ntitle: Hello\ntemplate: custom\n---\n# Hi";
    let events = parse_markdown(source);
    let text = extract_frontmatter(&events);
    assert_eq!(text, "title: Hello\ntemplate: custom\n");
    let mut gen = generator();
    let record = gen.parse_metadata(&text);
    assert_eq!(record.title.as_deref(), Some("Hello"));
    assert_eq!(record.template.as_deref(), Some("custom"));
    assert_eq!(record.highlight_theme, None);
    assert_eq!(gen.errors(), 0);
}

#[test]
fn malformed_metadata_reports_one_error_and_still_builds() {
    let mut gen = generator();
    let source = "---\ntitle: [unclosed\n---\n# Hi";
    let built = gen.build_markdown(source, "a.md").expect("document should still build");
    assert!(!built.is_empty());
    assert!(built.contains("<h1>Hi</h1>"), "got: {}", built);
    assert_eq!(gen.errors(), 1, "exactly one error for the metadata failure");
}

#[test]
fn non_string_metadata_field_is_malformed() {
    let mut gen = generator();
    let source = "---\ntitle: 42\ntemplate: custom\n---\n# Hi";
    let built = gen.build_markdown(source, "a.md").expect("document should still build");
    assert!(built.contains("<h1>Hi</h1>"), "got: {}", built);
    assert_eq!(gen.errors(), 1, "a recognized field of the wrong type is one metadata error");
}

#[test]
fn metadata_template_override_picks_the_layout() {
    let mut gen = generator();
    gen.handlebars
        .register_template_string("custom", "[{{{content}}}]")
        .expect("template registers");
    let source = "---\ntemplate: custom\n---\nplain";
    let built = gen.build_markdown(source, "a.md").expect("document should build");
    assert!(built.starts_with('['), "got: {}", built);
    assert!(built.ends_with(']'), "got: {}", built);
    assert_eq!(gen.errors(), 0);
}

#[test]
fn missing_layout_is_one_error_and_no_output() {
    let mut gen = generator();
    let source = "---\ntemplate: nowhere\n---\n# Hi";
    let built = gen.build_markdown(source, "a.md");
    assert!(built.is_err());
    assert_eq!(gen.errors(), 1);
}

#[test]
fn unknown_code_fence_language_still_builds_without_error() {
    let mut gen = generator();
    let source = "```nosuchlanguagetoken\nlet x = 1;\n```\n";
    let built = gen.build_markdown(source, "a.md").expect("document should build");
    assert!(built.contains("<pre><code>"), "got: {}", built);
    assert!(built.contains("let"), "got: {}", built);
    assert_eq!(gen.errors(), 0, "an unknown language records no error");
}

#[test]
fn known_code_fence_language_is_highlighted() {
    let mut gen = generator();
    let source = "```rs\nlet x = 1;\n```\n";
    let built = gen.build_markdown(source, "a.md").expect("document should build");
    assert!(built.contains("<pre><code>"), "got: {}", built);
    assert!(built.contains("<span"), "classed highlighting emits spans, got: {}", built);
    assert!(built.contains("z-"), "classed highlighting uses the prefix, got: {}", built);
    assert_eq!(gen.errors(), 0);
}

#[test]
fn metadata_record_defaults_and_equality() {
    let record = Metadata::default();
    assert_eq!(record.title, None);
    assert_eq!(record.template, None);
    assert_eq!(record.highlight_theme, None);
    let clone = record.clone();
    assert_eq!(clone, record);
}

#[test]
fn empty_markdown_builds_to_empty_page() {
    let mut gen = generator();
    let built = gen.build_markdown("", "a.md").expect("document should build");
    assert_eq!(built, "");
    assert_eq!(gen.errors(), 0);
}

#[test]
fn metadata_highlight_theme_override_takes_precedence() {
    let mut gen = generator();
    let source = "---\nhighlight_theme: InspiredGitHub\n---\n```rs\nlet x = 1;\n```\n";
    let built = gen.build_markdown(source, "a.md").expect("document should build");
    assert!(
        built.contains("style="),
        "the overriding resolved theme bakes colors in, got: {}",
        built
    );
    assert_eq!(gen.errors(), 0);
}

#[test]
fn unresolvable_theme_override_falls_back_to_the_shared_theme() {
    let mut gen = generator();
    let source = "---\nhighlight_theme: no-such-theme-anywhere\n---\n```rs\nlet x = 1;\n```\n";
    let built = gen.build_markdown(source, "a.md").expect("document should build");
    assert!(built.contains("z-"), "the shared classed theme still applies, got: {}", built);
    assert_eq!(gen.errors(), 0, "a failed theme resolution is a hint, not an error");
}

#[test]
fn markdown_layout_sees_metadata_path_and_theme() {
    let mut gen = generator();
    gen.handlebars
        .register_template_string("ctx", "{{path}}|{{metadata.title}}|{{highlight_theme}}|{{{content}}}")
        .expect("template registers");
    let source = "---\ntitle: T\ntemplate: ctx\n---\nhello";
    let built = gen.build_markdown(source, "a.md").expect("document should build");
    assert_eq!(built, "a.md|T|css-classed|<p>hello</p>\n");
    assert_eq!(gen.errors(), 0);
}
