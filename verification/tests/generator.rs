use orestaty::json::Json;
use orestaty::page::PageData;
use orestaty::Config;
use orestaty::OreStaty;

#[test]
fn default_config_names() {
    let config = Config::default();
    assert_eq!(config.default_template, "default");
    assert_eq!(config.default_markdown_template, "default_markdown");
    assert_eq!(config.code_highlight_theme, "css-classed");
    assert_eq!(orestaty::default_template(), "default");
    assert_eq!(orestaty::default_markdown_template(), "default_markdown");
    assert_eq!(orestaty::default_highlight_theme(), "css-classed");
}

#[test]
fn new_generator_starts_clean() {
    let gen = OreStaty::new(Config::default(), "root");
    assert_eq!(gen.errors(), 0);
    assert_eq!(gen.config().default_template, "default");
}

#[test]
fn errors_accumulate_one_by_one() {
    let mut gen = OreStaty::new(Config::default(), "");
    assert_eq!(gen.errors(), 0);
    gen.error("first failure");
    assert_eq!(gen.errors(), 1);
    gen.error("second failure");
    assert_eq!(gen.errors(), 2);
}

#[test]
fn unwrap_or_error_passes_values_and_counts_failures() {
    let mut gen = OreStaty::new(Config::default(), "");
    let ok: Result<u32, ()> = gen.unwrap_or_error(Ok::<u32, String>(7), "context");
    assert_eq!(ok, Ok(7));
    assert_eq!(gen.errors(), 0);
    let err: Result<u32, ()> = gen.unwrap_or_error(Err::<u32, String>("boom".to_owned()), "context");
    assert_eq!(err, Err(()));
    assert_eq!(gen.errors(), 1);
}

#[test]
fn plain_text_renders_byte_identical() {
    let mut gen = OreStaty::new(Config::default(), "");
    let content = "no templating constructs here, just text.";
    let rendered = gen
        .render_content(content, &Json::Obj(Vec::new()))
        .expect("plain text renders");
    assert_eq!(rendered, content);
    assert_eq!(gen.errors(), 0);
}

#[test]
fn lone_braces_are_plain_text_too() {
    let mut gen = OreStaty::new(Config::default(), "");
    let content = "a { b } c: no construct without a double brace";
    let rendered = gen
        .render_content(content, &Json::Obj(Vec::new()))
        .expect("plain text renders");
    assert_eq!(rendered, content);
    assert_eq!(gen.errors(), 0);
}

#[test]
fn plain_page_round_trips_through_both_passes() {
    let mut gen = OreStaty::new(Config::default(), "");
    let source = "<p>hello</p>\n";
    let built = gen.build_page(source, "index.html").expect("page builds");
    assert_eq!(built, source, "the default layout passes content through unmodified");
    assert_eq!(gen.errors(), 0);
}

#[test]
fn page_templates_see_their_path() {
    let mut gen = OreStaty::new(Config::default(), "");
    let built = gen.build_page("at {{page.path}}", "sub/here.html").expect("page builds");
    assert_eq!(built, "at sub/here.html");
}

#[test]
fn render_failure_is_one_error_and_no_output() {
    let mut gen = OreStaty::new(Config::default(), "");
    let built = gen.build_page("{{#unclosed}}", "broken.html");
    assert!(built.is_err());
    assert_eq!(gen.errors(), 1);
}

#[test]
fn render_html_wraps_content_in_the_named_layout() {
    let mut gen = OreStaty::new(Config::default(), "");
    gen.handlebars
        .register_template_string("wrapper", "<main>{{{content}}}</main>")
        .expect("template registers");
    let built = gen
        .render_html(
            "wrapper",
            "body text",
            PageData { path: "p.html".to_owned() },
            Vec::new(),
        )
        .expect("render succeeds");
    assert_eq!(built, "<main>body text</main>");
}

#[test]
fn build_file_dispatches_and_maps_extensions() {
    let mut gen = OreStaty::new(Config::default(), "");
    gen.register_default_markdown_template();
    let (built, ext) = gen.build_file("", "# Hi", "doc.md").expect("markdown builds");
    assert_eq!(ext, "html");
    assert!(built.contains("<h1>Hi</h1>"));
    let (built, ext) = gen.build_file("", "plain", "page.html").expect("page builds");
    assert_eq!(ext, "html");
    assert_eq!(built, "plain");
    assert_eq!(gen.errors(), 0);
}

#[test]
fn build_file_skips_unknown_extensions_without_error() {
    let mut gen = OreStaty::new(Config::default(), "");
    let built = gen.build_file("", "whatever", "asset.txt");
    assert!(built.is_err());
    assert_eq!(gen.errors(), 0, "an unknown extension warns, it is not an error");
}

#[test]
fn sass_failure_is_reported_and_yields_no_output() {
    let mut gen = OreStaty::new(Config::default(), "");
    let built = gen.build_sass("definitely/not/there.scss", "sub/x.scss");
    assert!(built.is_err());
    assert_eq!(gen.errors(), 1, "the build completes with the failure counted");
}

#[test]
fn later_registration_of_a_layout_wins() {
    let mut gen = OreStaty::new(Config::default(), "");
    gen.handlebars
        .register_template_string("default", "<o>{{{content}}}</o>")
        .expect("template registers");
    let built = gen.build_page("x", "p.html").expect("page builds");
    assert_eq!(built, "<o>x</o>", "a later registration of the same key wins");
}

#[test]
fn default_generator_matches_default_config() {
    let gen = OreStaty::default();
    assert_eq!(gen.errors(), 0);
    assert_eq!(gen.config().code_highlight_theme, "css-classed");
}
