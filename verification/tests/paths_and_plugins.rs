use orestaty::paths::file_kind;
use orestaty::paths::file_stem;
use orestaty::paths::output_extension;
use orestaty::paths::replace_extension;
use orestaty::paths::FileKind;
use orestaty::plugins::helper_name;
use orestaty::plugins::plugin_key;
use orestaty::plugins::plugin_kind;
use orestaty::plugins::PluginKind;
use orestaty::Config;
use orestaty::OreStaty;

#[test]
fn extensions_classify_sources() {
    assert_eq!(file_kind("index.html"), FileKind::Page);
    assert_eq!(file_kind("a/b/page.htm"), FileKind::Page);
    assert_eq!(file_kind("layout.hbs"), FileKind::Page);
    assert_eq!(file_kind("doc.md"), FileKind::Markdown);
    assert_eq!(file_kind("doc.markdown"), FileKind::Markdown);
    assert_eq!(file_kind("style.sass"), FileKind::Stylesheet);
    assert_eq!(file_kind("sub/x.scss"), FileKind::Stylesheet);
    assert_eq!(file_kind("plain.css"), FileKind::Stylesheet);
    assert_eq!(file_kind("notes.txt"), FileKind::Unknown);
    assert_eq!(file_kind("no_extension"), FileKind::Unknown);
    assert_eq!(file_kind(".gitignore"), FileKind::Unknown);
    assert_eq!(file_kind("dir.md/file"), FileKind::Unknown);
}

#[test]
fn output_extensions_are_html_and_css() {
    assert_eq!(output_extension(FileKind::Page), Some("html"));
    assert_eq!(output_extension(FileKind::Markdown), Some("html"));
    assert_eq!(output_extension(FileKind::Stylesheet), Some("css"));
    assert_eq!(output_extension(FileKind::Unknown), None);
}

#[test]
fn output_paths_substitute_only_the_extension() {
    assert_eq!(replace_extension("a.md", "html"), "a.html");
    assert_eq!(replace_extension("src/sub/x.scss", "css"), "src/sub/x.css");
    assert_eq!(replace_extension("deep/ly/nested/page.hbs", "html"), "deep/ly/nested/page.html");
    assert_eq!(replace_extension("archive.tar.md", "html"), "archive.tar.html");
}

#[test]
fn stems_are_preserved() {
    assert_eq!(file_stem("src/sub/x.scss"), "src/sub/x");
    assert_eq!(file_stem(replace_extension("src/sub/x.scss", "css").as_str()), "src/sub/x");
    assert_eq!(file_stem("noext"), "noext");
    assert_eq!(file_stem(".hidden"), ".hidden");
}

#[test]
fn plugin_keys_are_dotted_scopes() {
    assert_eq!(plugin_key("", "header"), "header");
    assert_eq!(plugin_key("widgets", "header"), "widgets.header");
    assert_eq!(plugin_key("widgets.nav", "header"), "widgets.nav.header");
}

#[test]
fn helper_names_replace_dots() {
    assert_eq!(helper_name("widgets.nav.header"), "widgets_nav_header");
    assert_eq!(helper_name("plain"), "plain");
}

#[test]
fn plugin_files_classify_by_extension() {
    assert_eq!(plugin_kind("layout.hbs"), PluginKind::Template);
    assert_eq!(plugin_kind("layout.html"), PluginKind::Template);
    assert_eq!(plugin_kind("layout.htm"), PluginKind::Template);
    assert_eq!(plugin_kind("helper.rhai"), PluginKind::Helper);
    assert_eq!(plugin_kind("readme.txt"), PluginKind::Skip);
    assert_eq!(plugin_kind("partial.scss"), PluginKind::Skip);
}

#[test]
fn skipped_plugin_files_record_no_error() {
    let mut gen = OreStaty::new(Config::default(), "");
    let registered = gen.register_plugin_file("notes", "plugins/notes.txt", "notes.txt");
    assert_eq!(registered, Ok(()));
    assert_eq!(gen.errors(), 0);
}

#[test]
fn failing_plugin_registration_is_reported_not_fatal() {
    let mut gen = OreStaty::new(Config::default(), "");
    let registered =
        gen.register_plugin_file("gone", "plugins/definitely/not/there.hbs", "there.hbs");
    assert_eq!(registered, Err(()));
    assert_eq!(gen.errors(), 1);
}
