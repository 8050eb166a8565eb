//! A static-site build pipeline: page templates, Markdown documents and
//! stylesheets are compiled into an output tree, and every recoverable
//! failure is reported and counted instead of aborting the build.

use std::io::Write;
use vstd::prelude::*;

pub mod json;
pub mod markdown;
pub mod page;
pub mod paths;
pub mod plugins;
pub mod sass;
pub mod strutil;
pub mod syntax_highlighting;

verus! {

/// Relies on std::io::Stderr: streams the message, with a trailing
/// newline, to the standard error stream — diagnostics are reported the
/// moment they occur, never batched.
#[verifier::external_body]
pub(crate) fn emit_diagnostic(message: &str) {
    let _ = writeln!(std::io::stderr(), "{}", message);
}

/// Name of the layout used for pages when no other layout is configured.
pub fn default_template() -> (r: String)
    ensures
        r@ == "default"@,
{
    "default".to_owned()
}

/// Name of the layout used for Markdown documents when no other layout is
/// configured.
pub fn default_markdown_template() -> (r: String)
    ensures
        r@ == "default_markdown"@,
{
    "default_markdown".to_owned()
}

/// Name of the highlighting theme used when no other theme is configured.
pub fn default_highlight_theme() -> (r: String)
    ensures
        r@ == "css-classed"@,
{
    "css-classed".to_owned()
}

/// Generator config: default layout names and the process-wide
/// highlighting theme.
#[derive(Debug)]
pub struct Config {
    /// Default template
    pub default_template: String,
    /// Default markdown template
    pub default_markdown_template: String,
    /// Default highlight theme
    pub code_highlight_theme: String,
}

impl Config {
    /// True when both configs hold the same three names.
    pub open spec fn eq_spec(&self, other: &Config) -> bool {
        self.default_template@ == other.default_template@
            && self.default_markdown_template@ == other.default_markdown_template@
            && self.code_highlight_theme@ == other.code_highlight_theme@
    }
}

impl Clone for Config {
    fn clone(&self) -> (r: Config)
        ensures
            r.eq_spec(self),
    {
        Config {
            default_template: self.default_template.clone(),
            default_markdown_template: self.default_markdown_template.clone(),
            code_highlight_theme: self.code_highlight_theme.clone(),
        }
    }
}

impl Default for Config {
    /// The built-in configuration: "default", "default_markdown",
    /// "css-classed".
    fn default() -> (r: Config)
        ensures
            r.default_template@ == "default"@,
            r.default_markdown_template@ == "default_markdown"@,
            r.code_highlight_theme@ == "css-classed"@,
    {
        Config {
            default_template: default_template(),
            default_markdown_template: default_markdown_template(),
            code_highlight_theme: default_highlight_theme(),
        }
    }
}

/// The error counter after one more reported failure: it grows by one,
/// saturating at its maximum, so it never decreases.
pub open spec fn bump(errors: u32) -> u32 {
    if errors < u32::MAX {
        (errors + 1) as u32
    } else {
        u32::MAX
    }
}

/// Generator state: the template registry, the highlighting context, the
/// stylesheet load path, the configuration and the error counter.
pub struct OreStaty {
    /// Handlebars renderer: the registry of layouts and helpers.
    pub handlebars: handlebars::Handlebars<'static>,
    /// Syntax highlighting context resolved from the configuration:
    /// read-only after construction and shared as an immutable handle,
    /// since helper invocation may highlight from inside re-entrant
    /// template evaluation.
    pub syntax_highlighting: std::sync::Arc<syntax_highlighting::SyntaxHighlighting>,
    /// Load path handed to the stylesheet compiler once plugins are
    /// loaded, so stylesheets can import plugin-provided partials.
    pub sass_load_path: Option<String>,
    /// Root path of the project, against which theme files resolve.
    pub root_path: String,
    /// Config.
    pub config: Config,
    /// Number of errors reported so far; it only ever grows.
    pub errors: u32,
}

impl OreStaty {
    /// The number of errors reported so far.
    pub open spec fn spec_errors(&self) -> u32 {
        self.errors
    }

    /// The generator's configuration.
    pub open spec fn spec_config(&self) -> Config {
        self.config
    }

    /// The project root path, against which theme files resolve.
    pub open spec fn spec_root_path(&self) -> Seq<char> {
        self.root_path@
    }
}

/// Everything of the generator but its error counter is untouched.
pub open spec fn unchanged_but_errors(pre: &OreStaty, post: &OreStaty) -> bool {
    &&& post.handlebars == pre.handlebars
    &&& post.syntax_highlighting == pre.syntax_highlighting
    &&& post.sass_load_path == pre.sass_load_path
    &&& post.spec_root_path() == pre.spec_root_path()
    &&& post.spec_config() == pre.spec_config()
}

impl OreStaty {
    /// Create a new generator: an empty registry with the pass-through
    /// layout pre-registered under `default`, and the highlighting
    /// context resolved from the configured theme name (falling back to
    /// the built-in default theme when resolution fails).
    pub fn new(config: Config, root_path: &str) -> (r: OreStaty)
        ensures
            r.spec_errors() == 0,
            r.spec_config() == config,
            r.spec_root_path() == root_path@,
            r.sass_load_path is None,
            config.code_highlight_theme@ == "css-classed"@
                ==> r.syntax_highlighting.spec_theme() is CSSClassed,
    {
        let mut handlebars = page::hb_new();
        match page::hb_register_template_string(&mut handlebars, "default", "{{{content}}}") {
            Ok(()) => {},
            Err(err) => {
                emit_diagnostic(
                    strutil::concat2("Failed to register default template: ", err.as_str()).as_str(),
                );
            },
        }
        let syntax_highlighting = match syntax_highlighting::SyntaxHighlighting::new(
            config.code_highlight_theme.as_str(),
            root_path,
        ) {
            Some(s) => s,
            None => Default::default(),
        };
        OreStaty {
            handlebars,
            syntax_highlighting: std::sync::Arc::new(syntax_highlighting),
            sass_load_path: None,
            root_path: root_path.to_owned(),
            config,
            errors: 0,
        }
    }

    /// The generator's configuration.
    pub fn config(&self) -> (r: &Config)
        ensures
            *r == self.spec_config(),
    {
        &self.config
    }

    /// Report an error: the message is streamed at once and the counter
    /// grows by one.
    pub fn error(&mut self, message: &str)
        ensures
            unchanged_but_errors(old(self), final(self)),
            final(self).spec_errors() == bump(old(self).spec_errors()),
    {
        emit_diagnostic(message);
        if self.errors < u32::MAX {
            self.errors = self.errors + 1;
        }
    }

    /// "Unwrap" a result: an error is reported under the context message
    /// and counted once, and the value is gone.
    pub fn unwrap_or_error<T>(&mut self, result: Result<T, String>, message: &str) -> (r: Result<
        T,
        (),
    >)
        ensures
            unchanged_but_errors(old(self), final(self)),
            match result {
                Ok(v) => (r matches Ok(rv) && rv == v && final(self).spec_errors() == old(
                    self,
                ).spec_errors()),
                Err(_) => r is Err && final(self).spec_errors() == bump(old(self).spec_errors()),
            },
    {
        match result {
            Ok(v) => Ok(v),
            Err(err) => {
                let message: String = strutil::concat3(message, ": ", err.as_str());
                self.error(message.as_str());
                Err(())
            },
        }
    }

    /// The number of errors reported during the build; read once at the
    /// end to decide the exit status.
    pub fn errors(&self) -> (r: u32)
        ensures
            r == self.spec_errors(),
    {
        self.errors
    }
}

impl Default for OreStaty {
    /// A generator over the built-in configuration and an empty root.
    fn default() -> (r: OreStaty)
        ensures
            r.spec_errors() == 0,
    {
        OreStaty::new(Config::default(), "")
    }
}

impl OreStaty {
    /// Build a single source file, dispatched on the extension of its
    /// relative path: the compiled output together with the extension
    /// the output file carries.  A file of unknown extension is skipped
    /// with a warning, which is not an error.
    pub fn build_file(&mut self, src: &str, source: &str, relative_path: &str) -> (r: Result<
        (String, &'static str),
        (),
    >)
        ensures
            unchanged_but_errors(old(self), final(self)),
            r matches Ok(built) ==> Some(built.1@) == paths::spec_output_extension(
                paths::spec_file_kind(relative_path@),
            ),
            match paths::spec_file_kind(relative_path@) {
                paths::FileKind::Unknown => r is Err && final(self).spec_errors() == old(
                    self,
                ).spec_errors(),
                paths::FileKind::Markdown => final(self).spec_errors()
                    == markdown::markdown_error_count(
                    old(self).spec_errors(),
                    source@,
                    r is Err,
                ),
                _ => final(self).spec_errors() == if r is Ok {
                    old(self).spec_errors()
                } else {
                    bump(old(self).spec_errors())
                },
            },
    {
        match paths::file_kind(relative_path) {
            paths::FileKind::Page => match self.build_page(source, relative_path) {
                Ok(built) => Ok((built, "html")),
                Err(()) => Err(()),
            },
            paths::FileKind::Stylesheet => match self.build_sass(src, relative_path) {
                Ok(built) => Ok((built, "css")),
                Err(()) => Err(()),
            },
            paths::FileKind::Markdown => match self.build_markdown(source, relative_path) {
                Ok(built) => Ok((built, "html")),
                Err(()) => Err(()),
            },
            paths::FileKind::Unknown => {
                emit_diagnostic(
                    strutil::concat3(
                        "Warning: file extension is unknown. Skipping \"",
                        relative_path,
                        "\"; Maybe you wanted to put it into \"static\" directory?",
                    ).as_str(),
                );
                Err(())
            },
        }
    }
}

} // verus!
