//! The highlighting engine: a grammar set and a resolved theme.  A theme
//! name resolves to the CSS-classed marker, a built-in bundled theme or a
//! theme definition file, in that order.  A code fragment is highlighted
//! into one HTML fragment; `highlight_or_fallback` never fails outward.

use vstd::prelude::*;
use vstd::string::StrSliceExecFns;
use vstd::string::StringExecFns;

use crate::emit_diagnostic;
use crate::markdown::html_event;
use crate::markdown::opt_view;
use crate::markdown::tokens_of;
use crate::markdown::MdEvent;
use crate::markdown::MdToken;
use crate::markdown::MdTokenView;
use crate::strutil::concat2;
use crate::strutil::concat3;
use crate::strutil::join_names;
use crate::strutil::str_eq;

verus! {

/// The class prefix of CSS-classed highlighting output.
pub const PREFIX: &'static str = "z-";

#[verifier::external_type_specification]
#[verifier::external_body]
pub struct ExSyntaxSet(syntect::parsing::SyntaxSet);

#[verifier::external_type_specification]
#[verifier::external_body]
pub struct ExSyntectTheme(syntect::highlighting::Theme);

/// Syntax highlighting theme: either the CSS-classed marker, which emits
/// semantic class names and bakes no color in, or an owned, fully
/// resolved color theme.
pub enum ThemeHandle {
    /// Emit semantic CSS classes; colors come from a stylesheet.
    CSSClassed,
    /// A fully resolved color theme.
    Syntect(Box<syntect::highlighting::Theme>),
}

impl Default for ThemeHandle {
    /// The default theme is the CSS-classed marker.
    fn default() -> (r: ThemeHandle)
        ensures
            r is CSSClassed,
    {
        ThemeHandle::CSSClassed
    }
}

/// Syntax highlighting context: the default grammar set and the resolved
/// theme.  Both are immutable after construction and shared read-only by
/// every highlighting call of a build.
pub struct SyntaxHighlighting {
    syntax_set: syntect::parsing::SyntaxSet,
    theme: ThemeHandle,
}

impl SyntaxHighlighting {
    /// The resolved theme.
    pub closed spec fn spec_theme(&self) -> &ThemeHandle {
        &self.theme
    }
}

/// The value of an optional borrowed string.
pub open spec fn opt_ref_view(o: Option<&str>) -> Option<Seq<char>> {
    match o {
        Some(s) => Some(s@),
        None => None,
    }
}

/// Whether the default grammar set resolves this token (a name or a file
/// extension) to a syntax.
pub uninterp spec fn syntax_token_known(token: Seq<char>) -> bool;

/// Whether the name is the key of one of the built-in bundled themes.
pub uninterp spec fn builtin_theme_known(name: Seq<char>) -> bool;

/// What CSS-classed highlighting yields for a code fragment, under a
/// class prefix and keyed by an optional language token: the grammar is
/// the one the fixed default set resolves for the token, else the one
/// recognized from the fragment's first line, else plain text, and
/// classed generation is deterministic — a function of the three
/// arguments alone.
pub uninterp spec fn classed_html_of(prefix: Seq<char>, token: Option<Seq<char>>, code: Seq<char>) -> Seq<char>;

/// Relies on syntect::parsing::SyntaxSet::load_defaults_newlines: the
/// default grammar set, with newline-terminated patterns.
#[verifier::external_body]
fn default_syntax_set() -> syntect::parsing::SyntaxSet {
    syntect::parsing::SyntaxSet::load_defaults_newlines()
}

/// Relies on syntect::highlighting::ThemeSet::load_defaults: the built-in
/// theme set is fixed, so which names it holds depends on the name alone;
/// its documentation lists `InspiredGitHub` among its keys.
#[verifier::external_body]
fn builtin_theme(name: &str) -> (r: Option<Box<syntect::highlighting::Theme>>)
    ensures
        r is Some <==> builtin_theme_known(name@),
        name@ == "InspiredGitHub"@ ==> r is Some,
{
    syntect::highlighting::ThemeSet::load_defaults().themes.remove(name).map(Box::new)
}

/// Relies on syntect::highlighting::ThemeSet::load_defaults: the names of
/// the built-in themes, for the resolution-failure hint.
#[verifier::external_body]
fn builtin_theme_names() -> Vec<String> {
    syntect::highlighting::ThemeSet::load_defaults().themes.keys().cloned().collect()
}

/// Relies on syntect::highlighting::ThemeSet::get_theme: reads and parses
/// a theme definition file; the result depends on what is on disk.
#[verifier::external_body]
fn load_theme_file(path: &str) -> (r: Result<Box<syntect::highlighting::Theme>, String>) {
    match syntect::highlighting::ThemeSet::get_theme(std::path::Path::new(path)) {
        Ok(theme) => Ok(Box::new(theme)),
        Err(err) => Err(err.to_string()),
    }
}

/// Relies on std::path::Path::exists: whether the path points at an
/// existing file or directory; depends on what is on disk.
#[verifier::external_body]
fn path_exists(path: &str) -> bool {
    std::path::Path::new(path).exists()
}

/// The root path joined with the theme name by a separator, or the name
/// alone under an empty root.
fn join_path(root: &str, name: &str) -> (r: String)
    ensures
        r@ == if root@.len() == 0 {
            name@
        } else {
            root@ + "/"@ + name@
        },
{
    if root.unicode_len() == 0 {
        name.to_owned()
    } else {
        concat3(root, "/", name)
    }
}

impl SyntaxHighlighting {
    /// Relies on syntect::parsing::SyntaxSet::find_syntax_by_token: every
    /// context holds the default grammar set (the constructors admit no
    /// other), so whether a token resolves depends on the token alone.
    #[verifier::external_body]
    fn syntax_token_is_known(&self, token: &str) -> (r: bool)
        ensures
            r == syntax_token_known(token@),
    {
        self.syntax_set.find_syntax_by_token(token).is_some()
    }

    /// Relies on syntect::parsing::SyntaxSet::syntaxes: the names of the
    /// grammars of the set, for diagnostics.
    #[verifier::external_body]
    fn syntax_names(&self) -> Vec<String> {
        self.syntax_set.syntaxes().iter().map(|syntax| syntax.name.clone()).collect()
    }

    /// Relies on syntect::parsing::SyntaxSet::{find_syntax_by_token,
    /// find_syntax_by_first_line, find_syntax_plain_text} and
    /// syntect::html::ClassedHTMLGenerator: the grammar is resolved for
    /// the token against the fixed default set (else from the fragment's
    /// first line, else plain text), and generation parses the fragment
    /// line by line, each chunk keeping its newline, as line-oriented
    /// grammars require.  Generation is deterministic, so the result is
    /// a function of the prefix, the token and the fragment alone.
    #[verifier::external_body]
    fn classed_inner_html(&self, code: &str, token: Option<&str>, prefix: &'static str) -> (r:
        Result<String, String>)
        ensures
            r is Ok ==> r->Ok_0@ == classed_html_of(prefix@, opt_ref_view(token), code@),
    {
        let syntax = token
            .and_then(|t| self.syntax_set.find_syntax_by_token(t))
            .or_else(|| self.syntax_set.find_syntax_by_first_line(code))
            .unwrap_or_else(|| self.syntax_set.find_syntax_plain_text());
        let style = syntect::html::ClassStyle::SpacedPrefixed { prefix };
        let mut generator = syntect::html::ClassedHTMLGenerator::new_with_class_style(
            syntax,
            &self.syntax_set,
            style,
        );
        for line in syntect::util::LinesWithEndings::from(code) {
            generator.parse_html_for_line_which_includes_newline(line).map_err(|e| e.to_string())?;
        }
        Ok(generator.finalize())
    }

    /// Relies on syntect::html::highlighted_html_for_string, with the
    /// same grammar resolution: one fully styled fragment whose
    /// documented shape is a single `<pre style="...">` block closed by
    /// `</pre>` and a newline.  Its colors turn on the opaque theme
    /// value, of which nothing more is claimed.
    #[verifier::external_body]
    fn themed_highlight(
        &self,
        code: &str,
        token: Option<&str>,
        theme: &syntect::highlighting::Theme,
    ) -> (r: Result<String, String>)
        ensures
            r is Ok ==> (exists|inner: Seq<char>|
                r->Ok_0@ == "<pre style=\""@ + inner + "</pre>\n"@),
    {
        let syntax = token
            .and_then(|t| self.syntax_set.find_syntax_by_token(t))
            .or_else(|| self.syntax_set.find_syntax_by_first_line(code))
            .unwrap_or_else(|| self.syntax_set.find_syntax_plain_text());
        syntect::html::highlighted_html_for_string(code, &self.syntax_set, syntax, theme).map_err(
            |err| err.to_string(),
        )
    }
}

/// Relies on syntect::html::css_for_theme_with_class_style: a stylesheet
/// mapping the classed scheme under the given prefix to the theme's
/// colors.
#[verifier::external_body]
fn theme_css(
    theme: &syntect::highlighting::Theme,
    prefix: &'static str,
) -> Result<String, String> {
    syntect::html::css_for_theme_with_class_style(
        theme,
        syntect::html::ClassStyle::SpacedPrefixed { prefix },
    ).map_err(|err| err.to_string())
}

/// What a fallible highlighting call may hand back for a fragment keyed
/// by a token: under the classed theme, the generic `<pre><code>` wrapper
/// around the named classed result; under a resolved theme, one fully
/// styled fragment; either way — when highlighting failed inside and the
/// caller fell back — the fragment itself, unhighlighted, in a bare
/// wrapper.
pub open spec fn highlight_outcome(
    classed: bool,
    token: Option<Seq<char>>,
    code: Seq<char>,
    r: Seq<char>,
) -> bool {
    if classed {
        r == "<pre><code>"@ + classed_html_of(PREFIX@, token, code) + "</code></pre>"@ || r
            == "<pre><code>"@ + code + "</code></pre>"@
    } else {
        (exists|inner: Seq<char>| r == "<pre style=\""@ + inner + "</pre>\n"@) || r
            == "<pre><code>"@ + code + "</code></pre>"@
    }
}

impl SyntaxHighlighting {
    /// Create a new highlighting context by resolving the theme name: the
    /// literal `css-classed` yields the classed marker; a built-in theme
    /// name yields that theme; otherwise the name joined to the root
    /// path, if it exists as a file, is loaded as a theme definition;
    /// otherwise resolution fails with a hint listing the built-in
    /// themes, and the caller falls back to a default.
    pub fn new(theme: &str, root_path: &str) -> (r: Option<SyntaxHighlighting>)
        ensures
            theme@ == "css-classed"@ ==> (r matches Some(s) && s.spec_theme() is CSSClassed),
            theme@ != "css-classed"@ && builtin_theme_known(theme@) ==> (r matches Some(s)
                && s.spec_theme() is Syntect),
            r matches Some(s) ==> (s.spec_theme() is CSSClassed <==> theme@ == "css-classed"@),
    {
        if str_eq(theme, "css-classed") {
            Some(
                SyntaxHighlighting {
                    syntax_set: default_syntax_set(),
                    theme: ThemeHandle::CSSClassed,
                },
            )
        } else {
            let resolved: Box<syntect::highlighting::Theme> = match builtin_theme(theme) {
                Some(t) => t,
                None => {
                    let path: String = join_path(root_path, theme);
                    if path_exists(path.as_str()) {
                        match load_theme_file(path.as_str()) {
                            Ok(t) => t,
                            Err(err) => {
                                emit_diagnostic(
                                    concat2("Failed to load theme file: ", err.as_str()).as_str(),
                                );
                                return None;
                            },
                        }
                    } else {
                        let mut names: Vec<String> = builtin_theme_names();
                        names.push("css-classed".to_owned());
                        let hint: String = join_names(&names, ", ");
                        let message: String = concat3(
                            "Theme \"",
                            theme,
                            "\" could not be found, as it is not built-in, nor a file. Built in themes: ",
                        );
                        emit_diagnostic(concat2(message.as_str(), hint.as_str()).as_str());
                        return None;
                    }
                },
            };
            Some(
                SyntaxHighlighting {
                    syntax_set: default_syntax_set(),
                    theme: ThemeHandle::Syntect(resolved),
                },
            )
        }
    }

    /// Export the resolved theme as a stylesheet mapping the classed
    /// scheme to its colors.  The CSS-classed marker has no colors to
    /// export: that is reported as a non-fatal failure.
    pub fn export_theme(&self) -> (r: Option<String>)
        ensures
            self.spec_theme() is CSSClassed ==> r is None,
    {
        match &self.theme {
            ThemeHandle::CSSClassed => {
                emit_diagnostic("css-classed theme can't be exported as CSS!");
                None
            },
            ThemeHandle::Syntect(theme) => {
                match theme_css(theme, PREFIX) {
                    Ok(css) => Some(css),
                    Err(err) => {
                        emit_diagnostic(
                            concat2("Failed exporting CSS for the theme: ", err.as_str()).as_str(),
                        );
                        None
                    },
                }
            },
        }
    }

    /// Highlight a piece of code, keyed by an optional syntax token (the
    /// grammar resolved for the token, else the one recognized from the
    /// fragment's first line, else plain text).  Under the classed theme
    /// the result is the named classed generation of exactly this
    /// fragment in a generic `<pre><code>` wrapper; under a resolved
    /// theme it is one fully styled fragment.
    pub fn highlight(&self, code: &str, syntax_token: Option<&str>) -> (r: Result<String, String>)
        ensures
            self.spec_theme() is CSSClassed ==> (r is Ok ==> r->Ok_0@ == "<pre><code>"@
                + classed_html_of(PREFIX@, opt_ref_view(syntax_token), code@) + "</code></pre>"@),
            self.spec_theme() is Syntect ==> (r is Ok ==> (exists|inner: Seq<char>|
                r->Ok_0@ == "<pre style=\""@ + inner + "</pre>\n"@)),
    {
        match &self.theme {
            ThemeHandle::CSSClassed => {
                match self.classed_inner_html(code, syntax_token, PREFIX) {
                    Ok(inner) => {
                        let wrapped: String = concat3(
                            "<pre><code>",
                            inner.as_str(),
                            "</code></pre>",
                        );
                        Ok(wrapped)
                    },
                    Err(err) => Err(err),
                }
            },
            ThemeHandle::Syntect(theme) => self.themed_highlight(code, syntax_token, theme),
        }
    }

    /// Highlight a piece of code; on an internal highlighting failure the
    /// failure is reported as a warning and the code comes back
    /// unhighlighted in a bare `<pre><code>` wrapper.  This never fails
    /// outward.
    pub fn highlight_or_fallback(&self, code: &str, syntax_token: Option<&str>) -> (r: String)
        ensures
            highlight_outcome(
                self.spec_theme() is CSSClassed,
                opt_ref_view(syntax_token),
                code@,
                r@,
            ),
    {
        match self.highlight(code, syntax_token) {
            Ok(html) => html,
            Err(err) => {
                emit_diagnostic(concat2("Warning: Failed to highlight: ", err.as_str()).as_str());
                let fallback: String = concat3("<pre><code>", code, "</code></pre>");
                fallback
            },
        }
    }
}

impl Default for SyntaxHighlighting {
    /// The default context: the built-in `InspiredGitHub` theme, which
    /// the bundled theme set always holds.
    fn default() -> (r: SyntaxHighlighting)
        ensures
            r.spec_theme() is Syntect,
    {
        match builtin_theme("InspiredGitHub") {
            Some(t) => SyntaxHighlighting {
                syntax_set: default_syntax_set(),
                theme: ThemeHandle::Syntect(t),
            },
            None => {
                // The wrapper's contract names `InspiredGitHub` as a key
                // of the built-in set, so this branch cannot be reached.
                assert(false);
                SyntaxHighlighting { syntax_set: default_syntax_set(), theme: ThemeHandle::CSSClassed }
            },
        }
    }
}

/// The `(language, code)` of each code block of the token sequence, in
/// order, entered with the block being accumulated (if any): text inside
/// a block is collected into its code; `None` when block starts and ends
/// are not properly paired.
pub open spec fn blocks_from(
    tokens: Seq<MdTokenView>,
    cur: Option<(Option<Seq<char>>, Seq<char>)>,
) -> Option<Seq<(Option<Seq<char>>, Seq<char>)>>
    decreases tokens.len(),
{
    if tokens.len() == 0 {
        match cur {
            None => Some(Seq::empty()),
            Some(_) => None,
        }
    } else {
        let rest = tokens.drop_first();
        match cur {
            None => match tokens[0] {
                MdTokenView::CodeStart(lang) => blocks_from(rest, Some((lang, Seq::empty()))),
                MdTokenView::CodeEnd => None,
                _ => blocks_from(rest, None),
            },
            Some(block) => match tokens[0] {
                MdTokenView::CodeEnd => match blocks_from(rest, None) {
                    Some(blocks) => Some(seq![block] + blocks),
                    None => None,
                },
                MdTokenView::Text(t) => blocks_from(rest, Some((block.0, block.1 + t))),
                MdTokenView::CodeStart(_) => None,
                _ => blocks_from(rest, Some(block)),
            },
        }
    }
}

/// The code blocks of a token sequence, or `None` when starts and ends
/// are not properly paired.
pub open spec fn spec_code_blocks(tokens: Seq<MdTokenView>) -> Option<
    Seq<(Option<Seq<char>>, Seq<char>)>,
> {
    blocks_from(tokens, None)
}

/// Whether every code-block start is ended and no end lacks a start.
pub open spec fn balanced_code(tokens: Seq<MdTokenView>) -> bool {
    spec_code_blocks(tokens) is Some
}

/// The token sequence with each code block replaced by one raw-HTML
/// token taken from `htmls` in order: block starts and their text vanish,
/// the block's HTML is emitted at its end, everything else passes
/// through unchanged in place.
pub open spec fn splice_from(
    tokens: Seq<MdTokenView>,
    inside: bool,
    htmls: Seq<Seq<char>>,
) -> Seq<MdTokenView>
    decreases tokens.len(),
{
    if tokens.len() == 0 {
        Seq::empty()
    } else {
        let rest = tokens.drop_first();
        if inside {
            match tokens[0] {
                MdTokenView::CodeEnd => if htmls.len() > 0 {
                    seq![MdTokenView::Html(htmls[0])] + splice_from(rest, false, htmls.drop_first())
                } else {
                    splice_from(rest, false, htmls)
                },
                MdTokenView::Text(_) => splice_from(rest, true, htmls),
                _ => seq![tokens[0]] + splice_from(rest, true, htmls),
            }
        } else {
            match tokens[0] {
                MdTokenView::CodeStart(_) => splice_from(rest, true, htmls),
                _ => seq![tokens[0]] + splice_from(rest, false, htmls),
            }
        }
    }
}

/// What the rewrite pass does with one event.
enum RwAction {
    /// A code block begins, keyed by its optional language token.
    Start(Option<String>),
    /// The pending code block ends.
    End,
    /// A text node, swallowed into the pending block if one is open.
    Text(String),
    /// Anything else passes through.
    Pass,
}

/// Read off what the rewrite pass does with an event of this token.
fn classify_event(t: &MdToken) -> (a: RwAction)
    ensures
        match a {
            RwAction::Start(lang) => t@ == MdTokenView::CodeStart(opt_view(lang)),
            RwAction::End => t@ == MdTokenView::CodeEnd,
            RwAction::Text(s) => t@ == MdTokenView::Text(s@),
            RwAction::Pass => !(t@ matches MdTokenView::CodeStart(_)) && t@
                != MdTokenView::CodeEnd && !(t@ matches MdTokenView::Text(_)),
        },
{
    match t {
        MdToken::CodeStart(lang) => RwAction::Start(
            match lang {
                Some(l) => Some(l.clone()),
                None => None,
            },
        ),
        MdToken::CodeEnd => RwAction::End,
        MdToken::Text(s) => RwAction::Text(s.clone()),
        _ => RwAction::Pass,
    }
}

/// The pending block as a mathematical value.
pub open spec fn pending_view(cur: Option<(Option<String>, String)>) -> Option<
    (Option<Seq<char>>, Seq<char>),
> {
    match cur {
        Some(p) => Some((opt_view(p.0), p.1@)),
        None => None,
    }
}

impl SyntaxHighlighting {
    /// Rewrite every code block of the event sequence into one synthetic
    /// raw-HTML event holding `highlight_or_fallback` of the block's
    /// accumulated text, keyed by the fenced language token; every other
    /// event passes through unchanged, in order.  A sequence whose block
    /// starts and ends are not properly paired is refused whole (the
    /// parser guarantees balanced pairs, so that is an
    /// internal-consistency failure of the document, never of a language
    /// token: an unrecognized token still highlights, as plain text).
    #[verifier::loop_isolation(false)]
    pub fn highlight_markdown(&self, events: Vec<MdEvent>) -> (r: Result<Vec<MdEvent>, ()>)
        ensures
            r is Ok <==> balanced_code(tokens_of(events@)),
            r matches Ok(out) ==> exists|htmls: Seq<Seq<char>>|
                {
                    let blocks = spec_code_blocks(tokens_of(events@))->Some_0;
                    &&& tokens_of(out@) == #[trigger] splice_from(tokens_of(events@), false, htmls)
                    &&& htmls.len() == blocks.len()
                    &&& forall|k: int|
                        0 <= k < htmls.len() ==> highlight_outcome(
                            self.spec_theme() is CSSClassed,
                            blocks[k].0,
                            blocks[k].1,
                            htmls[k],
                        )
                },
    {
        let ghost orig: Seq<MdTokenView> = tokens_of(events@);
        let ghost classed: bool = self.spec_theme() is CSSClassed;
        let mut events = events;
        let mut out: Vec<MdEvent> = Vec::new();
        let mut cur: Option<(Option<String>, String)> = None;
        let ghost mut htmls_done: Seq<Seq<char>> = Seq::empty();
        let ghost mut blocks_done: Seq<(Option<Seq<char>>, Seq<char>)> = Seq::empty();
        while events.len() > 0
            invariant
                htmls_done.len() == blocks_done.len(),
                match blocks_from(tokens_of(events@), pending_view(cur)) {
                    Some(blocks) => blocks_from(orig, None) == Some(blocks_done + blocks),
                    None => blocks_from(orig, None) is None,
                },
                forall|future: Seq<Seq<char>>|
                    #[trigger] splice_from(orig, false, htmls_done + future) == tokens_of(out@)
                        + splice_from(tokens_of(events@), pending_view(cur) is Some, future),
                forall|k: int|
                    0 <= k < htmls_done.len() ==> highlight_outcome(
                        classed,
                        blocks_done[k].0,
                        blocks_done[k].1,
                        htmls_done[k],
                    ),
            decreases events.len(),
        {
            let ghost rem = tokens_of(events@);
            let ghost entry_pending = pending_view(cur);
            let ghost entry_out = out@;
            let event = events.remove(0);
            proof {
                assert(rem[0] == event.token@);
                assert(rem.drop_first() =~= tokens_of(events@));
            }
            let action: RwAction = classify_event(&event.token);
            match action {
                RwAction::Start(lang) => {
                    if cur.is_some() {
                        // A block begins inside a block: refuse the
                        // document.
                        proof {
                            assert(blocks_from(rem, entry_pending) is None);
                        }
                        return Err(());
                    }
                    cur = Some((lang, String::new()));
                    proof {
                        assert(pending_view(cur) == Some(
                            (opt_view(cur->Some_0.0), Seq::<char>::empty()),
                        ));
                        assert forall|future: Seq<Seq<char>>|
                            #[trigger] splice_from(orig, false, htmls_done + future) == tokens_of(
                                out@,
                            ) + splice_from(tokens_of(events@), true, future) by {
                            assert(splice_from(rem, false, future) == splice_from(
                                tokens_of(events@),
                                true,
                                future,
                            ));
                        }
                    }
                },
                RwAction::End => {
                    let pending = cur.take();
                    match pending {
                        None => {
                            // A block ends without having begun: refuse
                            // the document.
                            proof {
                                assert(blocks_from(rem, entry_pending) is None);
                            }
                            return Err(());
                        },
                        Some((lang, code)) => {
                            let token: Option<&str> = match &lang {
                                Some(l) => Some(l.as_str()),
                                None => None,
                            };
                            proof {
                                assert(opt_ref_view(token) == opt_view(lang));
                            }
                            let html: String = self.highlight_or_fallback(code.as_str(), token);
                            let ghost h = html@;
                            let ghost b = (opt_view(lang), code@);
                            let ghost old_htmls = htmls_done;
                            out.push(html_event(html));
                            proof {
                                htmls_done = old_htmls + seq![h];
                                blocks_done = blocks_done.push(b);
                                assert(entry_pending == Some(b));
                                assert(tokens_of(out@) =~= tokens_of(entry_out) + seq![
                                    MdTokenView::Html(h),
                                ]);
                                assert forall|future: Seq<Seq<char>>|
                                    #[trigger] splice_from(orig, false, htmls_done + future)
                                        == tokens_of(out@) + splice_from(
                                        tokens_of(events@),
                                        false,
                                        future,
                                    ) by {
                                    let prev = seq![h] + future;
                                    assert(htmls_done + future =~= old_htmls + prev);
                                    assert(splice_from(orig, false, old_htmls + prev) == tokens_of(
                                        entry_out,
                                    ) + splice_from(rem, true, prev));
                                    assert(prev[0] == h);
                                    assert(prev.drop_first() =~= future);
                                    assert(splice_from(rem, true, prev) == seq![
                                        MdTokenView::Html(h),
                                    ] + splice_from(tokens_of(events@), false, future));
                                }
                                assert forall|blocks: Seq<(Option<Seq<char>>, Seq<char>)>|
                                    blocks_from(tokens_of(events@), pending_view(cur))
                                        == Some::<Seq<(Option<Seq<char>>, Seq<char>)>>(blocks)
                                        implies blocks_from(orig, None) == Some(
                                        blocks_done + blocks,
                                    ) by {
                                    assert(blocks_from(rem, entry_pending) == Some(
                                        seq![b] + blocks,
                                    ));
                                    assert((blocks_done.drop_last() + (seq![b] + blocks)) =~= (
                                    blocks_done + blocks));
                                }
                            }
                        },
                    }
                },
                RwAction::Text(text) => {
                    let taken = cur.take();
                    match taken {
                        Some((lang, code)) => {
                            let code: String = code.concat(text.as_str());
                            cur = Some((lang, code));
                            proof {
                                assert(pending_view(cur) == Some(
                                    (
                                        entry_pending->Some_0.0,
                                        entry_pending->Some_0.1 + rem[0]->Text_0,
                                    ),
                                ));
                            }
                        },
                        None => {
                            cur = None;
                            out.push(event);
                            proof {
                                assert(tokens_of(out@) =~= tokens_of(entry_out) + seq![rem[0]]);
                                assert forall|future: Seq<Seq<char>>|
                                    #[trigger] splice_from(orig, false, htmls_done + future)
                                        == tokens_of(out@) + splice_from(
                                        tokens_of(events@),
                                        false,
                                        future,
                                    ) by {
                                    assert(splice_from(orig, false, htmls_done + future)
                                        == tokens_of(entry_out) + splice_from(rem, false, future));
                                    assert(splice_from(rem, false, future) == seq![rem[0]]
                                        + splice_from(tokens_of(events@), false, future));
                                }
                            }
                        },
                    }
                },
                RwAction::Pass => {
                    let ghost inside = pending_view(cur) is Some;
                    out.push(event);
                    proof {
                        assert(tokens_of(out@) =~= tokens_of(entry_out) + seq![rem[0]]);
                        assert forall|future: Seq<Seq<char>>|
                            #[trigger] splice_from(orig, false, htmls_done + future) == tokens_of(
                                out@,
                            ) + splice_from(tokens_of(events@), inside, future) by {
                            assert(splice_from(orig, false, htmls_done + future) == tokens_of(
                                entry_out,
                            ) + splice_from(rem, inside, future));
                            assert(splice_from(rem, inside, future) == seq![rem[0]] + splice_from(
                                tokens_of(events@),
                                inside,
                                future,
                            ));
                        }
                    }
                },
            }
        }
        proof {
            assert(tokens_of(events@) =~= Seq::<MdTokenView>::empty());
        }
        if cur.is_some() {
            // A block never ended: refuse the document.
            proof {
                assert(blocks_from(tokens_of(events@), pending_view(cur)) is None);
            }
            return Err(());
        }
        proof {
            assert(splice_from(orig, false, htmls_done + Seq::<Seq<char>>::empty()) == tokens_of(
                out@,
            ) + splice_from(tokens_of(events@), false, Seq::empty()));
            assert(htmls_done + Seq::<Seq<char>>::empty() =~= htmls_done);
            assert(blocks_done + Seq::<(Option<Seq<char>>, Seq<char>)>::empty() =~= blocks_done);
            assert(blocks_from(orig, None) == Some(blocks_done));
        }
        Ok(out)
    }
}

/// What `str::trim` leaves: the string without its leading and trailing
/// whitespace; a function of the characters alone.
pub uninterp spec fn trim_of(s: Seq<char>) -> Seq<char>;

/// Relies on str::trim.
#[verifier::external_body]
fn trim(s: &str) -> (r: String)
    ensures
        r@ == trim_of(s@),
{
    s.trim().to_owned()
}

/// What `unindent::unindent` returns: the block with its common
/// indentation removed; a function of the characters alone.
pub uninterp spec fn unindent_of(s: Seq<char>) -> Seq<char>;

/// Relies on unindent::unindent.
#[verifier::external_body]
fn unindent_str(s: &str) -> (r: String)
    ensures
        r@ == unindent_of(s@),
{
    unindent::unindent(s)
}

impl SyntaxHighlighting {
    /// The inline template primitive: highlight a literal code body,
    /// trimmed and unindented first.  An explicitly named syntax must be
    /// an exact grammar match — otherwise this errors with the list of
    /// supported syntaxes; without a name the first line decides.  The
    /// highlighting itself never fails outward.
    pub fn inline_highlight(&self, code: &str, syntax_name: Option<&str>) -> (r: Result<
        String,
        String,
    >)
        ensures
            match syntax_name {
                Some(name) => r is Ok <==> syntax_token_known(name@),
                None => r is Ok,
            },
            r is Ok ==> highlight_outcome(
                self.spec_theme() is CSSClassed,
                opt_ref_view(syntax_name),
                unindent_of(trim_of(code@)),
                r->Ok_0@,
            ),
    {
        let trimmed: String = trim(code);
        let cleaned: String = unindent_str(trimmed.as_str());
        match syntax_name {
            Some(name) => {
                if self.syntax_token_is_known(name) {
                    Ok(self.highlight_or_fallback(cleaned.as_str(), Some(name)))
                } else {
                    let names: Vec<String> = self.syntax_names();
                    let list: String = join_names(&names, ", ");
                    let head: String = concat3(
                        "Unsupported syntax ",
                        name,
                        ". Supported syntaxes: ",
                    );
                    Err(head.concat(list.as_str()))
                }
            },
            None => Ok(self.highlight_or_fallback(cleaned.as_str(), None)),
        }
    }
}

} // verus!
