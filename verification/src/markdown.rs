//! The Markdown compiler: a source text is parsed into an event sequence;
//! a single pass accumulates the embedded metadata text while leaving the
//! sequence untouched; code blocks are rewritten by the highlighting
//! engine; the result is serialized to HTML and wrapped in a layout.

use vstd::prelude::*;
use vstd::string::StringExecFns;

use crate::bump;
use crate::emit_diagnostic;
use crate::json::Json;
use crate::page::hb_register_template_string;
use crate::page::is_opt_str_json;
use crate::page::PageData;
use crate::strutil::concat2;
use crate::syntax_highlighting::balanced_code;
use crate::syntax_highlighting::SyntaxHighlighting;
use crate::unchanged_but_errors;
use crate::OreStaty;

use pulldown_cmark::CodeBlockKind;
use pulldown_cmark::Event;
use pulldown_cmark::MetadataBlockKind;
use pulldown_cmark::Tag;
use pulldown_cmark::TagEnd;

verus! {

/// What the pipeline reads of one Markdown event.  Events the pipeline
/// does not inspect are `Other` and pass through untouched.
pub enum MdToken {
    /// Start of a YAML-style embedded metadata block.
    MetadataStart,
    /// End of a YAML-style embedded metadata block.
    MetadataEnd,
    /// A text node, with its payload.
    Text(String),
    /// Start of a code block, with the fence's language token (`None`
    /// for an indented block).
    CodeStart(Option<String>),
    /// End of a code block.
    CodeEnd,
    /// A raw HTML node, with its payload.
    Html(String),
    /// Any other event.
    Other,
}

/// The value of an optional string: its characters, if present.
pub open spec fn opt_view(o: Option<String>) -> Option<Seq<char>> {
    match o {
        Some(s) => Some(s@),
        None => None,
    }
}

/// The mathematical value of a token: its payloads as character
/// sequences.
#[verifier::ext_equal]
pub enum MdTokenView {
    /// Start of a metadata block.
    MetadataStart,
    /// End of a metadata block.
    MetadataEnd,
    /// A text node.
    Text(Seq<char>),
    /// Start of a code block with an optional language token.
    CodeStart(Option<Seq<char>>),
    /// End of a code block.
    CodeEnd,
    /// A raw HTML node.
    Html(Seq<char>),
    /// Any other event.
    Other,
}

impl View for MdToken {
    type V = MdTokenView;

    open spec fn view(&self) -> MdTokenView {
        match self {
            MdToken::MetadataStart => MdTokenView::MetadataStart,
            MdToken::MetadataEnd => MdTokenView::MetadataEnd,
            MdToken::Text(t) => MdTokenView::Text(t@),
            MdToken::CodeStart(lang) => MdTokenView::CodeStart(
                match lang {
                    Some(l) => Some(l@),
                    None => None,
                },
            ),
            MdToken::CodeEnd => MdTokenView::CodeEnd,
            MdToken::Html(h) => MdTokenView::Html(h@),
            MdToken::Other => MdTokenView::Other,
        }
    }
}

#[verifier::external_type_specification]
#[verifier::external_body]
pub struct ExEvent<'a>(Event<'a>);

/// One parsed Markdown event: the token the pipeline reads of it, and the
/// underlying event itself, carried through verbatim to serialization.
pub struct MdEvent {
    /// What the pipeline reads of the event.
    pub token: MdToken,
    /// The underlying event, passed through verbatim.
    pub raw: Event<'static>,
}

/// The token values of an event sequence.
pub open spec fn tokens_of(events: Seq<MdEvent>) -> Seq<MdTokenView> {
    events.map_values(|e: MdEvent| e.token@)
}

/// The token sequence that parsing a Markdown source yields, with the
/// parser's full option set enabled; a function of the source text alone.
pub uninterp spec fn md_tokens_of(source: Seq<char>) -> Seq<MdTokenView>;

/// Relies on the shape of pulldown_cmark::Event: reads which kind of
/// event this is (and its text, language or HTML payload) and carries the
/// event itself through whole.
#[verifier::external_body]
fn wrap_event(event: Event<'static>) -> MdEvent {
    let token = match &event {
        Event::Start(Tag::MetadataBlock(MetadataBlockKind::YamlStyle)) => MdToken::MetadataStart,
        Event::End(TagEnd::MetadataBlock(MetadataBlockKind::YamlStyle)) => MdToken::MetadataEnd,
        Event::Start(Tag::CodeBlock(CodeBlockKind::Fenced(lang))) => MdToken::CodeStart(Some(
            lang.to_string(),
        )),
        Event::Start(Tag::CodeBlock(CodeBlockKind::Indented)) => MdToken::CodeStart(None),
        Event::End(TagEnd::CodeBlock) => MdToken::CodeEnd,
        Event::Text(text) => MdToken::Text(text.to_string()),
        Event::Html(html) => MdToken::Html(html.to_string()),
        _ => MdToken::Other,
    };
    MdEvent { token, raw: event }
}

/// Relies on pulldown_cmark::Parser::new_ext, with every option enabled:
/// parsing is a function of the source text alone.
#[verifier::external_body]
pub fn parse_markdown(source: &str) -> (r: Vec<MdEvent>)
    ensures
        tokens_of(r@) == md_tokens_of(source@),
{
    pulldown_cmark::Parser::new_ext(source, pulldown_cmark::Options::all())
        .map(|event| wrap_event(event.into_static()))
        .collect()
}

/// Relies on pulldown_cmark::html::push_html: serializes the events, in
/// order, to one HTML string.
#[verifier::external_body]
pub(crate) fn events_to_html(events: Vec<MdEvent>) -> String {
    let mut out = String::new();
    pulldown_cmark::html::push_html(&mut out, events.into_iter().map(|e| e.raw));
    out
}

/// Relies on pulldown_cmark::Event::Html: a synthetic raw-HTML event.
#[verifier::external_body]
fn raw_html_event(html: &str) -> Event<'static> {
    Event::Html(pulldown_cmark::CowStr::from(html.to_owned()))
}

/// A synthetic event carrying the given string as raw HTML.
pub(crate) fn html_event(html: String) -> (e: MdEvent)
    ensures
        e.token@ == MdTokenView::Html(html@),
{
    let copy: String = html.clone();
    MdEvent { token: MdToken::Html(html), raw: raw_html_event(copy.as_str()) }
}

/// The embedded metadata text that remains to be accumulated from
/// `tokens`, entered with the given accumulating flag: text inside a
/// metadata block is collected, every event is left in place.
pub open spec fn fm_from(tokens: Seq<MdTokenView>, accumulating: bool) -> Seq<char>
    decreases tokens.len(),
{
    if tokens.len() == 0 {
        Seq::empty()
    } else {
        let rest = tokens.drop_first();
        match tokens[0] {
            MdTokenView::MetadataStart => fm_from(rest, true),
            MdTokenView::MetadataEnd => fm_from(rest, false),
            MdTokenView::Text(t) => if accumulating {
                t + fm_from(rest, true)
            } else {
                fm_from(rest, false)
            },
            _ => fm_from(rest, accumulating),
        }
    }
}

/// The embedded metadata text of a document: the concatenation of the
/// text events that lie between a metadata-block start and its end.
pub open spec fn spec_frontmatter(tokens: Seq<MdTokenView>) -> Seq<char> {
    fm_from(tokens, false)
}

/// Accumulate the embedded metadata text of the event sequence.  The
/// extractor is an observer: it borrows the sequence and leaves it as it
/// is.
pub fn extract_frontmatter(events: &Vec<MdEvent>) -> (r: String)
    ensures
        r@ == spec_frontmatter(tokens_of(events@)),
{
    let ghost toks = tokens_of(events@);
    let mut buf = String::new();
    let mut accumulating = false;
    let n: usize = events.len();
    assert(toks.subrange(0, n as int) =~= toks);
    for i in 0..n
        invariant
            n == events@.len(),
            toks == tokens_of(events@),
            toks.len() == n,
            spec_frontmatter(toks) == buf@ + fm_from(
                toks.subrange(i as int, n as int),
                accumulating,
            ),
    {
        proof {
            assert(toks.subrange(i as int, n as int).drop_first() =~= toks.subrange(
                i as int + 1,
                n as int,
            ));
            assert(toks.subrange(i as int, n as int)[0] == toks[i as int]);
        }
        match &events[i].token {
            MdToken::MetadataStart => {
                accumulating = true;
            },
            MdToken::MetadataEnd => {
                accumulating = false;
            },
            MdToken::Text(t) => {
                if accumulating {
                    buf.append(t.as_str());
                }
            },
            _ => {},
        }
    }
    assert(toks.subrange(n as int, n as int) =~= Seq::<MdTokenView>::empty());
    buf
}

/// Markdown page metadata, parsed from the embedded metadata block:
/// every field is optional and absent by default.
#[derive(Debug)]
pub struct Metadata {
    /// Page title.
    pub title: Option<String>,
    /// Layout override for the page.
    pub template: Option<String>,
    /// Per-document highlighting theme, overriding the configured one.
    pub highlight_theme: Option<String>,
}

/// The record as the triple of its fields' values.
pub open spec fn meta_view(m: &Metadata) -> (
    Option<Seq<char>>,
    Option<Seq<char>>,
    Option<Seq<char>>,
) {
    (opt_view(m.title), opt_view(m.template), opt_view(m.highlight_theme))
}

/// Clone an optional string.
fn clone_opt(o: &Option<String>) -> (r: Option<String>)
    ensures
        opt_view(r) == opt_view(*o),
{
    match o {
        Some(s) => Some(s.clone()),
        None => None,
    }
}

/// True exactly when the two optional strings hold the same characters.
fn opt_str_eq(a: &Option<String>, b: &Option<String>) -> (r: bool)
    ensures
        r == (opt_view(*a) == opt_view(*b)),
{
    match (a, b) {
        (Some(x), Some(y)) => {
            let r = x.eq(y);
            proof {
                if x@ == y@ {
                    assert(opt_view(*a) == opt_view(*b));
                } else {
                    assert(opt_view(*a)->Some_0 != opt_view(*b)->Some_0);
                }
            }
            r
        },
        (None, None) => true,
        _ => false,
    }
}

impl Default for Metadata {
    /// The all-defaults record: every field absent.
    fn default() -> (r: Metadata)
        ensures
            r.title is None,
            r.template is None,
            r.highlight_theme is None,
    {
        Metadata { title: None, template: None, highlight_theme: None }
    }
}

impl Clone for Metadata {
    fn clone(&self) -> (r: Metadata)
        ensures
            meta_view(&r) == meta_view(self),
    {
        Metadata {
            title: clone_opt(&self.title),
            template: clone_opt(&self.template),
            highlight_theme: clone_opt(&self.highlight_theme),
        }
    }
}

impl PartialEq for Metadata {
    fn eq(&self, other: &Metadata) -> (r: bool) {
        opt_str_eq(&self.title, &other.title) && opt_str_eq(&self.template, &other.template)
            && opt_str_eq(&self.highlight_theme, &other.highlight_theme)
    }
}

impl vstd::std_specs::cmp::PartialEqSpecImpl for Metadata {
    open spec fn obeys_eq_spec() -> bool {
        true
    }

    open spec fn eq_spec(&self, other: &Metadata) -> bool {
        meta_view(self) == meta_view(other)
    }
}

/// What deserializing a metadata text yields: `None` when the text is
/// not well-formed YAML or a recognized field is present with a
/// non-string type, else the values of the recognized string fields
/// `title`, `template` and `highlight_theme`; a function of the text
/// alone.
pub uninterp spec fn yaml_meta_of(s: Seq<char>) -> Option<
    (Option<Seq<char>>, Option<Seq<char>>, Option<Seq<char>>),
>;

/// The triple of optional strings as a triple of values.
pub open spec fn triple_view(t: (Option<String>, Option<String>, Option<String>)) -> (
    Option<Seq<char>>,
    Option<Seq<char>>,
    Option<Seq<char>>,
) {
    (opt_view(t.0), opt_view(t.1), opt_view(t.2))
}

#[verifier::external_type_specification]
#[verifier::external_body]
pub struct ExYamlValue(serde_yml::Value);

/// Relies on serde_yml::Value::{get, as_str}: reads an optional field
/// that must be a string when present — a present non-string value is
/// malformed metadata.
#[verifier::external_body]
fn yaml_str_field(value: &serde_yml::Value, key: &str) -> Result<Option<String>, String> {
    match value.get(key) {
        None => Ok(None),
        Some(v) => match v.as_str() {
            Some(s) => Ok(Some(s.to_owned())),
            None => Err(format!("invalid type: \"{}\" must be a string", key)),
        },
    }
}

/// Relies on serde_yml::from_str (and `yaml_str_field` above for the
/// reads): parses the text as one YAML document and reads the three
/// recognized fields off it; a field present with a non-string type is
/// an error.  An empty text parses as the null document, where every
/// field is absent.
#[verifier::external_body]
fn parse_yaml_metadata(s: &str) -> (r: Result<
    (Option<String>, Option<String>, Option<String>),
    String,
>)
    ensures
        r is Ok <==> yaml_meta_of(s@) is Some,
        r is Ok ==> triple_view(r->Ok_0) == yaml_meta_of(s@)->Some_0,
        s@.len() == 0 ==> r is Ok && r->Ok_0.0 is None && r->Ok_0.1 is None && r->Ok_0.2 is None,
{
    let value: serde_yml::Value = match serde_yml::from_str(s) {
        Ok(v) => v,
        Err(err) => return Err(err.to_string()),
    };
    let title = yaml_str_field(&value, "title")?;
    let template = yaml_str_field(&value, "template")?;
    let highlight_theme = yaml_str_field(&value, "highlight_theme")?;
    Ok((title, template, highlight_theme))
}

/// When no event starts a metadata block, no metadata text accumulates.
pub proof fn lemma_no_metadata_block(tokens: Seq<MdTokenView>)
    requires
        forall|i: int| 0 <= i < tokens.len() ==> tokens[i] != MdTokenView::MetadataStart,
    ensures
        spec_frontmatter(tokens) == Seq::<char>::empty(),
    decreases tokens.len(),
{
    if tokens.len() > 0 {
        assert(forall|i: int|
            0 <= i < tokens.drop_first().len() ==> tokens.drop_first()[i] == tokens[i + 1]);
        lemma_no_metadata_block(tokens.drop_first());
    }
}

impl OreStaty {
    /// Deserialize an accumulated metadata text into the typed record.
    /// Malformed text is reported as exactly one error and the
    /// all-defaults record is substituted, so the document still builds;
    /// an empty text (no metadata block) yields the all-defaults record
    /// with no error.
    pub fn parse_metadata(&mut self, text: &str) -> (r: Metadata)
        ensures
            unchanged_but_errors(old(self), final(self)),
            match yaml_meta_of(text@) {
                Some(m) => meta_view(&r) == m && final(self).spec_errors() == old(
                    self,
                ).spec_errors(),
                None => meta_view(&r) == (
                    None::<Seq<char>>,
                    None::<Seq<char>>,
                    None::<Seq<char>>,
                ) && final(self).spec_errors() == bump(old(self).spec_errors()),
            },
            text@.len() == 0 ==> (final(self).spec_errors() == old(self).spec_errors()
                && meta_view(&r) == (None::<Seq<char>>, None::<Seq<char>>, None::<Seq<char>>)),
    {
        let parsed = self.unwrap_or_error(parse_yaml_metadata(text), "Invalid metadata format");
        match parsed {
            Ok((title, template, highlight_theme)) => Metadata { title, template, highlight_theme },
            Err(()) => Metadata { title: None, template: None, highlight_theme: None },
        }
    }
}

/// The metadata record as render data: one entry for each field, in
/// order, `null` where the field is absent.
fn metadata_json(m: &Metadata) -> (j: Json)
    ensures
        j matches Json::Obj(fields) && fields@.len() == 3 && fields@[0].0@ == "title"@
            && is_opt_str_json(fields@[0].1, opt_view(m.title)) && fields@[1].0@ == "template"@
            && is_opt_str_json(fields@[1].1, opt_view(m.template)) && fields@[2].0@
            == "highlight_theme"@ && is_opt_str_json(fields@[2].1, opt_view(m.highlight_theme)),
{
    let title = match &m.title {
        Some(t) => Json::Str(t.clone()),
        None => Json::Null,
    };
    let template = match &m.template {
        Some(t) => Json::Str(t.clone()),
        None => Json::Null,
    };
    let highlight_theme = match &m.highlight_theme {
        Some(t) => Json::Str(t.clone()),
        None => Json::Null,
    };
    Json::Obj(
        vec![
            ("title".to_owned(), title),
            ("template".to_owned(), template),
            ("highlight_theme".to_owned(), highlight_theme),
        ],
    )
}

/// The document's effective highlighting theme: the per-document
/// override takes precedence over the process-wide default.
pub fn effective_highlight_theme(doc_override: Option<&String>, process_default: &str) -> (r:
    String)
    ensures
        r@ == match doc_override {
            Some(t) => t@,
            None => process_default@,
        },
{
    match doc_override {
        Some(t) => t.clone(),
        None => process_default.to_owned(),
    }
}

/// The error counter after building one Markdown document from `source`:
/// one error when its metadata text does not deserialize, and one more
/// when the document fails (its code-block events unbalanced, or a
/// render pass failed).
pub open spec fn markdown_error_count(errors: u32, source: Seq<char>, failed: bool) -> u32 {
    let after_meta = if yaml_meta_of(spec_frontmatter(md_tokens_of(source))) is Some {
        errors
    } else {
        bump(errors)
    };
    if failed {
        bump(after_meta)
    } else {
        after_meta
    }
}

impl OreStaty {
    /// Build a Markdown document: parse the source with the full option
    /// set; accumulate the embedded metadata text off the event sequence
    /// (which stays intact); deserialize it, substituting defaults on
    /// failure; resolve the document's effective highlighting theme (the
    /// per-document override else the configured default); rewrite the
    /// code blocks; serialize the events to HTML; and wrap the result in
    /// the Markdown layout (or the document's override).
    pub fn build_markdown(&mut self, source: &str, relative_path: &str) -> (r: Result<String, ()>)
        ensures
            unchanged_but_errors(old(self), final(self)),
            !balanced_code(md_tokens_of(source@)) ==> r is Err,
            final(self).spec_errors() == markdown_error_count(
                old(self).spec_errors(),
                source@,
                r is Err,
            ),
    {
        let events = parse_markdown(source);
        let metadata_text: String = extract_frontmatter(&events);
        let metadata: Metadata = self.parse_metadata(metadata_text.as_str());
        // Per-document theme override: resolve a context of its own; on
        // resolution failure (already reported as a hint) fall back to
        // the shared one.
        let override_engine: Option<SyntaxHighlighting> = match &metadata.highlight_theme {
            Some(name) => SyntaxHighlighting::new(name.as_str(), self.root_path.as_str()),
            None => None,
        };
        let rewritten = match &override_engine {
            Some(engine) => engine.highlight_markdown(events),
            None => (&*self.syntax_highlighting).highlight_markdown(events),
        };
        let rewritten = match rewritten {
            Ok(events) => events,
            Err(()) => {
                self.error("Code block ends without starting! Buggy build!");
                return Err(());
            },
        };
        let content: String = events_to_html(rewritten);
        let template: String = match &metadata.template {
            Some(t) => t.clone(),
            None => self.config.default_markdown_template.clone(),
        };
        let theme: String = effective_highlight_theme(
            metadata.highlight_theme.as_ref(),
            self.config.code_highlight_theme.as_str(),
        );
        let params: Vec<(String, Json)> = vec![
            ("metadata".to_owned(), metadata_json(&metadata)),
            ("path".to_owned(), Json::Str(relative_path.to_owned())),
            ("highlight_theme".to_owned(), Json::Str(theme)),
        ];
        let page_data = PageData { path: relative_path.to_owned() };
        self.render_html(template.as_str(), content.as_str(), page_data, params)
    }

    /// Register the default Markdown layout, which passes the rendered
    /// content through unchanged.
    pub fn register_default_markdown_template(&mut self)
        ensures
            final(self).spec_errors() == old(self).spec_errors(),
            final(self).spec_config() == old(self).spec_config(),
            final(self).spec_root_path() == old(self).spec_root_path(),
    {
        match hb_register_template_string(
            &mut self.handlebars,
            "default_markdown",
            "{{{content}}}",
        ) {
            Ok(()) => {},
            Err(err) => {
                emit_diagnostic(
                    concat2("Failed to register default markdown template: ", err.as_str()).as_str(),
                );
            },
        }
    }
}

} // verus!
