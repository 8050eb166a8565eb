//! The template renderer: two-pass semantics.  Pass one treats the page
//! content itself as a template, so content may use templating
//! constructs; pass two wraps the result in a named layout.  Both passes
//! share one registry of layouts and helpers.

use vstd::prelude::*;
use vstd::string::StringExecFns;

use crate::bump;
use crate::json::to_serde_value;
use crate::json::Json;
use crate::unchanged_but_errors;
use crate::OreStaty;

verus! {

#[verifier::external_type_specification]
#[verifier::external_body]
pub struct ExHandlebars<'a>(handlebars::Handlebars<'a>);

/// Information about the processed page that is exposed to templates as
/// `page`.
pub struct PageData {
    /// Relative path of the page.
    pub path: String,
}

/// No templating construct can stand in a text without two adjacent
/// opening braces: every expression, block, partial and even the escape
/// begins with `{{`.
pub open spec fn no_constructs(s: Seq<char>) -> bool {
    forall|i: int| 0 <= i && i + 1 < s.len() ==> !((#[trigger] s[i]) == '{' && s[i + 1] == '{')
}

/// The entries of a JSON object; any other value has none.
pub open spec fn obj_fields(data: Json) -> Seq<(String, Json)> {
    match data {
        Json::Obj(fields) => fields@,
        _ => Seq::empty(),
    }
}

/// A `Json` holding exactly this optional string: the string itself, or
/// `null` when the string is absent.
pub open spec fn is_opt_str_json(j: Json, v: Option<Seq<char>>) -> bool {
    match v {
        Some(s) => j matches Json::Str(t) && t@ == s,
        None => j is Null,
    }
}

/// Relies on handlebars::Handlebars::new: an empty registry.
#[verifier::external_body]
pub(crate) fn hb_new() -> handlebars::Handlebars<'static> {
    handlebars::Handlebars::new()
}

/// Relies on handlebars::Handlebars::register_template_string: compiles
/// the template string and registers it under the name, overwriting any
/// earlier registration of the name; errors only on a template syntax
/// error.
#[verifier::external_body]
pub(crate) fn hb_register_template_string(
    hb: &mut handlebars::Handlebars<'static>,
    name: &str,
    tpl: &str,
) -> Result<(), String> {
    hb.register_template_string(name, tpl).map_err(|err| err.to_string())
}

/// Relies on handlebars::Handlebars::render_template: renders the string
/// as a template against the data.  A template without `{{` anywhere
/// holds no templating construct (the grammar starts every construct,
/// escapes included, with `{{`), so it parses as one raw chunk and
/// renders to itself, byte for byte, whatever the data.
#[verifier::external_body]
pub(crate) fn hb_render_template(
    hb: &handlebars::Handlebars<'static>,
    tpl: &str,
    data: &serde_json::Value,
) -> (r: Result<String, String>)
    ensures
        no_constructs(tpl@) ==> r is Ok && r->Ok_0@ == tpl@,
{
    hb.render_template(tpl, data).map_err(|err| err.to_string())
}

/// Relies on handlebars::Handlebars::render: renders the registered
/// template of that name against the data; errors when no template of
/// the name is registered or rendering fails.
#[verifier::external_body]
pub(crate) fn hb_render(
    hb: &handlebars::Handlebars<'static>,
    name: &str,
    data: &serde_json::Value,
) -> Result<String, String> {
    hb.render(name, data).map_err(|err| err.to_string())
}

impl OreStaty {
    /// Pass one of the two-pass render: the raw content itself rendered
    /// as a template against the given data.  Content without templating
    /// constructs (no `{{` anywhere) renders to itself, byte for byte;
    /// failure is reported as one error.
    pub fn render_content(&mut self, content: &str, data: &Json) -> (r: Result<String, ()>)
        ensures
            unchanged_but_errors(old(self), final(self)),
            no_constructs(content@) ==> (r matches Ok(c) && c@ == content@),
            final(self).spec_errors() == if r is Ok {
                old(self).spec_errors()
            } else {
                bump(old(self).spec_errors())
            },
    {
        let value: serde_json::Value = to_serde_value(data);
        let result = hb_render_template(&self.handlebars, content, &value);
        self.unwrap_or_error(result, "Failed to render page using Handlebars")
    }

    /// The render data of a document: the caller's page parameters, flat
    /// at the top level, extended with the page data as an object under
    /// `page` that exposes the page's relative path under `path`.
    pub fn compose_render_data(params: Vec<(String, Json)>, page_data: PageData) -> (r: Json)
        ensures
            r matches Json::Obj(fields) && fields@.len() == params@.len() + 1 && (forall|i: int|
                0 <= i < params@.len() ==> fields@[i] == params@[i]) && fields@[params@.len() as int].0@
                == "page"@ && (fields@[params@.len() as int].1 matches Json::Obj(page)
                && page@.len() == 1 && page@[0].0@ == "path"@ && page@[0].1 == Json::Str(
                page_data.path,
            )),
    {
        let mut fields: Vec<(String, Json)> = params;
        let page_fields: Vec<(String, Json)> = vec![
            ("path".to_owned(), Json::Str(page_data.path)),
        ];
        fields.push(("page".to_owned(), Json::Obj(page_fields)));
        Json::Obj(fields)
    }

    /// The same data extended with the rendered content under `content`:
    /// pass two of the render sees everything pass one saw, plus pass
    /// one's result.
    pub fn with_content(data: Json, content: String) -> (r: Json)
        ensures
            r matches Json::Obj(fields) && fields@.len() == obj_fields(data).len() + 1 && (forall|
                i: int,
            |
                0 <= i < obj_fields(data).len() ==> fields@[i] == obj_fields(data)[i])
                && fields@[obj_fields(data).len() as int].0@ == "content"@
                && fields@[obj_fields(data).len() as int].1 == Json::Str(content),
    {
        let mut fields: Vec<(String, Json)> = match data {
            Json::Obj(fields) => fields,
            _ => Vec::new(),
        };
        fields.push(("content".to_owned(), Json::Str(content)));
        Json::Obj(fields)
    }

    /// Render a document in two passes: pass one renders `content` as a
    /// template against the page parameters and the page data (composed
    /// by `compose_render_data`); pass two renders the layout named
    /// `template` against the same data extended with pass one's result
    /// under `content` (by `with_content`).  Failure of either pass is
    /// reported as one error and yields no output.
    pub fn render_html(
        &mut self,
        template: &str,
        content: &str,
        page_data: PageData,
        params: Vec<(String, Json)>,
    ) -> (r: Result<String, ()>)
        ensures
            unchanged_but_errors(old(self), final(self)),
            final(self).spec_errors() == if r is Ok {
                old(self).spec_errors()
            } else {
                bump(old(self).spec_errors())
            },
    {
        let data: Json = OreStaty::compose_render_data(params, page_data);
        let rendered: String = match self.render_content(content, &data) {
            Ok(c) => c,
            Err(()) => {
                return Err(());
            },
        };
        let data: Json = OreStaty::with_content(data, rendered);
        let value: serde_json::Value = to_serde_value(&data);
        let result = hb_render(&self.handlebars, template, &value);
        let message: String = crate::strutil::concat3(
            "Failed to render page using template \"",
            template,
            "\"",
        );
        self.unwrap_or_error(result, message.as_str())
    }

    /// Build an HTML page: the source text is the page's content,
    /// rendered under the configured default layout.
    pub fn build_page(&mut self, source: &str, relative_path: &str) -> (r: Result<String, ()>)
        ensures
            unchanged_but_errors(old(self), final(self)),
            final(self).spec_errors() == if r is Ok {
                old(self).spec_errors()
            } else {
                bump(old(self).spec_errors())
            },
    {
        let template: String = self.config.default_template.clone();
        let data = PageData { path: relative_path.to_owned() };
        self.render_html(template.as_str(), source, data, Vec::new())
    }
}

} // verus!
