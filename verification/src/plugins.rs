//! The plugin loader's decisions.  Registry keys are dotted scope names
//! mirroring directory nesting; layout files register as templates and
//! script files as callable helpers; anything else is skipped silently,
//! since plugin directories may hold arbitrary support files.

use vstd::prelude::*;
use vstd::string::StrSliceExecFns;
use vstd::string::StringExecFns;

use crate::bump;
use crate::paths::extension_of;
use crate::paths::extension;
use crate::strutil::concat3;
use crate::strutil::push_char;
use crate::strutil::str_eq;
use crate::OreStaty;

verus! {

/// The registry key of a plugin: the scope and the file stem joined by a
/// dot, or the bare stem under the empty scope.
pub open spec fn spec_plugin_key(scope: Seq<char>, stem: Seq<char>) -> Seq<char> {
    if scope.len() == 0 {
        stem
    } else {
        scope + "."@ + stem
    }
}

/// Derive the registry key of a plugin from its scope and file stem.
pub fn plugin_key(scope: &str, stem: &str) -> (r: String)
    ensures
        r@ == spec_plugin_key(scope@, stem@),
{
    if scope.unicode_len() == 0 {
        stem.to_owned()
    } else {
        concat3(scope, ".", stem)
    }
}

/// A callable helper's name: the key with every dot replaced by an
/// underscore, since the registry disallows dotted callable names.
pub fn helper_name(key: &str) -> (r: String)
    ensures
        r@.len() == key@.len(),
        forall|i: int| 0 <= i < key@.len() ==> r@[i] == (if key@[i] == '.' {
            '_'
        } else {
            key@[i]
        }),
{
    let mut out = String::new();
    let n: usize = key.unicode_len();
    for i in 0..n
        invariant
            n == key@.len(),
            out@.len() == i,
            forall|j: int| 0 <= j < i ==> out@[j] == (if key@[j] == '.' {
                '_'
            } else {
                key@[j]
            }),
    {
        let c: char = key.get_char(i);
        if c == '.' {
            push_char(&mut out, '_');
        } else {
            push_char(&mut out, c);
        }
    }
    out
}

/// What the loader does with a plugin file, by its extension.
#[derive(Clone, Copy, Debug, PartialEq, Eq, Structural)]
pub enum PluginKind {
    /// A layout: registered as a named template.
    Template,
    /// A script: registered as a callable helper.
    Helper,
    /// Anything else: skipped silently.
    Skip,
}

/// Classification of a plugin file by its extension.
pub open spec fn spec_plugin_kind(name: Seq<char>) -> PluginKind {
    match extension_of(name) {
        Some(e) => if e == "html"@ || e == "htm"@ || e == "hbs"@ {
            PluginKind::Template
        } else if e == "rhai"@ {
            PluginKind::Helper
        } else {
            PluginKind::Skip
        },
        None => PluginKind::Skip,
    }
}

/// Classify a plugin file by the extension of its name.
pub fn plugin_kind(name: &str) -> (k: PluginKind)
    ensures
        k == spec_plugin_kind(name@),
{
    match extension(name) {
        Some(e) => {
            let e: &str = e.as_str();
            if str_eq(e, "html") || str_eq(e, "htm") || str_eq(e, "hbs") {
                PluginKind::Template
            } else if str_eq(e, "rhai") {
                PluginKind::Helper
            } else {
                PluginKind::Skip
            }
        },
        None => PluginKind::Skip,
    }
}

/// Relies on handlebars::Handlebars::register_template_file: reads the
/// file and registers its content as a template under the name; the
/// result depends on what is on disk.
#[verifier::external_body]
fn hb_register_template_file(
    hb: &mut handlebars::Handlebars<'static>,
    name: &str,
    path: &str,
) -> Result<(), String> {
    hb.register_template_file(name, std::path::Path::new(path)).map_err(|err| err.to_string())
}

/// Relies on handlebars::Handlebars::register_script_helper_file: reads
/// the script file and registers it as a callable helper under the name;
/// the result depends on what is on disk.
#[verifier::external_body]
fn hb_register_script_helper_file(
    hb: &mut handlebars::Handlebars<'static>,
    name: &str,
    path: &str,
) -> Result<(), String> {
    hb.register_script_helper_file(name, std::path::Path::new(path)).map_err(|err| err.to_string())
}

impl OreStaty {
    /// Register one plugin file under its registry key: a layout
    /// extension registers the file as a template under the key itself,
    /// a script extension as a callable helper under the key with dots
    /// replaced by underscores, and any other extension is skipped
    /// silently.  A registration failure is reported as one error and
    /// does not abort the scan.
    pub fn register_plugin_file(&mut self, key: &str, file_path: &str, file_name: &str) -> (r:
        Result<(), ()>)
        ensures
            final(self).spec_errors() == old(self).spec_errors() || final(self).spec_errors()
                == bump(old(self).spec_errors()),
            final(self).spec_config() == old(self).spec_config(),
            final(self).spec_root_path() == old(self).spec_root_path(),
            spec_plugin_kind(file_name@) is Skip ==> (r is Ok && final(self).spec_errors() == old(
                self,
            ).spec_errors()),
            !(spec_plugin_kind(file_name@) is Skip) ==> (final(self).spec_errors() == if r is Ok {
                old(self).spec_errors()
            } else {
                bump(old(self).spec_errors())
            }),
    {
        match plugin_kind(file_name) {
            PluginKind::Template => {
                let result = hb_register_template_file(&mut self.handlebars, key, file_path);
                let message: String = concat3(
                    "Failed to register \"",
                    file_path,
                    "\" as Handlebars template",
                );
                match self.unwrap_or_error(result, message.as_str()) {
                    Ok(()) => Ok(()),
                    Err(()) => Err(()),
                }
            },
            PluginKind::Helper => {
                let name: String = helper_name(key);
                let result = hb_register_script_helper_file(
                    &mut self.handlebars,
                    name.as_str(),
                    file_path,
                );
                let message: String = concat3(
                    "Failed to register \"",
                    file_path,
                    "\" as Handlebars template",
                );
                match self.unwrap_or_error(result, message.as_str()) {
                    Ok(()) => Ok(()),
                    Err(()) => Err(()),
                }
            },
            PluginKind::Skip => Ok(()),
        }
    }
}

} // verus!
