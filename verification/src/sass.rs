//! The stylesheet compiler: a thin pass-through to the external
//! compiler, with the plugin directory on the load path so stylesheets
//! can import plugin-provided partials.

use vstd::prelude::*;
use vstd::string::StringExecFns;

use crate::bump;
use crate::strutil::concat3;
use crate::unchanged_but_errors;
use crate::OreStaty;

verus! {

/// Relies on grass::from_path: compiles the stylesheet file at the path,
/// resolving imports against the file's directory and the load path; the
/// result depends on what is on disk.
#[verifier::external_body]
fn compile_sass_path(path: &str, load_path: Option<&String>) -> Result<String, String> {
    let mut options = grass::Options::default();
    if let Some(dir) = load_path {
        options = options.load_path(std::path::Path::new(dir.as_str()));
    }
    grass::from_path(path, &options).map_err(|err| err.to_string())
}

impl OreStaty {
    /// Build a stylesheet from the file at `src`: a direct pass-through
    /// to the external compiler.  Failure is reported, with the relative
    /// path, as one error and yields no output.
    pub fn build_sass(&mut self, src: &str, relative_path: &str) -> (r: Result<String, ()>)
        ensures
            unchanged_but_errors(old(self), final(self)),
            final(self).spec_errors() == if r is Ok {
                old(self).spec_errors()
            } else {
                bump(old(self).spec_errors())
            },
    {
        let result = compile_sass_path(src, self.sass_load_path.as_ref());
        let message: String = concat3("Failed to render \"", relative_path, "\" using SASS");
        self.unwrap_or_error(result, message.as_str())
    }
}

} // verus!
