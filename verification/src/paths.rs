//! Relative output paths are derived from relative source paths by
//! extension substitution only; classification of a source file goes by its
//! extension.  Paths are strings whose components are separated by `/`.

use vstd::prelude::*;
use vstd::string::StrSliceExecFns;
use vstd::string::StringExecFns;

use crate::strutil::find_last;
use crate::strutil::str_eq;

verus! {

/// Index of the last occurrence of `c` in `p`, if any.
pub open spec fn last_at(p: Seq<char>, c: char) -> Option<int>
    decreases p.len(),
{
    if p.len() == 0 {
        None
    } else if p[p.len() - 1] == c {
        Some(p.len() - 1)
    } else {
        last_at(p.drop_last(), c)
    }
}

/// `last_at` finds the last occurrence: nothing beyond it is `c`, and when
/// it answers `None` the character does not occur at all.
pub proof fn lemma_last_at(p: Seq<char>, c: char)
    ensures
        match last_at(p, c) {
            Some(i) => 0 <= i < p.len() && p[i] == c && (forall|j: int|
                i < j < p.len() ==> p[j] != c),
            None => forall|j: int| 0 <= j < p.len() ==> p[j] != c,
        },
    decreases p.len(),
{
    if p.len() > 0 && p[p.len() - 1] != c {
        lemma_last_at(p.drop_last(), c);
        assert(forall|j: int| 0 <= j < p.len() - 1 ==> p[j] == p.drop_last()[j]);
    }
}

/// Index of the first character of the file name: one past the last `/`,
/// or zero when the path has a single component.
pub open spec fn name_start(p: Seq<char>) -> int {
    match last_at(p, '/') {
        Some(i) => i + 1,
        None => 0,
    }
}

/// Index of the dot that separates the file name from its extension, if
/// the file name has one.  A dot that leads the file name does not count.
pub open spec fn ext_dot(p: Seq<char>) -> Option<int> {
    match last_at(p, '.') {
        Some(i) => if i > name_start(p) {
            Some(i)
        } else {
            None
        },
        None => None,
    }
}

/// The extension of the path's file name: what follows the last dot.
pub open spec fn extension_of(p: Seq<char>) -> Option<Seq<char>> {
    match ext_dot(p) {
        Some(i) => Some(p.subrange(i + 1, p.len() as int)),
        None => None,
    }
}

/// The path without its extension (and without the separating dot).
pub open spec fn stem_of(p: Seq<char>) -> Seq<char> {
    match ext_dot(p) {
        Some(i) => p.subrange(0, i),
        None => p,
    }
}

/// The path with its extension replaced by `e`.
pub open spec fn with_extension(p: Seq<char>, e: Seq<char>) -> Seq<char> {
    stem_of(p) + "."@ + e
}

/// What a source file is compiled as, decided by its extension.
#[derive(Clone, Copy, Debug, PartialEq, Eq, Structural)]
pub enum FileKind {
    /// An HTML page template: `html`, `htm` or `hbs`.
    Page,
    /// A Markdown document: `md` or `markdown`.
    Markdown,
    /// A stylesheet: `sass`, `scss` or `css`.
    Stylesheet,
    /// Anything else: skipped with a warning.
    Unknown,
}

/// Classification of a path by its extension.
pub open spec fn spec_file_kind(p: Seq<char>) -> FileKind {
    match extension_of(p) {
        Some(e) => if e == "html"@ || e == "htm"@ || e == "hbs"@ {
            FileKind::Page
        } else if e == "sass"@ || e == "scss"@ || e == "css"@ {
            FileKind::Stylesheet
        } else if e == "md"@ || e == "markdown"@ {
            FileKind::Markdown
        } else {
            FileKind::Unknown
        },
        None => FileKind::Unknown,
    }
}

/// The extension every output file of the kind carries.
pub open spec fn spec_output_extension(k: FileKind) -> Option<Seq<char>> {
    match k {
        FileKind::Page => Some("html"@),
        FileKind::Markdown => Some("html"@),
        FileKind::Stylesheet => Some("css"@),
        FileKind::Unknown => None,
    }
}

/// The relative output path of a recognized source file: its relative
/// path with only the extension substituted.
pub open spec fn spec_output_path(p: Seq<char>) -> Seq<char> {
    match spec_output_extension(spec_file_kind(p)) {
        Some(e) => with_extension(p, e),
        None => p,
    }
}

/// Substituting an extension free of `.` and `/` changes nothing but the
/// extension: the stem is preserved exactly.
pub proof fn lemma_extension_substitution(p: Seq<char>, e: Seq<char>)
    requires
        name_start(p) < p.len(),
        forall|j: int| 0 <= j < e.len() ==> e[j] != '.' && e[j] != '/',
    ensures
        stem_of(with_extension(p, e)) == stem_of(p),
        extension_of(with_extension(p, e)) == Some(e),
        name_start(with_extension(p, e)) == name_start(p),
        with_extension(p, e).subrange(0, name_start(p)) == p.subrange(0, name_start(p)),
{
    let s = stem_of(p);
    let q = with_extension(p, e);
    let ns = name_start(p);
    reveal_strlit(".");
    assert("."@ =~= seq!['.']);
    lemma_last_at(p, '/');
    lemma_last_at(p, '.');
    assert(s.len() > ns) by {
        match ext_dot(p) {
            Some(d) => {
                assert(s =~= p.subrange(0, d));
            },
            None => {
                assert(s == p);
            },
        }
    }
    assert(forall|j: int| 0 <= j < s.len() ==> s[j] == p[j]) by {
        match ext_dot(p) {
            Some(d) => {
                assert(s =~= p.subrange(0, d));
            },
            None => {},
        }
    }
    assert(forall|j: int| 0 <= j < q.len() ==> q[j] == (if j < s.len() {
        s[j]
    } else if j == s.len() {
        '.'
    } else {
        e[j - s.len() - 1]
    }));
    // The last `/` of the output is the last `/` of the input.
    assert(name_start(q) == ns) by {
        match last_at(p, '/') {
            Some(i) => {
                assert(q[i] == '/');
                assert(forall|j: int| i < j < q.len() ==> q[j] != '/');
                lemma_last_at_agrees(q, '/', i);
            },
            None => {
                assert(forall|j: int| 0 <= j < q.len() ==> q[j] != '/');
                lemma_last_at_none(q, '/');
            },
        }
    }
    // The separating dot is the last dot of the output.
    assert(q[s.len() as int] == '.');
    assert(forall|j: int| s.len() < j < q.len() ==> q[j] != '.');
    lemma_last_at_agrees(q, '.', s.len() as int);
    assert(ext_dot(q) == Some(s.len() as int));
    assert(stem_of(q) =~= s);
    assert(extension_of(q) == Some(q.subrange(s.len() as int + 1, q.len() as int)));
    assert(q.subrange(s.len() as int + 1, q.len() as int) =~= e);
    assert(q.subrange(0, ns) =~= p.subrange(0, ns));
}

/// For every source path with a recognized extension, the output path
/// keeps the stem of the input path exactly — in particular the whole
/// directory part, so directory structure is preserved — and its
/// extension is `html` for page and Markdown inputs and `css` for
/// stylesheet inputs, regardless of directory depth.
pub proof fn lemma_output_path(p: Seq<char>)
    requires
        spec_file_kind(p) != FileKind::Unknown,
    ensures
        stem_of(spec_output_path(p)) == stem_of(p),
        extension_of(spec_output_path(p)) == spec_output_extension(spec_file_kind(p)),
        spec_output_path(p).subrange(0, name_start(p)) == p.subrange(0, name_start(p)),
{
    lemma_last_at(p, '/');
    lemma_last_at(p, '.');
    assert(ext_dot(p) is Some);
    assert(name_start(p) < p.len());
    reveal_strlit("html");
    reveal_strlit("css");
    let e = spec_output_extension(spec_file_kind(p)).unwrap();
    assert(forall|j: int| 0 <= j < e.len() ==> e[j] != '.' && e[j] != '/') by {
        assert("html"@ =~= seq!['h', 't', 'm', 'l']);
        assert("css"@ =~= seq!['c', 's', 's']);
    }
    lemma_extension_substitution(p, e);
}

/// The extension of the path's file name, owned.
pub fn extension(p: &str) -> (r: Option<String>)
    ensures
        match r {
            Some(e) => extension_of(p@) == Some(e@),
            None => extension_of(p@) is None,
        },
{
    proof {
        lemma_last_at(p@, '/');
        lemma_last_at(p@, '.');
    }
    let ns: usize = match find_last(p, '/') {
        Some(i) => {
            proof {
                lemma_last_at_agrees(p@, '/', i as int);
            }
            i + 1
        },
        None => {
            proof {
                lemma_last_at_none(p@, '/');
            }
            0
        },
    };
    match find_last(p, '.') {
        Some(i) => {
            proof {
                lemma_last_at_agrees(p@, '.', i as int);
            }
            if i > ns {
                let n: usize = p.unicode_len();
                Some(p.substring_char(i + 1, n).to_owned())
            } else {
                None
            }
        },
        None => {
            proof {
                lemma_last_at_none(p@, '.');
            }
            None
        },
    }
}

/// An index below which nothing is `c` and at which `c` stands is the one
/// `last_at` answers.
proof fn lemma_last_at_agrees(p: Seq<char>, c: char, i: int)
    requires
        0 <= i < p.len(),
        p[i] == c,
        forall|j: int| i < j < p.len() ==> p[j] != c,
    ensures
        last_at(p, c) == Some(i),
{
    lemma_last_at(p, c);
    match last_at(p, c) {
        Some(k) => {
            assert(!(k < i) && !(i < k));
        },
        None => {
            assert(p[i] == c);
        },
    }
}

/// When `c` occurs nowhere in `p`, `last_at` answers `None`.
proof fn lemma_last_at_none(p: Seq<char>, c: char)
    requires
        forall|j: int| 0 <= j < p.len() ==> p[j] != c,
    ensures
        last_at(p, c) is None,
{
    lemma_last_at(p, c);
    match last_at(p, c) {
        Some(k) => {
            assert(p[k] == c);
        },
        None => {},
    }
}

/// Classify a source file by the extension of its relative path.
pub fn file_kind(p: &str) -> (k: FileKind)
    ensures
        k == spec_file_kind(p@),
{
    match extension(p) {
        Some(e) => {
            let e: &str = e.as_str();
            if str_eq(e, "html") || str_eq(e, "htm") || str_eq(e, "hbs") {
                FileKind::Page
            } else if str_eq(e, "sass") || str_eq(e, "scss") || str_eq(e, "css") {
                FileKind::Stylesheet
            } else if str_eq(e, "md") || str_eq(e, "markdown") {
                FileKind::Markdown
            } else {
                FileKind::Unknown
            }
        },
        None => FileKind::Unknown,
    }
}

/// The extension every output file of the kind carries: `html` for pages
/// and Markdown documents, `css` for stylesheets.
pub fn output_extension(k: FileKind) -> (r: Option<&'static str>)
    ensures
        match r {
            Some(e) => spec_output_extension(k) == Some(e@),
            None => spec_output_extension(k) is None && k is Unknown,
        },
{
    match k {
        FileKind::Page => Some("html"),
        FileKind::Markdown => Some("html"),
        FileKind::Stylesheet => Some("css"),
        FileKind::Unknown => None,
    }
}

/// The path without its extension, owned.
pub fn file_stem(p: &str) -> (r: String)
    ensures
        r@ == stem_of(p@),
{
    proof {
        lemma_last_at(p@, '/');
        lemma_last_at(p@, '.');
    }
    let ns: usize = match find_last(p, '/') {
        Some(i) => {
            proof {
                lemma_last_at_agrees(p@, '/', i as int);
            }
            i + 1
        },
        None => {
            proof {
                lemma_last_at_none(p@, '/');
            }
            0
        },
    };
    match find_last(p, '.') {
        Some(i) => {
            proof {
                lemma_last_at_agrees(p@, '.', i as int);
            }
            if i > ns {
                p.substring_char(0, i).to_owned()
            } else {
                p.to_owned()
            }
        },
        None => {
            proof {
                lemma_last_at_none(p@, '.');
            }
            p.to_owned()
        },
    }
}

/// Replace the path's extension: the output path of a source file is its
/// relative path with the extension substituted, nothing more.
pub fn replace_extension(p: &str, e: &str) -> (r: String)
    ensures
        r@ == with_extension(p@, e@),
{
    proof {
        lemma_last_at(p@, '/');
        lemma_last_at(p@, '.');
    }
    let ns: usize = match find_last(p, '/') {
        Some(i) => {
            proof {
                lemma_last_at_agrees(p@, '/', i as int);
            }
            i + 1
        },
        None => {
            proof {
                lemma_last_at_none(p@, '/');
            }
            0
        },
    };
    let stem: String = match find_last(p, '.') {
        Some(i) => {
            proof {
                lemma_last_at_agrees(p@, '.', i as int);
            }
            if i > ns {
                p.substring_char(0, i).to_owned()
            } else {
                p.to_owned()
            }
        },
        None => {
            proof {
                lemma_last_at_none(p@, '.');
            }
            p.to_owned()
        },
    };
    let stem: String = stem.concat(".");
    stem.concat(e)
}

} // verus!
