//! Analysis of one file: which files are analysed, and the set of package
//! specifiers that a parsed file uses.
use vstd::prelude::*;

use crate::checkers::js::file_uses;
use crate::checkers::{get_js_checkers, Checker};
use crate::sets::{distinct, insert_text, opt_text, set_of, text_equals};
use crate::syntax::{AstKind, ModuleRecord, Semantic};

verus! {

/// The state of the analysis of one file: the parsed file, and the package
/// specifiers found so far.
pub struct DepCheckerContext {
    semantic: Semantic,
    used_deps: Vec<String>,
}

impl DepCheckerContext {
    /// The parsed file under analysis.
    pub closed spec fn file(&self) -> Semantic {
        self.semantic
    }

    /// The package specifiers recorded so far.
    pub closed spec fn used(&self) -> Set<Seq<char>> {
        set_of(self.used_deps@)
    }

    /// No specifier is recorded twice.
    pub closed spec fn wf(&self) -> bool {
        distinct(self.used_deps@)
    }

    pub fn new(semantic: Semantic) -> (r: Self)
        ensures
            r.wf(),
            r.file() == semantic,
            r.used() == Set::<Seq<char>>::empty(),
    {
        let r = DepCheckerContext { semantic, used_deps: Vec::new() };
        assert(crate::sets::texts(r.used_deps@) =~= Seq::<Seq<char>>::empty());
        assert(r.used() =~= Set::<Seq<char>>::empty());
        r
    }

    pub fn semantic(&self) -> (r: &Semantic)
        ensures
            *r == self.file(),
    {
        &self.semantic
    }

    pub fn nodes(&self) -> (r: &Vec<AstKind>)
        ensures
            *r == self.file().nodes,
    {
        &self.semantic.nodes
    }

    pub fn module_records(&self) -> (r: &ModuleRecord)
        ensures
            *r == self.file().module_record,
    {
        &self.semantic.module_record
    }

    /// Records that the file uses the specifier `name`.
    pub fn add_use(&mut self, name: String)
        requires
            old(self).wf(),
        ensures
            final(self).wf(),
            final(self).file() == old(self).file(),
            final(self).used() == old(self).used().insert(name@),
    {
        insert_text(&mut self.used_deps, name);
    }

    /// The recorded specifiers, each once.
    pub fn into_deps(self) -> (r: Vec<String>)
        requires
            self.wf(),
        ensures
            distinct(r@),
            set_of(r@) == self.used(),
    {
        self.used_deps
    }
}

/// The file name extensions of the JavaScript family: `js`, `mjs`, `cjs`,
/// `jsx`, `ts`, `mts`, `cts` and `tsx`.
pub open spec fn is_js_ext(e: Seq<char>) -> bool {
    e == "js"@ || e == "mjs"@ || e == "cjs"@ || e == "jsx"@ || e == "ts"@ || e == "mts"@ || e
        == "cts"@ || e == "tsx"@
}

/// The extension of a path, as the standard library's `Path::extension` gives
/// it: the text after the last `.` of the final component, if there is one and
/// the component does not only start with it.
pub uninterp spec fn extension_of(path: Seq<char>) -> Option<Seq<char>>;

/// A path is analysed when its extension is one of the JavaScript family.
pub open spec fn is_js_path(path: Seq<char>) -> bool {
    match extension_of(path) {
        Some(e) => is_js_ext(e),
        None => false,
    }
}

/// Relies on std::path::Path::extension, for the extension of a path given as
/// text; the result depends on that text alone.
#[verifier::external_body]
fn path_extension(path: &str) -> (r: Option<String>)
    ensures
        opt_text(r) == extension_of(path@),
{
    match std::path::Path::new(path).extension() {
        Some(e) => Some(e.to_string_lossy().into_owned()),
        None => None,
    }
}

/// Whether a file name extension is one of the JavaScript family.
pub fn is_js_extension(ext: &str) -> (r: bool)
    ensures
        r == is_js_ext(ext@),
{
    text_equals(ext, "js") || text_equals(ext, "mjs") || text_equals(ext, "cjs") || text_equals(
        ext,
        "jsx",
    ) || text_equals(ext, "ts") || text_equals(ext, "mts") || text_equals(ext, "cts")
        || text_equals(ext, "tsx")
}

/// The shared, stateless service that analyses files.
#[derive(Clone, Copy, Debug, Default)]
pub struct Runtime;

impl Runtime {
    /// Whether the file at `path` is one that the analysis reads.
    pub fn accepts_path(&self, path: &str) -> (r: bool)
        ensures
            r == is_js_path(path@),
    {
        match path_extension(path) {
            Some(ext) => is_js_extension(ext.as_str()),
            None => false,
        }
    }

    /// Decides what one path contributes. A path outside the JavaScript family
    /// contributes nothing (`None`), silently. A file of the family contributes
    /// the specifiers it uses, or none when it could not be read or parsed
    /// (`semantic` is `None`).
    pub fn process_path(&self, path: &str, semantic: Option<Semantic>) -> (r: Option<Vec<String>>)
        ensures
            r.is_some() == is_js_path(path@),
            r matches Some(v) ==> distinct(v@) && set_of(v@) == match semantic {
                Some(s) => file_uses(s),
                None => Set::<Seq<char>>::empty(),
            },
    {
        if !self.accepts_path(path) {
            return None;
        }
        match semantic {
            Some(s) => Some(self.check_js_files(s)),
            None => {
                let v: Vec<String> = Vec::new();
                assert(crate::sets::texts(v@) =~= Seq::<Seq<char>>::empty());
                assert(set_of(v@) =~= Set::<Seq<char>>::empty());
                Some(v)
            },
        }
    }

    /// The package specifiers that a parsed file uses, each once: for
    ///
    /// ```js
    /// import A from './a.js';
    /// import B from 'b/foo.mjs';
    /// const C = require('c')
    /// ```
    ///
    /// they are `b/foo.mjs` and `c`.
    pub fn check_js_files(&self, semantic: Semantic) -> (r: Vec<String>)
        ensures
            distinct(r@),
            set_of(r@) == file_uses(semantic),
    {
        let ghost uses = file_uses(semantic);
        let mut ctx = DepCheckerContext::new(semantic);
        let checkers = get_js_checkers();
        let mut i: usize = 0;
        while i < checkers.len()
            invariant
                0 <= i <= checkers.len(),
                checkers@ == seq![crate::checkers::CheckerKind::JSFamily(crate::checkers::js::JSFamily)],
                ctx.wf(),
                ctx.file() == semantic,
                uses == file_uses(semantic),
                ctx.used() == if i == 0 { Set::<Seq<char>>::empty() } else { uses },
            decreases checkers.len() - i,
        {
            let ghost prev = ctx.used();
            checkers[i].run(&mut ctx);
            proof {
                if i == 0 {
                    assert(Set::<Seq<char>>::empty().union(uses) =~= uses);
                } else {
                    assert(uses.union(uses) =~= uses);
                }
            }
            i += 1;
        }
        ctx.into_deps()
    }
}

} // verus!
