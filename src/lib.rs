//! Finds the dependencies that a JavaScript or TypeScript project declares in
//! its manifest and never imports.
//!
//! The library holds the logic: which module specifiers name packages, what a
//! file's syntax summary says it uses, how the uses of many files are merged,
//! and which declared names are left unused. Reading files, walking the
//! directory tree and parsing sources are done by the caller, which hands the
//! library plain values.
use vstd::prelude::*;

pub mod checkers;
pub mod dependencies;
pub mod runtime;
pub mod sets;
pub mod syntax;
pub mod walk;

use crate::runtime::Runtime;
use crate::sets::{distinct, set_of, union_all, union_of};

verus! {

/// The entry point of the analysis.
#[derive(Debug)]
pub struct DepClean {
    runtime: Runtime,
}

impl DepClean {
    pub fn new() -> Self {
        DepClean { runtime: Runtime }
    }

    /// The service that analyses one file; it holds no state and may be
    /// shared by every worker.
    pub fn runtime(&self) -> &Runtime {
        &self.runtime
    }

    /// Merges the specifiers that each analysed file uses into the set of
    /// specifiers that the project uses.
    pub fn check(&self, results: &Vec<Vec<String>>) -> (r: Vec<String>)
        ensures
            distinct(r@),
            set_of(r@) == union_of(results@),
    {
        union_all(results)
    }
}

/// The set of specifiers that a project uses does not depend on the order in
/// which its files' results are merged: any reordering of the results gives
/// the same set.
pub proof fn lemma_union_order_independent(a: Seq<Vec<String>>, b: Seq<Vec<String>>)
    requires
        a.to_multiset() == b.to_multiset(),
    ensures
        union_of(a) == union_of(b),
{
    a.to_multiset_ensures();
    b.to_multiset_ensures();
    assert forall|t: Seq<char>| union_of(a).contains(t) implies union_of(b).contains(t) by {
        let i = choose|i: int| 0 <= i < a.len() && #[trigger] set_of(a[i]@).contains(t);
        assert(a.contains(a[i]));
        assert(a.to_multiset().count(a[i]) > 0);
        assert(b.to_multiset().count(a[i]) > 0);
        assert(b.contains(a[i]));
        let j = choose|j: int| 0 <= j < b.len() && b[j] == a[i];
        assert(set_of(b[j]@).contains(t));
    }
    assert forall|t: Seq<char>| union_of(b).contains(t) implies union_of(a).contains(t) by {
        let i = choose|i: int| 0 <= i < b.len() && #[trigger] set_of(b[i]@).contains(t);
        assert(b.contains(b[i]));
        assert(b.to_multiset().count(b[i]) > 0);
        assert(a.to_multiset().count(b[i]) > 0);
        assert(a.contains(b[i]));
        let j = choose|j: int| 0 <= j < a.len() && a[j] == b[i];
        assert(set_of(a[j]@).contains(t));
    }
    assert(union_of(a) =~= union_of(b));
}

} // verus!
