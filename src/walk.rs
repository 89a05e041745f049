//! What the walk over a project's tree keeps: every entry that is not a
//! directory, each path once, whichever worker found it.
use vstd::prelude::*;

use crate::sets::{distinct, union_all, union_of, set_of};

verus! {

/// One entry met by the walk: its path, and whether it is a directory when its
/// file type is known.
#[derive(Clone, Debug)]
pub struct WalkEntry {
    pub path: String,
    pub is_dir: Option<bool>,
}

/// What the walk does after an entry.
#[derive(Clone, Copy, Debug, PartialEq, Eq, Structural)]
pub enum WalkState {
    /// Go on, descending into the entry if it is a directory.
    Continue,
    /// Leave the entry, and what lies below it, out.
    Skip,
}

/// The entries that one walk worker keeps: the files it has met.
#[derive(Debug)]
pub struct WalkController {
    paths: Vec<String>,
}

/// An entry is kept when its file type is known and is not a directory.
pub open spec fn is_kept(entry: WalkEntry) -> bool {
    entry.is_dir == Some(false)
}

impl WalkController {
    /// The paths kept so far, in the order met.
    pub closed spec fn kept(&self) -> Seq<String> {
        self.paths@
    }

    pub fn new() -> (r: Self)
        ensures
            r.kept() == Seq::<String>::empty(),
    {
        WalkController { paths: Vec::new() }
    }

    /// Takes one entry, or an error met on the way (`None`). An entry that is
    /// not a directory is kept; an error skips the entry and the walk goes on
    /// elsewhere.
    pub fn visit(&mut self, entry: Option<WalkEntry>) -> (r: WalkState)
        ensures
            match entry {
                Some(e) => r == WalkState::Continue && final(self).kept() == if is_kept(e) {
                    old(self).kept().push(e.path)
                } else {
                    old(self).kept()
                },
                None => r == WalkState::Skip && final(self).kept() == old(self).kept(),
            },
    {
        match entry {
            Some(entry) => {
                let keep = match entry.is_dir {
                    Some(is_dir) => !is_dir,
                    None => false,
                };
                if keep {
                    self.paths.push(entry.path);
                }
                WalkState::Continue
            },
            None => WalkState::Skip,
        }
    }

    /// Hands over the paths kept so far, leaving none.
    pub fn take_paths(&mut self) -> (r: Vec<String>)
        ensures
            r@ == old(self).kept(),
            final(self).kept() == Seq::<String>::empty(),
    {
        let mut paths: Vec<String> = Vec::new();
        std::mem::swap(&mut paths, &mut self.paths);
        paths
    }
}

/// Merges the batches that the walk workers handed over into the set of
/// paths, each once.
pub fn collect_paths(batches: &Vec<Vec<String>>) -> (r: Vec<String>)
    ensures
        distinct(r@),
        set_of(r@) == union_of(batches@),
{
    union_all(batches)
}

} // verus!
