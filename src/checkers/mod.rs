//! Checkers: each reads a parsed file and records the packages that it uses.
use vstd::prelude::*;

use crate::runtime::DepCheckerContext;

pub mod js;

use self::js::{file_uses, JSFamily};

verus! {

/// Reads one parsed file and records in the context every package specifier
/// that the file uses.
pub trait Checker {
    fn run(&self, ctx: &mut DepCheckerContext)
        requires
            old(ctx).wf(),
        ensures
            final(ctx).wf(),
            final(ctx).file() == old(ctx).file(),
            final(ctx).used() == old(ctx).used().union(file_uses(old(ctx).file())),
    ;
}

/// The checkers that JavaScript family files go through.
pub fn get_js_checkers() -> (r: Vec<CheckerKind>)
    ensures
        r@ == seq![CheckerKind::JSFamily(JSFamily)],
{
    let mut r: Vec<CheckerKind> = Vec::new();
    r.push(CheckerKind::JSFamily(JSFamily));
    assert(r@ =~= seq![CheckerKind::JSFamily(JSFamily)]);
    r
}

/// The kinds of checker.
#[derive(Clone, Copy, Debug)]
pub enum CheckerKind {
    JSFamily(JSFamily),
}

impl Default for CheckerKind {
    fn default() -> (r: Self)
        ensures
            r == CheckerKind::JSFamily(JSFamily),
    {
        CheckerKind::JSFamily(JSFamily)
    }
}

impl Checker for CheckerKind {
    fn run(&self, ctx: &mut DepCheckerContext) {
        match self {
            CheckerKind::JSFamily(checker) => checker.run(ctx),
        }
    }
}

} // verus!
