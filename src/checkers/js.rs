//! The checker for the JavaScript family of languages: it reads the static
//! `import` / `export ... from` specifiers, `require("...")` calls on the
//! global `require`, and `import("...")` expressions.
use vstd::prelude::*;

use crate::checkers::Checker;
use crate::runtime::DepCheckerContext;
use crate::sets::{opt_text, set_of, text_equals};
use crate::syntax::{AstKind, CallExpression, Expression, Semantic};

verus! {

/// A specifier names a package when it starts with neither `.` (a relative
/// path) nor `/` (an absolute path).
pub open spec fn is_bare(s: Seq<char>) -> bool {
    !(s.len() > 0 && (s[0] == '.' || s[0] == '/'))
}

/// The text of an expression whose value is known without running the code:
/// a string literal, or a template literal without interpolations (its first
/// raw segment).
pub open spec fn string_value(e: Expression) -> Option<Seq<char>> {
    match e {
        Expression::StringLiteral(s) => Some(s@),
        Expression::TemplateLiteral(t) => {
            if t.expression_count == 0 && t.quasis@.len() > 0 {
                Some(t.quasis@[0]@)
            } else {
                None
            }
        },
        _ => None,
    }
}

/// The call's callee is the identifier `require` bound to the global.
pub open spec fn is_global_require(call: CallExpression) -> bool {
    match call.callee {
        Expression::Identifier(id) => id.name@ == "require"@ && id.refers_to_global,
        _ => false,
    }
}

/// A text, kept when it names a package.
pub open spec fn bare_only(o: Option<Seq<char>>) -> Option<Seq<char>> {
    match o {
        Some(s) => if is_bare(s) { Some(s) } else { None },
        None => None,
    }
}

/// The package specifier that a node uses: a global `require` with one
/// statically known argument, or an `import(...)` of a statically known source.
pub open spec fn node_use(n: AstKind) -> Option<Seq<char>> {
    match n {
        AstKind::CallExpression(c) => {
            if is_global_require(c) && c.arguments@.len() == 1 {
                bare_only(string_value(c.arguments@[0]))
            } else {
                None
            }
        },
        AstKind::ImportExpression(i) => bare_only(string_value(i.source)),
        AstKind::Other => None,
    }
}

/// Every package specifier that a file uses: the bare requested modules of its
/// module record, and what its nodes use.
pub open spec fn file_uses(file: Semantic) -> Set<Seq<char>> {
    Set::new(
        |s: Seq<char>|
            (set_of(file.module_record.requested_modules@).contains(s) && is_bare(s)) || exists|
                i: int,
            |
                0 <= i < file.nodes@.len() && #[trigger] node_use(file.nodes@[i]) == Some(s),
    )
}

/// A `require` whose name resolves to a local binding (a parameter, a
/// variable or an import that shadows the global) records nothing.
pub proof fn lemma_shadowed_require_ignored(call: CallExpression)
    requires
        call.callee matches Expression::Identifier(id) && !id.refers_to_global,
    ensures
        node_use(AstKind::CallExpression(call)) is None,
{
}

/// A dynamic `import(...)` of a string literal that names a package records
/// that package.
pub proof fn lemma_static_import_recorded(import: crate::syntax::ImportExpression, s: String)
    requires
        import.source == Expression::StringLiteral(s),
        is_bare(s@),
    ensures
        node_use(AstKind::ImportExpression(import)) == Some(s@),
{
}

/// A template literal with interpolated expressions is never statically
/// known, so neither a `require` call nor an `import(...)` whose argument it
/// is records anything.
pub proof fn lemma_interpolated_template_ignored(
    t: crate::syntax::TemplateLiteral,
    call: CallExpression,
    import: crate::syntax::ImportExpression,
)
    requires
        t.expression_count > 0,
        call.arguments@.len() == 1,
        call.arguments@[0] == Expression::TemplateLiteral(t),
        import.source == Expression::TemplateLiteral(t),
    ensures
        string_value(Expression::TemplateLiteral(t)) is None,
        node_use(AstKind::CallExpression(call)) is None,
        node_use(AstKind::ImportExpression(import)) is None,
{
}

/// Whether the specifier names a package rather than a file of the project.
pub fn is_bare_import(s: &str) -> (r: bool)
    ensures
        r == is_bare(s@),
{
    if s.unicode_len() == 0 {
        true
    } else {
        let c = s.get_char(0);
        c != '.' && c != '/'
    }
}

/// The statically known text of an expression, if it has one.
pub fn get_string_value(expr: &Expression) -> (r: Option<String>)
    ensures
        opt_text(r) == string_value(*expr),
{
    match expr {
        Expression::StringLiteral(s) => Some(s.clone()),
        Expression::TemplateLiteral(t) => {
            if t.expression_count == 0 && t.quasis.len() > 0 {
                Some(t.quasis[0].clone())
            } else {
                None
            }
        },
        _ => None,
    }
}

/// Whether the call is a call of the global `require`.
pub fn is_global_require_call(call_expr: &CallExpression) -> (r: bool)
    ensures
        r == is_global_require(*call_expr),
{
    match &call_expr.callee {
        Expression::Identifier(ident) => {
            if !text_equals(ident.name.as_str(), "require") {
                return false;
            }
            ident.refers_to_global
        },
        _ => false,
    }
}

/// The package specifier that one node uses, if any.
pub fn node_specifier(node: &AstKind) -> (r: Option<String>)
    ensures
        opt_text(r) == node_use(*node),
{
    match node {
        AstKind::CallExpression(call_expr) => {
            if !is_global_require_call(call_expr) {
                return None;
            }
            if call_expr.arguments.len() != 1 {
                return None;
            }
            match get_string_value(&call_expr.arguments[0]) {
                Some(s) => if is_bare_import(s.as_str()) { Some(s) } else { None },
                None => None,
            }
        },
        AstKind::ImportExpression(import_expr) => match get_string_value(&import_expr.source) {
            Some(s) => if is_bare_import(s.as_str()) { Some(s) } else { None },
            None => None,
        },
        AstKind::Other => None,
    }
}

/// Reads the ESM and `require` dependencies of JavaScript family files.
#[derive(Clone, Copy, Debug, Default)]
pub struct JSFamily;

impl Checker for JSFamily {
    fn run(&self, ctx: &mut DepCheckerContext) {
        let ghost file = ctx.file();
        let ghost start = ctx.used();
        let ghost mods = file.module_record.requested_modules@;
        let ghost nodes = file.nodes@;
        let n = ctx.module_records().requested_modules.len();
        let mut i: usize = 0;
        while i < n
            invariant
                0 <= i <= n,
                n == mods.len(),
                mods == file.module_record.requested_modules@,
                ctx.wf(),
                ctx.file() == file,
                ctx.used() == start.union(module_uses_upto(mods, i as int)),
            decreases n - i,
        {
            let request_module = ctx.module_records().requested_modules[i].clone();
            proof {
                lemma_module_uses_step(mods, i as int);
            }
            if is_bare_import(request_module.as_str()) {
                ctx.add_use(request_module);
                assert(ctx.used() =~= start.union(module_uses_upto(mods, i + 1)));
            } else {
                assert(ctx.used() =~= start.union(module_uses_upto(mods, i + 1)));
            }
            i += 1;
        }
        let m = ctx.nodes().len();
        let mut j: usize = 0;
        while j < m
            invariant
                0 <= j <= m,
                m == nodes.len(),
                nodes == file.nodes@,
                ctx.wf(),
                ctx.file() == file,
                ctx.used() == start.union(module_uses_upto(mods, mods.len() as int)).union(
                    node_uses_upto(nodes, j as int),
                ),
            decreases m - j,
        {
            let used = node_specifier(&ctx.nodes()[j]);
            proof {
                lemma_node_uses_step(nodes, j as int);
            }
            match used {
                Some(s) => {
                    ctx.add_use(s);
                },
                None => {},
            }
            assert(ctx.used() =~= start.union(module_uses_upto(mods, mods.len() as int)).union(
                node_uses_upto(nodes, j + 1),
            ));
            j += 1;
        }
        proof {
            lemma_file_uses_split(file);
            assert(ctx.used() =~= start.union(file_uses(file)));
        }
    }
}

/// The bare specifiers among the first `i` requested modules.
spec fn module_uses_upto(mods: Seq<String>, i: int) -> Set<Seq<char>> {
    Set::new(|s: Seq<char>| exists|k: int| 0 <= k < i && #[trigger] mods[k]@ == s && is_bare(s))
}

/// What the first `j` nodes use.
spec fn node_uses_upto(nodes: Seq<AstKind>, j: int) -> Set<Seq<char>> {
    Set::new(|s: Seq<char>| exists|k: int| 0 <= k < j && #[trigger] node_use(nodes[k]) == Some(s))
}

proof fn lemma_module_uses_step(mods: Seq<String>, i: int)
    requires
        0 <= i < mods.len(),
    ensures
        module_uses_upto(mods, i + 1) == if is_bare(mods[i]@) {
            module_uses_upto(mods, i).insert(mods[i]@)
        } else {
            module_uses_upto(mods, i)
        },
{
    let next = module_uses_upto(mods, i + 1);
    let prev = module_uses_upto(mods, i);
    assert forall|s: Seq<char>| next.contains(s) implies prev.contains(s) || (s == mods[i]@ && is_bare(s)) by {
        let k = choose|k: int| 0 <= k < i + 1 && #[trigger] mods[k]@ == s && is_bare(s);
    }
    assert forall|s: Seq<char>| prev.contains(s) implies next.contains(s) by {
        let k = choose|k: int| 0 <= k < i && #[trigger] mods[k]@ == s && is_bare(s);
    }
    if is_bare(mods[i]@) {
        assert(next.contains(mods[i]@));
        assert(next =~= prev.insert(mods[i]@));
    } else {
        assert(next =~= prev);
    }
}

proof fn lemma_node_uses_step(nodes: Seq<AstKind>, j: int)
    requires
        0 <= j < nodes.len(),
    ensures
        node_uses_upto(nodes, j + 1) == match node_use(nodes[j]) {
            Some(s) => node_uses_upto(nodes, j).insert(s),
            None => node_uses_upto(nodes, j),
        },
{
    let next = node_uses_upto(nodes, j + 1);
    let prev = node_uses_upto(nodes, j);
    assert forall|s: Seq<char>| next.contains(s) implies prev.contains(s) || node_use(nodes[j]) == Some(s) by {
        let k = choose|k: int| 0 <= k < j + 1 && #[trigger] node_use(nodes[k]) == Some(s);
    }
    assert forall|s: Seq<char>| prev.contains(s) implies next.contains(s) by {
        let k = choose|k: int| 0 <= k < j && #[trigger] node_use(nodes[k]) == Some(s);
    }
    match node_use(nodes[j]) {
        Some(s) => {
            assert(next.contains(s));
            assert(next =~= prev.insert(s));
        },
        None => {
            assert(next =~= prev);
        },
    }
}

proof fn lemma_file_uses_split(file: Semantic)
    ensures
        file_uses(file) == module_uses_upto(
            file.module_record.requested_modules@,
            file.module_record.requested_modules@.len() as int,
        ).union(node_uses_upto(file.nodes@, file.nodes@.len() as int)),
{
    let mods = file.module_record.requested_modules@;
    let a = module_uses_upto(mods, mods.len() as int);
    assert forall|s: Seq<char>| a.contains(s) <==> (set_of(mods).contains(s) && is_bare(s)) by {
        if a.contains(s) {
            let k = choose|k: int| 0 <= k < mods.len() && #[trigger] mods[k]@ == s && is_bare(s);
            assert(crate::sets::texts(mods)[k] == s);
        }
        if set_of(mods).contains(s) {
            let k = choose|k: int| 0 <= k < mods.len() && #[trigger] crate::sets::texts(mods)[k] == s;
            assert(mods[k]@ == s);
        }
    }
    assert(file_uses(file) =~= a.union(node_uses_upto(file.nodes@, file.nodes@.len() as int)));
}

} // verus!
