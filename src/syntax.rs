//! What the analysis reads of a parsed source file: the module specifiers that
//! its `import` and `export ... from` declarations request, and the call and
//! `import(...)` expressions that it holds.
use vstd::prelude::*;

verus! {

/// A template literal: its raw text segments and how many expressions are
/// interpolated between them.
#[derive(Clone, Debug)]
pub struct TemplateLiteral {
    pub quasis: Vec<String>,
    pub expression_count: usize,
}

/// A use of a name, with whether it resolves to the global binding (no
/// declaration in scope shadows it).
#[derive(Clone, Debug)]
pub struct IdentifierReference {
    pub name: String,
    pub refers_to_global: bool,
}

/// The expressions that the analysis tells apart; every other form is `Other`.
#[derive(Clone, Debug)]
pub enum Expression {
    StringLiteral(String),
    TemplateLiteral(TemplateLiteral),
    Identifier(IdentifierReference),
    Other,
}

/// A call `callee(arguments...)`. A spread argument is an `Expression::Other`.
#[derive(Clone, Debug)]
pub struct CallExpression {
    pub callee: Expression,
    pub arguments: Vec<Expression>,
}

/// A dynamic `import(source)`.
#[derive(Clone, Debug)]
pub struct ImportExpression {
    pub source: Expression,
}

/// One node of the syntax tree, as far as the analysis reads it.
#[derive(Clone, Debug)]
pub enum AstKind {
    CallExpression(CallExpression),
    ImportExpression(ImportExpression),
    Other,
}

/// The module specifiers that a file requests through its static `import` and
/// `export ... from` declarations.
#[derive(Clone, Debug)]
pub struct ModuleRecord {
    pub requested_modules: Vec<String>,
}

/// A parsed source file: its module record and its syntax nodes.
#[derive(Clone, Debug)]
pub struct Semantic {
    pub module_record: ModuleRecord,
    pub nodes: Vec<AstKind>,
}

} // verus!
