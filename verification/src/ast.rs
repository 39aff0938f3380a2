//! The structural model of a parsed document: an ordered list of top-level
//! items, each a function or a class. Spans carry 1-based line/column
//! positions as the front-end reports them.

use vstd::prelude::*;

verus! {

/// A 1-based source position as the front-end reports it.
#[derive(Clone, Copy, Debug, PartialEq, Eq, Structural)]
pub struct SrcPosition {
    pub line: usize,
    pub column: usize,
}

/// A source span from a start to an end position, both 1-based.
#[derive(Clone, Copy, Debug, PartialEq, Eq, Structural)]
pub struct Span {
    pub start: SrcPosition,
    pub end: SrcPosition,
}

/// A type expression of the object language.
#[derive(Debug, PartialEq)]
pub enum Type {
    Int,
    Str,
    Float32,
    Float64,
    Bool,
    Dynamic,
    List(Box<Type>),
    Array(Box<Type>),
    Mapping(Box<Type>, Box<Type>),
    Tensor(Box<Type>, Vec<u64>),
    Named(String),
}

/// A function parameter: a name and its declared type.
#[derive(Debug, PartialEq)]
pub struct Parameter {
    pub name: String,
    pub ty: Type,
}

/// An attribute on a function: a name and its argument list. Only the
/// number of arguments matters to signature rendering.
#[derive(Debug, PartialEq)]
pub struct Attribute {
    pub name: String,
    pub args: Vec<String>,
}

/// A statement of a function body, reduced to what scope extraction
/// reads: the name a `let`/`var` binds, a for-loop variable, and the
/// nested bodies of control flow. Statement forms that bind no name and
/// hold no body are collapsed into `Other`.
#[derive(Debug, PartialEq)]
pub enum Statement {
    Let { name: String },
    For { var: String, body: Vec<Statement> },
    If { then: Vec<Statement>, else_: Option<Vec<Statement>> },
    While { body: Vec<Statement> },
    Other,
}

/// A top-level or method function.
#[derive(Debug, PartialEq)]
pub struct Function {
    pub name: String,
    pub params: Vec<Parameter>,
    pub return_type: Option<Type>,
    pub body: Vec<Statement>,
    pub attrs: Vec<Attribute>,
    pub doc: Option<String>,
    pub span: Span,
}

/// A class: a name, its fields, its methods, and an optional doc string.
#[derive(Debug, PartialEq)]
pub struct Class {
    pub name: String,
    pub fields: Vec<Parameter>,
    pub methods: Vec<Function>,
    pub doc: Option<String>,
}

/// One top-level item of a program.
#[derive(Debug, PartialEq)]
pub enum Item {
    Function(Function),
    Class(Class),
}

/// A parsed document: its top-level items in source order.
#[derive(Debug, PartialEq)]
pub struct Program {
    pub items: Vec<Item>,
}

} // verus!
