//! The abstract syntax tree: a closed set of type and node variants.
//!
//! Values of these enums are pure data.  Every composite variant exclusively
//! owns its children, so a program is a strict tree: no sharing, no cycles.

use vstd::prelude::*;

verus! {

/// A target-language type.  `Pointer` nesting is unbounded but always
/// terminates in one of the five base variants.
#[derive(Debug)]
pub enum Type {
    Uint32,
    Uint64,
    Int32,
    Int64,
    NoneType,
    Pointer(Box<Type>),
}

/// One unit of the syntax tree.  Expressions and statements share this one
/// variant set; the language does not distinguish them at the type level.
#[derive(Debug)]
pub enum Node {
    /// Wraps a [`Type`] for use in a value position, such as a return type.
    TypeRef(Type),
    /// A bare identifier reference.
    Name(String),
    /// A literal integer, stored as unparsed text.
    IntLiteral(String),
    /// `BinaryOp(operator, left, right)`: the operator token is passed
    /// through verbatim; no parenthesization is added.
    BinaryOp(String, Box<Node>, Box<Node>),
    /// `Declare(name, declared_type, initializer)`: introduces a new typed
    /// binding.
    Declare(String, Box<Node>, Box<Node>),
    /// `Reassign(name, value)`: assigns to an existing binding.
    Reassign(String, Box<Node>),
    /// A module/header inclusion directive.
    Import(String),
    /// `FunctionDef(name, parameters, return_type, body)`: parameters keep
    /// their declaration order, which becomes argument order in the emitted
    /// signature.
    FunctionDef(String, Vec<(String, Node)>, Box<Node>, Box<Node>),
    /// `Call(function_name, arguments)`: arguments are pre-rendered text
    /// fragments, not nested nodes.
    Call(String, Vec<String>),
    /// An ordered sequence of statements; order is execution order.
    Block(Vec<Node>),
    /// `If(condition, then_branch, else_branch)`.
    If(Box<Node>, Box<Node>, Option<Box<Node>>),
    /// `While(condition, body)`.
    While(Box<Node>, Box<Node>),
    /// `Return(value)`.
    Return(Box<Node>),
}

} // verus!
