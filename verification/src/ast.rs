//! The syntax model: the typed entities every other stage consumes.
//!
//! A syntax tree is produced once by the front end and never mutated
//! afterwards; the analyzer and the code generator build derived state
//! beside it.  Float literals are carried as their IEEE-754 bit pattern
//! (`u64`), so the tree itself stays free of floating-point arithmetic.

use vstd::prelude::*;

verus! {

/// A source-language type.
#[derive(Debug)]
pub enum Type {
    Int,
    Float,
    String,
    Bool,
    Custom(String),
    Array(Box<Type>),
    Optional(Box<Type>),
}

/// Structural equality of two types, comparing custom-type names by content.
pub open spec fn type_eq(a: Type, b: Type) -> bool
    decreases a,
{
    match (a, b) {
        (Type::Int, Type::Int) => true,
        (Type::Float, Type::Float) => true,
        (Type::String, Type::String) => true,
        (Type::Bool, Type::Bool) => true,
        (Type::Custom(x), Type::Custom(y)) => x@ == y@,
        (Type::Array(x), Type::Array(y)) => type_eq(*x, *y),
        (Type::Optional(x), Type::Optional(y)) => type_eq(*x, *y),
        _ => false,
    }
}

impl Clone for Type {
    fn clone(&self) -> (res: Self)
        ensures
            res == *self,
        decreases *self,
    {
        match self {
            Type::Int => Type::Int,
            Type::Float => Type::Float,
            Type::String => Type::String,
            Type::Bool => Type::Bool,
            Type::Custom(name) => Type::Custom(name.clone()),
            Type::Array(elem) => Type::Array(Box::new((**elem).clone())),
            Type::Optional(inner) => Type::Optional(Box::new((**inner).clone())),
        }
    }
}

/// Resource-transfer semantics of a field or parameter.
#[derive(Debug, Clone, Copy, PartialEq, Eq, Structural)]
pub enum OwnershipType {
    Owned,
    Moved,
    Shared,
    Copied,
}

/// Whether an actor lives in one process or across several.
#[derive(Debug, Clone, Copy, PartialEq, Eq, Structural)]
pub enum ActorType {
    Distributed,
    Single,
}

/// A method parameter.  Ownership defaults to `Owned` at parse time.
#[derive(Debug)]
pub struct Parameter {
    pub name: String,
    pub param_type: Type,
    pub ownership: OwnershipType,
}

/// An actor field.  `Moved` fields must be immutable and `Shared` fields
/// mutable; the semantic analyzer enforces both.
#[derive(Debug)]
pub struct Field {
    pub name: String,
    pub field_type: Type,
    pub is_mutable: bool,
    pub ownership: OwnershipType,
}

/// Ownership facts tracked for one bound name.
#[derive(Debug, Clone, Copy)]
pub struct OwnershipInfo {
    pub ownership_type: OwnershipType,
    pub is_mutable: bool,
}

/// An actor declaration: the unit of analysis and of code generation.
/// Field and method declaration order is significant.
#[derive(Debug)]
pub struct Actor {
    pub name: String,
    pub actor_type: ActorType,
    pub methods: Vec<Method>,
    pub fields: Vec<Field>,
}

/// A method declaration.  `is_sequential` implies `is_async`, and
/// `is_immediate` is lawful only on a method named "init" of a
/// non-distributed actor; the semantic analyzer enforces both.
#[derive(Debug)]
pub struct Method {
    pub name: String,
    pub is_async: bool,
    pub is_sequential: bool,
    pub is_immediate: bool,
    pub params: Vec<Parameter>,
    pub return_type: Option<Type>,
    pub body: Option<MethodBody>,
}

/// An arithmetic operator.
#[derive(Debug, Clone, Copy, PartialEq, Eq, Structural)]
pub enum Operator {
    Add,
    Subtract,
    Multiply,
    Divide,
}

/// A literal.  A float literal holds the bit pattern of its IEEE-754
/// double value, never the value itself.
#[derive(Debug)]
pub enum LiteralValue {
    Int(i32),
    Float(u64),
    String(String),
    Bool(bool),
}

/// An expression tree.
#[derive(Debug)]
pub enum Expression {
    BinaryOp { left: Box<Expression>, operator: Operator, right: Box<Expression> },
    Literal(LiteralValue),
    Variable(String),
}

/// A statement: return a value, or evaluate for effect.
#[derive(Debug)]
pub enum Statement {
    Return(Expression),
    Expression(Expression),
}

/// An ordered method body.
#[derive(Debug)]
pub struct MethodBody {
    pub statements: Vec<Statement>,
}

} // verus!
