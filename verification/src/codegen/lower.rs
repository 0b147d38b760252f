//! The type lowerer: source types to layout descriptors, default values,
//! sizes and copyability.
//!
//! The layout mapping targets a portable 32-bit WebAssembly-style
//! machine: pointers are 4 bytes wide, an optional value is a packed
//! composite of its inner layout followed by a one-byte presence flag.

use vstd::prelude::*;
use vstd::string::StringExecFns;
use crate::ast::Type;
use crate::codegen::error::{cg_matches, CodeGenError, CodeGenIssue};
use crate::table::{assoc_lookup, NameTable};

verus! {

/// A layout descriptor: the low-level representation chosen for a source
/// type.
#[derive(Debug)]
pub enum Layout {
    /// 32-bit signed integer.
    Int32,
    /// 64-bit IEEE-754 double.
    Float64,
    /// 1-bit boolean in the smallest addressable unit.
    Bool1,
    /// Owning pointer to a byte buffer (a string).
    BytePtr,
    /// Pointer to a registered aggregate layout.
    AggregatePtr(String),
    /// Pointer to a buffer of elements; the length is untracked.
    BufferPtr(Box<Layout>),
    /// Composite of an inner layout and a presence flag (an optional).
    Composite(Box<Layout>),
}

/// Structural equality of layouts, comparing aggregate names by content.
pub open spec fn layout_eq(a: Layout, b: Layout) -> bool
    decreases a,
{
    match (a, b) {
        (Layout::Int32, Layout::Int32) => true,
        (Layout::Float64, Layout::Float64) => true,
        (Layout::Bool1, Layout::Bool1) => true,
        (Layout::BytePtr, Layout::BytePtr) => true,
        (Layout::AggregatePtr(x), Layout::AggregatePtr(y)) => x@ == y@,
        (Layout::BufferPtr(x), Layout::BufferPtr(y)) => layout_eq(*x, *y),
        (Layout::Composite(x), Layout::Composite(y)) => layout_eq(*x, *y),
        _ => false,
    }
}

impl Clone for Layout {
    fn clone(&self) -> (res: Self)
        ensures
            res == *self,
        decreases *self,
    {
        match self {
            Layout::Int32 => Layout::Int32,
            Layout::Float64 => Layout::Float64,
            Layout::Bool1 => Layout::Bool1,
            Layout::BytePtr => Layout::BytePtr,
            Layout::AggregatePtr(name) => Layout::AggregatePtr(name.clone()),
            Layout::BufferPtr(elem) => Layout::BufferPtr(Box::new((**elem).clone())),
            Layout::Composite(inner) => Layout::Composite(Box::new((**inner).clone())),
        }
    }
}

/// Decides `layout_eq(*a, *b)` exactly.
pub fn layout_matches(a: &Layout, b: &Layout) -> (r: bool)
    ensures
        r == layout_eq(*a, *b),
    decreases *a,
{
    match (a, b) {
        (Layout::Int32, Layout::Int32) => true,
        (Layout::Float64, Layout::Float64) => true,
        (Layout::Bool1, Layout::Bool1) => true,
        (Layout::BytePtr, Layout::BytePtr) => true,
        (Layout::AggregatePtr(x), Layout::AggregatePtr(y)) => crate::table::str_eq_string(
            x.as_str(),
            y,
        ),
        (Layout::BufferPtr(x), Layout::BufferPtr(y)) => layout_matches(&**x, &**y),
        (Layout::Composite(x), Layout::Composite(y)) => layout_matches(&**x, &**y),
        _ => false,
    }
}

/// The value kind an operand of some layout has: the shape the
/// expression compiler checks when it combines operands.
#[derive(Debug, Clone, Copy, PartialEq, Eq, Structural)]
pub enum OperandKind {
    IntKind,
    FloatKind,
    BoolKind,
    PtrKind,
    CompositeKind,
}

/// The kind of a layout's values.
pub open spec fn kind_of(l: Layout) -> OperandKind {
    match l {
        Layout::Int32 => OperandKind::IntKind,
        Layout::Float64 => OperandKind::FloatKind,
        Layout::Bool1 => OperandKind::BoolKind,
        Layout::BytePtr => OperandKind::PtrKind,
        Layout::AggregatePtr(_) => OperandKind::PtrKind,
        Layout::BufferPtr(_) => OperandKind::PtrKind,
        Layout::Composite(_) => OperandKind::CompositeKind,
    }
}

/// The kind of a layout's values.
pub fn layout_kind(l: &Layout) -> (r: OperandKind)
    ensures
        r == kind_of(*l),
{
    match l {
        Layout::Int32 => OperandKind::IntKind,
        Layout::Float64 => OperandKind::FloatKind,
        Layout::Bool1 => OperandKind::BoolKind,
        Layout::BytePtr => OperandKind::PtrKind,
        Layout::AggregatePtr(_) => OperandKind::PtrKind,
        Layout::BufferPtr(_) => OperandKind::PtrKind,
        Layout::Composite(_) => OperandKind::CompositeKind,
    }
}

/// A low-level constant value.  A float value is its IEEE-754 bit
/// pattern; a string value stands for a reference to an interned
/// constant buffer holding those bytes.
#[derive(Debug)]
pub enum Value {
    IntVal(i32),
    FloatVal(u64),
    BoolVal(bool),
    StrVal(String),
    NullPtr,
    OptionalVal(Box<Value>, bool),
}

/// The kind of a value.
pub open spec fn value_kind(v: Value) -> OperandKind {
    match v {
        Value::IntVal(_) => OperandKind::IntKind,
        Value::FloatVal(_) => OperandKind::FloatKind,
        Value::BoolVal(_) => OperandKind::BoolKind,
        Value::StrVal(_) => OperandKind::PtrKind,
        Value::NullPtr => OperandKind::PtrKind,
        Value::OptionalVal(_, _) => OperandKind::CompositeKind,
    }
}

/// The kind of a value.
pub fn value_kind_of(v: &Value) -> (r: OperandKind)
    ensures
        r == value_kind(*v),
{
    match v {
        Value::IntVal(_) => OperandKind::IntKind,
        Value::FloatVal(_) => OperandKind::FloatKind,
        Value::BoolVal(_) => OperandKind::BoolKind,
        Value::StrVal(_) => OperandKind::PtrKind,
        Value::NullPtr => OperandKind::PtrKind,
        Value::OptionalVal(_, _) => OperandKind::CompositeKind,
    }
}

impl Clone for Value {
    fn clone(&self) -> (res: Self)
        ensures
            res == *self,
        decreases *self,
    {
        match self {
            Value::IntVal(i) => Value::IntVal(*i),
            Value::FloatVal(bits) => Value::FloatVal(*bits),
            Value::BoolVal(b) => Value::BoolVal(*b),
            Value::StrVal(s) => Value::StrVal(s.clone()),
            Value::NullPtr => Value::NullPtr,
            Value::OptionalVal(inner, present) => Value::OptionalVal(
                Box::new((**inner).clone()),
                *present,
            ),
        }
    }
}

/// The layout a type lowers to against a registry of aggregate names, or
/// the failure naming the unknown custom type.
pub open spec fn lower_outcome(reg: Seq<(String, bool)>, ty: Type) -> Result<
    Layout,
    CodeGenIssue,
>
    decreases ty,
{
    match ty {
        Type::Int => Ok(Layout::Int32),
        Type::Float => Ok(Layout::Float64),
        Type::String => Ok(Layout::BytePtr),
        Type::Bool => Ok(Layout::Bool1),
        Type::Custom(name) => if assoc_lookup(reg, name@) is Some {
            Ok(Layout::AggregatePtr(name))
        } else {
            Err(CodeGenIssue::TypeConversionIssue("Unknown custom type: "@ + name@))
        },
        Type::Array(elem) => match lower_outcome(reg, *elem) {
            Ok(l) => Ok(Layout::BufferPtr(Box::new(l))),
            Err(i) => Err(i),
        },
        Type::Optional(inner) => match lower_outcome(reg, *inner) {
            Ok(l) => Ok(Layout::Composite(Box::new(l))),
            Err(i) => Err(i),
        },
    }
}

/// The default value of a type: zero, false or a null pointer; an
/// optional defaults to the composite of the inner default with the
/// presence flag cleared.
pub open spec fn default_outcome(reg: Seq<(String, bool)>, ty: Type) -> Result<
    Value,
    CodeGenIssue,
>
    decreases ty,
{
    match ty {
        Type::Int => Ok(Value::IntVal(0)),
        Type::Float => Ok(Value::FloatVal(0)),
        Type::String => Ok(Value::NullPtr),
        Type::Bool => Ok(Value::BoolVal(false)),
        Type::Custom(name) => if assoc_lookup(reg, name@) is Some {
            Ok(Value::NullPtr)
        } else {
            Err(CodeGenIssue::TypeConversionIssue("Unknown custom type: "@ + name@))
        },
        Type::Array(_) => Ok(Value::NullPtr),
        Type::Optional(inner) => match default_outcome(reg, *inner) {
            Ok(v) => Ok(Value::OptionalVal(Box::new(v), false)),
            Err(i) => Err(i),
        },
    }
}

/// The byte size of a layout: 4 for a 32-bit integer or a pointer, 8 for
/// a double, 1 for a boolean, and for a composite the packed sum of the
/// inner size and the one-byte presence flag.
pub open spec fn layout_size(l: Layout) -> nat
    decreases l,
{
    match l {
        Layout::Int32 => 4,
        Layout::Float64 => 8,
        Layout::Bool1 => 1,
        Layout::BytePtr => 4,
        Layout::AggregatePtr(_) => 4,
        Layout::BufferPtr(_) => 4,
        Layout::Composite(inner) => layout_size(*inner) + 1,
    }
}

/// Whether values of a type may be duplicated freely: the numeric and
/// boolean primitives, and an optional of a copyable type.  Strings,
/// custom types and arrays are ownership-managed.
pub open spec fn copyable(ty: Type) -> bool
    decreases ty,
{
    match ty {
        Type::Int => true,
        Type::Float => true,
        Type::Bool => true,
        Type::String => false,
        Type::Custom(_) => false,
        Type::Array(_) => false,
        Type::Optional(inner) => copyable(*inner),
    }
}

/// Lowers source types against the registry of custom aggregate names.
/// The registry must be fully populated before lowering begins: a
/// registration pass declares every actor's name, then the lowering
/// passes resolve against it.
pub struct TypeConverter {
    pub struct_types: NameTable<bool>,
}

impl TypeConverter {
    /// A converter with an empty registry.
    pub fn new() -> (c: Self)
        ensures
            c.struct_types@ =~= Seq::<(String, bool)>::empty(),
    {
        TypeConverter { struct_types: NameTable::new() }
    }

    /// Registers a custom aggregate whose body has been set.  The entry's
    /// flag records that; the body itself lives in the emitted module.
    pub fn register_struct_type(&mut self, name: String)
        ensures
            final(self).struct_types@ == old(self).struct_types@.push((name, true)),
    {
        self.struct_types.insert(name, true);
    }

    /// Declares a custom aggregate by name only, leaving it opaque; a
    /// pointer to it can then be lowered before its body is set.
    pub fn declare_struct_type(&mut self, name: String)
        ensures
            final(self).struct_types@ == old(self).struct_types@.push((name, false)),
    {
        self.struct_types.insert(name, false);
    }

    /// Whether a custom aggregate of this name is registered.
    pub fn is_registered(&self, name: &str) -> (r: bool)
        ensures
            r == (assoc_lookup(self.struct_types@, name@) is Some),
    {
        self.struct_types.contains(name)
    }

    /// Lowers a source type to its layout descriptor.
    pub fn convert_type(&self, ty: &Type) -> (r: Result<Layout, CodeGenError>)
        ensures
            match lower_outcome(self.struct_types@, *ty) {
                Ok(l) => r matches Ok(rl) && rl == l,
                Err(i) => r matches Err(e) && cg_matches(e, i),
            },
        decreases *ty,
    {
        match ty {
            Type::Int => Ok(Layout::Int32),
            Type::Float => Ok(Layout::Float64),
            Type::String => Ok(Layout::BytePtr),
            Type::Bool => Ok(Layout::Bool1),
            Type::Custom(name) => {
                if self.struct_types.contains(name.as_str()) {
                    Ok(Layout::AggregatePtr(name.clone()))
                } else {
                    let mut msg = String::from_str("Unknown custom type: ");
                    msg.append(name.as_str());
                    Err(CodeGenError::TypeConversion(msg))
                }
            },
            Type::Array(elem) => match self.convert_type(&**elem) {
                Ok(l) => Ok(Layout::BufferPtr(Box::new(l))),
                Err(e) => Err(e),
            },
            Type::Optional(inner) => match self.convert_type(&**inner) {
                Ok(l) => Ok(Layout::Composite(Box::new(l))),
                Err(e) => Err(e),
            },
        }
    }

    /// The default value of a type: zero, false or a null pointer, and
    /// for an optional the composite of the inner default with the
    /// presence flag cleared.
    pub fn create_default_value(&self, ty: &Type) -> (r: Result<Value, CodeGenError>)
        ensures
            match default_outcome(self.struct_types@, *ty) {
                Ok(v) => r matches Ok(rv) && rv == v,
                Err(i) => r matches Err(e) && cg_matches(e, i),
            },
        decreases *ty,
    {
        match ty {
            Type::Int => Ok(Value::IntVal(0)),
            Type::Float => Ok(Value::FloatVal(0)),
            Type::String => Ok(Value::NullPtr),
            Type::Bool => Ok(Value::BoolVal(false)),
            Type::Custom(name) => {
                if self.struct_types.contains(name.as_str()) {
                    Ok(Value::NullPtr)
                } else {
                    let mut msg = String::from_str("Unknown custom type: ");
                    msg.append(name.as_str());
                    Err(CodeGenError::TypeConversion(msg))
                }
            },
            Type::Array(_) => Ok(Value::NullPtr),
            Type::Optional(inner) => match self.create_default_value(&**inner) {
                Ok(v) => Ok(Value::OptionalVal(Box::new(v), false)),
                Err(e) => Err(e),
            },
        }
    }

    /// The byte size of a type's layout, when it fits in 32 bits.
    pub fn get_type_size(&self, ty: &Type) -> (r: Result<u32, CodeGenError>)
        ensures
            match lower_outcome(self.struct_types@, *ty) {
                Err(i) => r matches Err(e) && cg_matches(e, i),
                Ok(l) => if layout_size(l) <= u32::MAX {
                    r matches Ok(n) && n == layout_size(l)
                } else {
                    r matches Err(e) && e is MemoryError
                },
            },
    {
        let layout = match self.convert_type(ty) {
            Ok(l) => l,
            Err(e) => {
                return Err(e);
            },
        };
        match layout_size_checked(&layout) {
            Some(n) => Ok(n),
            None => Err(CodeGenError::MemoryError(
                String::from_str("type size exceeds the 32-bit range"),
            )),
        }
    }

    /// Whether values of the type may be duplicated freely.
    pub fn is_copyable(&self, ty: &Type) -> (r: bool)
        ensures
            r == copyable(*ty),
    {
        type_copyable(ty)
    }
}

/// Whether values of the type may be duplicated freely.
pub fn type_copyable(ty: &Type) -> (r: bool)
    ensures
        r == copyable(*ty),
    decreases *ty,
{
    match ty {
        Type::Int => true,
        Type::Float => true,
        Type::Bool => true,
        Type::String => false,
        Type::Custom(_) => false,
        Type::Array(_) => false,
        Type::Optional(inner) => type_copyable(&**inner),
    }
}

/// The byte size of a layout, or nothing when it exceeds 32 bits.
pub fn layout_size_checked(l: &Layout) -> (r: Option<u32>)
    ensures
        match r {
            Some(n) => n == layout_size(*l),
            None => layout_size(*l) > u32::MAX,
        },
    decreases *l,
{
    match l {
        Layout::Int32 => Some(4),
        Layout::Float64 => Some(8),
        Layout::Bool1 => Some(1),
        Layout::BytePtr => Some(4),
        Layout::AggregatePtr(_) => Some(4),
        Layout::BufferPtr(_) => Some(4),
        Layout::Composite(inner) => match layout_size_checked(&**inner) {
            Some(n) => n.checked_add(1),
            None => None,
        },
    }
}

} // verus!
