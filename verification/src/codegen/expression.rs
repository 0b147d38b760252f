//! The expression compiler: lowers expression trees to straight-line
//! typed instructions over a flat variable table.
//!
//! Each compiled function's body is a sequence of instructions; an
//! operand names an earlier instruction by index.  A binary operation
//! requires both operands of the same numeric kind — both 32-bit integer
//! or both double — and anything else is rejected, as is a comparison on
//! other kinds.  The table binds one function's names only: parameters
//! (and the enclosing actor's fields) are bound once at entry, with no
//! nested lexical blocks.

use vstd::prelude::*;
use vstd::string::StringExecFns;
use crate::ast::{Expression, LiteralValue, Operator};
use crate::codegen::error::{cg_matches, CodeGenError, CodeGenIssue};
use crate::codegen::lower::{value_kind, value_kind_of, OperandKind, Value};
use crate::table::{assoc_lookup, NameTable};

verus! {

/// A comparison predicate.  Integer comparisons are signed; float
/// comparisons are the ordered variants.
#[derive(Debug, Clone, Copy, PartialEq, Eq, Structural)]
pub enum Predicate {
    Equal,
    NotEqual,
    LessThan,
    LessOrEqual,
    GreaterThan,
    GreaterOrEqual,
}

/// One typed instruction.  Operands name earlier instructions of the
/// same body by index.
#[derive(Debug)]
pub enum Instr {
    /// Materializes a constant.
    ConstOp(Value),
    /// The value of the function's parameter `index`.
    ParamOp { index: usize, kind: OperandKind },
    /// The current value of the owning actor's field `index`.
    FieldOp { index: usize, kind: OperandKind },
    /// Arithmetic on two operands of the given numeric kind.
    BinOp { kind: OperandKind, op: Operator, left: usize, right: usize },
    /// A comparison of two operands of the given kind; the result is
    /// boolean.
    CmpOp { kind: OperandKind, pred: Predicate, left: usize, right: usize },
}

/// The kind of the value an instruction produces.
pub open spec fn instr_kind(i: Instr) -> OperandKind {
    match i {
        Instr::ConstOp(v) => value_kind(v),
        Instr::ParamOp { index, kind } => kind,
        Instr::FieldOp { index, kind } => kind,
        Instr::BinOp { kind, op, left, right } => kind,
        Instr::CmpOp { kind, pred, left, right } => OperandKind::BoolKind,
    }
}

/// The constant a literal compiles to.  An integer or float literal
/// yields an immediate of the matching layout carrying exactly the
/// literal's value; a string literal a reference to an interned constant
/// buffer with the literal's content.
pub open spec fn const_of_literal(v: LiteralValue) -> Value {
    match v {
        LiteralValue::Int(i) => Value::IntVal(i),
        LiteralValue::Float(bits) => Value::FloatVal(bits),
        LiteralValue::String(s) => Value::StrVal(s),
        LiteralValue::Bool(b) => Value::BoolVal(b),
    }
}

/// The code and result index an expression compiles to, appended after
/// `code`, or the failure inside it: an unbound name, or operands whose
/// kinds do not agree on a numeric kind.
pub open spec fn compile_expr(
    vars: Seq<(String, usize)>,
    code: Seq<Instr>,
    e: Expression,
) -> Result<(Seq<Instr>, int), CodeGenIssue>
    decreases e,
{
    match e {
        Expression::Literal(v) => Ok(
            (code.push(Instr::ConstOp(const_of_literal(v))), code.len() as int),
        ),
        Expression::Variable(name) => match assoc_lookup(vars, name@) {
            Some(id) => Ok((code, id as int)),
            None => Err(CodeGenIssue::UndefinedVarIssue(name@)),
        },
        Expression::BinaryOp { left, operator, right } => match compile_expr(vars, code, *left) {
            Err(i) => Err(i),
            Ok(res_l) => match compile_expr(vars, res_l.0, *right) {
                Err(i) => Err(i),
                Ok(res_r) => {
                    let c2 = res_r.0;
                    let l = res_l.1;
                    let r = res_r.1;
                    if !(l < c2.len() && r < c2.len()) {
                        Err(CodeGenIssue::InternalIssue("operand out of range"@))
                    } else {
                        let lk = instr_kind(c2[l]);
                        let rk = instr_kind(c2[r]);
                        if lk is IntKind && rk is IntKind {
                            Ok(
                                (
                                    c2.push(
                                        Instr::BinOp {
                                            kind: OperandKind::IntKind,
                                            op: operator,
                                            left: l as usize,
                                            right: r as usize,
                                        },
                                    ),
                                    c2.len() as int,
                                ),
                            )
                        } else if lk is FloatKind && rk is FloatKind {
                            Ok(
                                (
                                    c2.push(
                                        Instr::BinOp {
                                            kind: OperandKind::FloatKind,
                                            op: operator,
                                            left: l as usize,
                                            right: r as usize,
                                        },
                                    ),
                                    c2.len() as int,
                                ),
                            )
                        } else {
                            Err(
                                CodeGenIssue::ExpressionIssue(
                                    "Incompatible types for binary operation"@,
                                ),
                            )
                        }
                    }
                },
            },
        },
    }
}

/// The code and result index a comparison compiles to, or its failure.
/// `want` is the operand kind the comparison requires of both sides.
pub open spec fn compile_cmp(
    vars: Seq<(String, usize)>,
    code: Seq<Instr>,
    left: Expression,
    pred: Predicate,
    right: Expression,
    want: OperandKind,
    mismatch: Seq<char>,
) -> Result<(Seq<Instr>, int), CodeGenIssue> {
    match compile_expr(vars, code, left) {
        Err(i) => Err(i),
        Ok(res_l) => match compile_expr(vars, res_l.0, right) {
            Err(i) => Err(i),
            Ok(res_r) => {
                let c2 = res_r.0;
                let l = res_l.1;
                let r = res_r.1;
                if !(l < c2.len() && r < c2.len()) {
                    Err(CodeGenIssue::InternalIssue("operand out of range"@))
                } else if instr_kind(c2[l]) == want && instr_kind(c2[r]) == want {
                    Ok(
                        (
                            c2.push(
                                Instr::CmpOp {
                                    kind: want,
                                    pred: pred,
                                    left: l as usize,
                                    right: r as usize,
                                },
                            ),
                            c2.len() as int,
                        ),
                    )
                } else {
                    Err(CodeGenIssue::ExpressionIssue(mismatch))
                }
            },
        },
    }
}

/// Compiles expressions into one growing instruction body, against a
/// flat table from names to instruction indices.
pub struct ExpressionCompiler {
    pub variables: NameTable<usize>,
    pub code: Vec<Instr>,
}

impl ExpressionCompiler {
    /// A compiler with no bound names and an empty body.
    pub fn new() -> (c: Self)
        ensures
            c.variables@ =~= Seq::<(String, usize)>::empty(),
            c.code@ =~= Seq::<Instr>::empty(),
    {
        ExpressionCompiler { variables: NameTable::new(), code: Vec::new() }
    }

    /// Binds `name` to the value of instruction `value_id`.
    pub fn register_variable(&mut self, name: String, value_id: usize)
        ensures
            final(self).variables@ == old(self).variables@.push((name, value_id)),
            final(self).code@ == old(self).code@,
    {
        self.variables.insert(name, value_id);
    }

    /// Unbinds every name.
    pub fn clear_variables(&mut self)
        ensures
            final(self).variables@ =~= Seq::<(String, usize)>::empty(),
            final(self).code@ == old(self).code@,
    {
        self.variables = NameTable::new();
    }

    /// The kind of the value instruction `id` produces.
    fn kind_at(&self, id: usize) -> (k: OperandKind)
        requires
            id < self.code@.len(),
        ensures
            k == instr_kind(self.code@[id as int]),
    {
        match &self.code[id] {
            Instr::ConstOp(v) => value_kind_of(v),
            Instr::ParamOp { kind, .. } => *kind,
            Instr::FieldOp { kind, .. } => *kind,
            Instr::BinOp { kind, .. } => *kind,
            Instr::CmpOp { .. } => OperandKind::BoolKind,
        }
    }

    /// Appends the instructions an expression lowers to and returns the
    /// index of its result.  On failure the variable table is untouched
    /// and the partially appended code is the caller's to discard.
    pub fn compile_expression(&mut self, expr: &Expression) -> (r: Result<usize, CodeGenError>)
        ensures
            final(self).variables@ == old(self).variables@,
            match compile_expr(old(self).variables@, old(self).code@, *expr) {
                Ok(res) => r matches Ok(id) && id as int == res.1 && final(self).code@ == res.0,
                Err(i) => r matches Err(e) && cg_matches(e, i),
            },
        decreases *expr,
    {
        match expr {
            Expression::Literal(value) => {
                let id = self.compile_literal(value);
                Ok(id)
            },
            Expression::Variable(name) => self.compile_variable(name.as_str()),
            Expression::BinaryOp { left, operator, right } => {
                let left_id = match self.compile_expression(&**left) {
                    Ok(id) => id,
                    Err(e) => {
                        return Err(e);
                    },
                };
                let right_id = match self.compile_expression(&**right) {
                    Ok(id) => id,
                    Err(e) => {
                        return Err(e);
                    },
                };
                if !(left_id < self.code.len() && right_id < self.code.len()) {
                    return Err(CodeGenError::Internal(String::from_str("operand out of range")));
                }
                let lk = self.kind_at(left_id);
                let rk = self.kind_at(right_id);
                if lk == OperandKind::IntKind && rk == OperandKind::IntKind {
                    let id = self.code.len();
                    self.code.push(
                        Instr::BinOp {
                            kind: OperandKind::IntKind,
                            op: *operator,
                            left: left_id,
                            right: right_id,
                        },
                    );
                    Ok(id)
                } else if lk == OperandKind::FloatKind && rk == OperandKind::FloatKind {
                    let id = self.code.len();
                    self.code.push(
                        Instr::BinOp {
                            kind: OperandKind::FloatKind,
                            op: *operator,
                            left: left_id,
                            right: right_id,
                        },
                    );
                    Ok(id)
                } else {
                    Err(CodeGenError::ExpressionCompilation(
                        String::from_str("Incompatible types for binary operation"),
                    ))
                }
            },
        }
    }

    /// Appends the constant a literal lowers to and returns its index.
    pub fn compile_literal(&mut self, value: &LiteralValue) -> (id: usize)
        ensures
            final(self).variables@ == old(self).variables@,
            final(self).code@ == old(self).code@.push(Instr::ConstOp(const_of_literal(*value))),
            id == old(self).code@.len(),
    {
        let constant = match value {
            LiteralValue::Int(i) => Value::IntVal(*i),
            LiteralValue::Float(bits) => Value::FloatVal(*bits),
            LiteralValue::String(s) => Value::StrVal(s.clone()),
            LiteralValue::Bool(b) => Value::BoolVal(*b),
        };
        let id = self.code.len();
        self.code.push(Instr::ConstOp(constant));
        id
    }

    /// The instruction index a name is bound to.
    pub fn compile_variable(&self, name: &str) -> (r: Result<usize, CodeGenError>)
        ensures
            match assoc_lookup(self.variables@, name@) {
                Some(id) => r matches Ok(rid) && rid == id,
                None => r matches Err(e) && e matches CodeGenError::UndefinedVariable(m) && m@
                    == name@,
            },
    {
        match self.variables.get(name) {
            Some(id) => Ok(*id),
            None => Err(CodeGenError::UndefinedVariable(name.to_owned())),
        }
    }

    /// Compiles a signed integer comparison of two expressions.
    pub fn compile_comparison(
        &mut self,
        left: &Expression,
        predicate: Predicate,
        right: &Expression,
    ) -> (r: Result<usize, CodeGenError>)
        ensures
            final(self).variables@ == old(self).variables@,
            match compile_cmp(
                old(self).variables@,
                old(self).code@,
                *left,
                predicate,
                *right,
                OperandKind::IntKind,
                "Invalid types for comparison"@,
            ) {
                Ok(res) => r matches Ok(id) && id as int == res.1 && final(self).code@ == res.0,
                Err(i) => r matches Err(e) && cg_matches(e, i),
            },
    {
        self.compile_comparison_of_kind(
            left,
            predicate,
            right,
            OperandKind::IntKind,
            "Invalid types for comparison",
        )
    }

    /// Compiles an ordered float comparison of two expressions.
    pub fn compile_float_comparison(
        &mut self,
        left: &Expression,
        predicate: Predicate,
        right: &Expression,
    ) -> (r: Result<usize, CodeGenError>)
        ensures
            final(self).variables@ == old(self).variables@,
            match compile_cmp(
                old(self).variables@,
                old(self).code@,
                *left,
                predicate,
                *right,
                OperandKind::FloatKind,
                "Invalid types for float comparison"@,
            ) {
                Ok(res) => r matches Ok(id) && id as int == res.1 && final(self).code@ == res.0,
                Err(i) => r matches Err(e) && cg_matches(e, i),
            },
    {
        self.compile_comparison_of_kind(
            left,
            predicate,
            right,
            OperandKind::FloatKind,
            "Invalid types for float comparison",
        )
    }

    /// The shared body of the two comparison forms.
    fn compile_comparison_of_kind(
        &mut self,
        left: &Expression,
        predicate: Predicate,
        right: &Expression,
        want: OperandKind,
        mismatch: &str,
    ) -> (r: Result<usize, CodeGenError>)
        ensures
            final(self).variables@ == old(self).variables@,
            match compile_cmp(
                old(self).variables@,
                old(self).code@,
                *left,
                predicate,
                *right,
                want,
                mismatch@,
            ) {
                Ok(res) => r matches Ok(id) && id as int == res.1 && final(self).code@ == res.0,
                Err(i) => r matches Err(e) && cg_matches(e, i),
            },
    {
        let left_id = match self.compile_expression(left) {
            Ok(id) => id,
            Err(e) => {
                return Err(e);
            },
        };
        let right_id = match self.compile_expression(right) {
            Ok(id) => id,
            Err(e) => {
                return Err(e);
            },
        };
        if !(left_id < self.code.len() && right_id < self.code.len()) {
            return Err(CodeGenError::Internal(String::from_str("operand out of range")));
        }
        let lk = self.kind_at(left_id);
        let rk = self.kind_at(right_id);
        if lk == want && rk == want {
            let id = self.code.len();
            self.code.push(
                Instr::CmpOp { kind: want, pred: predicate, left: left_id, right: right_id },
            );
            Ok(id)
        } else {
            Err(CodeGenError::ExpressionCompilation(String::from_str(mismatch)))
        }
    }
}

} // verus!
