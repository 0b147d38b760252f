//! An evaluator for compiled functions, so that lowered code has an
//! executable meaning inside the library.
//!
//! Integer arithmetic follows the lowered machine: add, subtract and
//! multiply wrap on 32 bits; signed division propagates an error value
//! on a zero divisor and on the one overflowing quotient, at evaluation
//! time.  Float values flow through as opaque bit patterns, so a float
//! constant evaluates to exactly its literal bits, but float arithmetic
//! and float comparison are not evaluated here: they are rejected with
//! an invalid-operation error.  An async wrapper evaluates as the
//! function it dispatches to.

use vstd::prelude::*;
use vstd::string::StringExecFns;
use crate::codegen::error::{cg_matches, CodeGenError, CodeGenIssue};
use crate::codegen::expression::{const_of_literal, instr_kind, Instr, Predicate};
use crate::codegen::generator::{
    find_aggregate, find_function, func_model, func_models, function_wf, instr_wf,
    AggregateModel, CompiledFunction, FunctionModel, ObjectModule, SlotModel, Terminator,
};
use crate::codegen::lower::{kind_of, value_kind, Layout, Value};
use crate::ast::{LiteralValue, Operator};

verus! {

/// The value one instruction evaluates to, given the values of the
/// instructions before it, the arguments, and the owning actor's field
/// values.
pub open spec fn eval_instr(
    values: Seq<Value>,
    ins: Instr,
    args: Seq<Value>,
    fields: Seq<Value>,
) -> Result<Value, CodeGenIssue> {
    match ins {
        Instr::ConstOp(v) => Ok(v),
        Instr::ParamOp { index, kind } => if index < args.len() {
            Ok(args[index as int])
        } else {
            Err(CodeGenIssue::InternalIssue("parameter index out of range"@))
        },
        Instr::FieldOp { index, kind } => if index < fields.len() {
            Ok(fields[index as int])
        } else {
            Err(CodeGenIssue::InternalIssue("field index out of range"@))
        },
        Instr::BinOp { kind, op, left, right } => if !(left < values.len() && right
            < values.len()) {
            Err(CodeGenIssue::InternalIssue("operand out of range"@))
        } else {
            match (values[left as int], values[right as int]) {
                (Value::IntVal(l), Value::IntVal(r)) => match op {
                    Operator::Add => Ok(Value::IntVal(l.wrapping_add(r))),
                    Operator::Subtract => Ok(Value::IntVal(l.wrapping_sub(r))),
                    Operator::Multiply => Ok(Value::IntVal(l.wrapping_mul(r))),
                    Operator::Divide => match l.checked_div(r) {
                        Some(q) => Ok(Value::IntVal(q)),
                        None => Err(
                            CodeGenIssue::OperationIssue("Division by zero or overflow"@),
                        ),
                    },
                },
                (Value::FloatVal(_), Value::FloatVal(_)) => Err(
                    CodeGenIssue::OperationIssue(
                        "Float arithmetic is not supported by the evaluator"@,
                    ),
                ),
                _ => Err(CodeGenIssue::InternalIssue("ill-kinded operands"@)),
            }
        },
        Instr::CmpOp { kind, pred, left, right } => if !(left < values.len() && right
            < values.len()) {
            Err(CodeGenIssue::InternalIssue("operand out of range"@))
        } else {
            match (values[left as int], values[right as int]) {
                (Value::IntVal(l), Value::IntVal(r)) => Ok(
                    Value::BoolVal(
                        match pred {
                            Predicate::Equal => l == r,
                            Predicate::NotEqual => l != r,
                            Predicate::LessThan => l < r,
                            Predicate::LessOrEqual => l <= r,
                            Predicate::GreaterThan => l > r,
                            Predicate::GreaterOrEqual => l >= r,
                        },
                    ),
                ),
                (Value::FloatVal(_), Value::FloatVal(_)) => Err(
                    CodeGenIssue::OperationIssue(
                        "Float comparison is not supported by the evaluator"@,
                    ),
                ),
                _ => Err(CodeGenIssue::InternalIssue("ill-kinded operands"@)),
            }
        },
    }
}

/// The values of a whole body, instruction by instruction, or its first
/// evaluation failure.
pub open spec fn eval_code(code: Seq<Instr>, args: Seq<Value>, fields: Seq<Value>) -> Result<
    Seq<Value>,
    CodeGenIssue,
>
    decreases code.len(),
{
    if code.len() == 0 {
        Ok(Seq::empty())
    } else {
        match eval_code(code.drop_last(), args, fields) {
            Err(i) => Err(i),
            Ok(values) => match eval_instr(values, code.last(), args, fields) {
                Err(i) => Err(i),
                Ok(v) => Ok(values.push(v)),
            },
        }
    }
}

/// Once a code prefix fails to evaluate, the whole body fails the same
/// way.
proof fn lemma_eval_code_err(code: Seq<Instr>, args: Seq<Value>, fields: Seq<Value>, k: int)
    requires
        0 <= k <= code.len(),
        eval_code(code.take(k), args, fields) is Err,
    ensures
        eval_code(code, args, fields) == eval_code(code.take(k), args, fields),
    decreases code.len() - k,
{
    if k == code.len() {
        assert(code.take(k) =~= code);
    } else {
        assert(code.take(k + 1).drop_last() =~= code.take(k));
        lemma_eval_code_err(code, args, fields, k + 1);
    }
}

/// What one function returns on given arguments and field values:
/// nothing for a void return, the chosen instruction's value otherwise.
pub open spec fn eval_direct(f: FunctionModel, args: Seq<Value>, fields: Seq<Value>) -> Result<
    Option<Value>,
    CodeGenIssue,
> {
    match eval_code(f.code, args, fields) {
        Err(i) => Err(i),
        Ok(values) => match f.terminator {
            None => Err(CodeGenIssue::ValidationIssue("function has no terminator"@)),
            Some(Terminator::RetVoid) => Ok(None),
            Some(Terminator::RetValue(id)) => if id < values.len() {
                Ok(Some(values[id as int]))
            } else {
                Err(CodeGenIssue::InternalIssue("result index out of range"@))
            },
        },
    }
}

/// What invoking a function by name returns: an async wrapper is
/// dispatched to the function it wraps, anything else evaluates
/// directly.
pub open spec fn invoke_outcome(
    funcs: Seq<FunctionModel>,
    name: Seq<char>,
    args: Seq<Value>,
    fields: Seq<Value>,
) -> Result<Option<Value>, CodeGenIssue> {
    match find_function(funcs, name) {
        None => Err(CodeGenIssue::MethodIssue("unknown function: "@ + name)),
        Some(j) => match funcs[j].wrapper_of {
            Some(target) => match find_function(funcs, target) {
                None => Err(CodeGenIssue::MethodIssue("unknown function: "@ + target)),
                Some(t) => if funcs[t].wrapper_of is Some {
                    Err(CodeGenIssue::InternalIssue("wrapper dispatches to a wrapper"@))
                } else {
                    eval_direct(funcs[t], args, fields)
                },
            },
            None => eval_direct(funcs[j], args, fields),
        },
    }
}


/// Whether argument values fit parameter layouts, kind by kind.
pub open spec fn args_fit(args: Seq<Value>, params: Seq<Layout>) -> bool {
    args.len() == params.len() && forall|i: int|
        0 <= i < args.len() ==> value_kind(#[trigger] args[i]) == kind_of(params[i])
}

/// Whether field values fit an aggregate's slots, kind by kind.
pub open spec fn fields_fit(fields: Seq<Value>, slots: Seq<SlotModel>) -> bool {
    fields.len() == slots.len() && forall|i: int|
        0 <= i < fields.len() ==> value_kind(#[trigger] fields[i]) == kind_of(slots[i].layout)
}

/// Well-formed code evaluates cleanly on fitting inputs: every
/// instruction yields a value of its annotated kind, and the only
/// failures are the declared arithmetic corner cases — never an
/// internal fault.
proof fn lemma_eval_code_wf(
    code: Seq<Instr>,
    params: Seq<Layout>,
    slots: Seq<SlotModel>,
    args: Seq<Value>,
    fields: Seq<Value>,
)
    requires
        forall|i: int| 0 <= i < code.len() ==> instr_wf(code, i, params, slots),
        args_fit(args, params),
        fields_fit(fields, slots),
    ensures
        match eval_code(code, args, fields) {
            Ok(values) => values.len() == code.len() && forall|i: int|
                0 <= i < code.len() ==> value_kind(#[trigger] values[i]) == instr_kind(code[i]),
            Err(issue) => issue is OperationIssue,
        },
    decreases code.len(),
{
    if code.len() > 0 {
        let prefix = code.drop_last();
        assert forall|i: int| 0 <= i < prefix.len() implies instr_wf(
            prefix,
            i,
            params,
            slots,
        ) by {
            assert(instr_wf(code, i, params, slots));
            assert(prefix[i] == code[i]);
            match code[i] {
                Instr::BinOp { kind, op, left, right } => {
                    assert(prefix[left as int] == code[left as int]);
                    assert(prefix[right as int] == code[right as int]);
                },
                Instr::CmpOp { kind, pred, left, right } => {
                    assert(prefix[left as int] == code[left as int]);
                    assert(prefix[right as int] == code[right as int]);
                },
                _ => {},
            }
        }
        lemma_eval_code_wf(prefix, params, slots, args, fields);
        assert(instr_wf(code, code.len() - 1, params, slots));
        match eval_code(prefix, args, fields) {
            Err(_) => {},
            Ok(values) => {
                match code.last() {
                    Instr::BinOp { kind, op, left, right } => {
                        assert(value_kind(values[left as int]) == instr_kind(
                            code[left as int],
                        ));
                        assert(value_kind(values[right as int]) == instr_kind(
                            code[right as int],
                        ));
                    },
                    Instr::CmpOp { kind, pred, left, right } => {
                        assert(value_kind(values[left as int]) == instr_kind(
                            code[left as int],
                        ));
                        assert(value_kind(values[right as int]) == instr_kind(
                            code[right as int],
                        ));
                    },
                    _ => {},
                }
            },
        }
    }
}

/// A function the module verifier accepts evaluates cleanly: on
/// arguments fitting its signature and field values fitting its owning
/// aggregate, it returns a value of the declared return layout's kind
/// (nothing, for a void function), or rejects one of the declared
/// arithmetic corner cases — never an internal fault.  No guarantee the
/// verifier established is lost at evaluation time.
pub proof fn lemma_verified_function_evaluates(
    aggs: Seq<AggregateModel>,
    funcs: Seq<FunctionModel>,
    f: FunctionModel,
    args: Seq<Value>,
    fields: Seq<Value>,
)
    requires
        function_wf(aggs, funcs, f),
        f.wrapper_of is None,
        args_fit(args, f.param_layouts),
        find_aggregate(aggs, f.owner) matches Some(a) && fields_fit(fields, aggs[a].fields),
    ensures
        match eval_direct(f, args, fields) {
            Ok(v) => match f.ret_layout {
                Some(rl) => v matches Some(x) && value_kind(x) == kind_of(rl),
                None => v is None,
            },
            Err(issue) => issue is OperationIssue,
        },
{
    let a = find_aggregate(aggs, f.owner)->Some_0;
    lemma_eval_code_wf(f.code, f.param_layouts, aggs[a].fields, args, fields);
}

/// A body that evaluates successfully yields one value per instruction.
pub proof fn lemma_eval_code_len(code: Seq<Instr>, args: Seq<Value>, fields: Seq<Value>)
    ensures
        eval_code(code, args, fields) matches Ok(values) ==> values.len() == code.len(),
    decreases code.len(),
{
    if code.len() > 0 {
        lemma_eval_code_len(code.drop_last(), args, fields);
    }
}

/// Compiling a literal of a numeric kind and evaluating the compiled
/// constant yields exactly the literal's value: an integer literal the
/// same 32-bit integer, a float literal the same bit pattern.  The
/// round trip holds under any bound variables, preceding code whose
/// evaluation succeeds, arguments and field values.
pub proof fn lemma_literal_round_trip(
    vars: Seq<(String, usize)>,
    code: Seq<Instr>,
    lit: LiteralValue,
    args: Seq<Value>,
    fields: Seq<Value>,
)
    requires
        eval_code(code, args, fields) is Ok,
    ensures
        ({
            let compiled = crate::codegen::expression::compile_expr(
                vars,
                code,
                crate::ast::Expression::Literal(lit),
            );
            &&& compiled matches Ok(res)
            &&& (eval_code(res.0, args, fields) matches Ok(values) && res.1 < values.len()
                && values[res.1] == const_of_literal(lit) && (lit matches LiteralValue::Int(n)
                ==> values[res.1] == Value::IntVal(n)) && (lit matches LiteralValue::Float(bits)
                ==> values[res.1] == Value::FloatVal(bits)))
        }),
{
    let compiled = crate::codegen::expression::compile_expr(
        vars,
        code,
        crate::ast::Expression::Literal(lit),
    );
    let res = compiled->Ok_0;
    assert(res.0.drop_last() =~= code);
    lemma_eval_code_len(code, args, fields);
}

/// An async wrapper preserves its underlying function's behaviour: when
/// the wrapper entry dispatches to a function, invoking the wrapper
/// returns exactly what invoking that function directly would compute.
pub proof fn lemma_wrapper_preserves_result(
    funcs: Seq<FunctionModel>,
    wrapper_name: Seq<char>,
    args: Seq<Value>,
    fields: Seq<Value>,
)
    requires
        find_function(funcs, wrapper_name) matches Some(j) && funcs[j].wrapper_of matches Some(
            target,
        ) && find_function(funcs, target) matches Some(t) && funcs[t].wrapper_of is None,
    ensures
        ({
            let j = find_function(funcs, wrapper_name)->Some_0;
            let target = funcs[j].wrapper_of->Some_0;
            let t = find_function(funcs, target)->Some_0;
            invoke_outcome(funcs, wrapper_name, args, fields) == eval_direct(
                funcs[t],
                args,
                fields,
            )
        }),
{
}

/// Looks a function up by name and evaluates it on the given arguments
/// and actor field values, dispatching an async wrapper to the function
/// it wraps.
#[verifier::loop_isolation(false)]
pub fn invoke(
    module: &ObjectModule,
    name: &str,
    args: &Vec<Value>,
    fields: &Vec<Value>,
) -> (r: Result<Option<Value>, CodeGenError>)
    ensures
        match invoke_outcome(func_models(module.functions@), name@, args@, fields@) {
            Ok(v) => r matches Ok(rv) && rv == v,
            Err(i) => r matches Err(e) && cg_matches(e, i),
        },
{
    let j = match find_function_index(&module.functions, name) {
        Some(j) => j,
        None => {
            let mut msg = String::from_str("unknown function: ");
            msg.append(name);
            return Err(CodeGenError::MethodCompilation(msg));
        },
    };
    let f = &module.functions[j];
    match &f.wrapper_of {
        Some(target) => {
            match find_function_index(&module.functions, target.as_str()) {
                None => {
                    let mut msg = String::from_str("unknown function: ");
                    msg.append(target.as_str());
                    Err(CodeGenError::MethodCompilation(msg))
                },
                Some(t) => {
                    let tf = &module.functions[t];
                    if tf.wrapper_of.is_some() {
                        Err(CodeGenError::Internal(
                            String::from_str("wrapper dispatches to a wrapper"),
                        ))
                    } else {
                        eval_function(tf, args, fields)
                    }
                },
            }
        },
        None => eval_function(f, args, fields),
    }
}

/// The first function of this name in the module.
#[verifier::loop_isolation(false)]
fn find_function_index(funcs: &Vec<CompiledFunction>, name: &str) -> (r: Option<usize>)
    ensures
        match find_function(func_models(funcs@), name@) {
            Some(j) => r matches Some(rj) && rj == j && j < funcs@.len(),
            None => r is None,
        },
{
    let n = funcs.len();
    let mut i: usize = 0;
    while i < n
        invariant
            i <= n,
            n == funcs@.len(),
            forall|k: int| 0 <= k < i ==> func_models(funcs@)[k].name != name@,
        decreases n - i,
    {
        if crate::table::str_eq_string(name, &funcs[i].name) {
            proof {
                crate::codegen::generator::lemma_find_function_from(
                    func_models(funcs@),
                    name@,
                    i as int,
                );
            }
            return Some(i);
        }
        i = i + 1;
    }
    proof {
        crate::codegen::generator::lemma_find_function_from(func_models(funcs@), name@, n as int);
    }
    None
}

/// Evaluates one non-wrapper function directly.
#[verifier::loop_isolation(false)]
fn eval_function(f: &CompiledFunction, args: &Vec<Value>, fields: &Vec<Value>) -> (r: Result<
    Option<Value>,
    CodeGenError,
>)
    ensures
        match eval_direct(func_model(*f), args@, fields@) {
            Ok(v) => r matches Ok(rv) && rv == v,
            Err(i) => r matches Err(e) && cg_matches(e, i),
        },
{
    let n = f.code.len();
    let mut values: Vec<Value> = Vec::new();
    let mut i: usize = 0;
    proof {
        assert(f.code@.take(0) =~= Seq::<Instr>::empty());
        assert(values@ =~= Seq::<Value>::empty());
    }
    while i < n
        invariant
            i <= n,
            n == f.code@.len(),
            values@.len() == i,
            eval_code(f.code@.take(i as int), args@, fields@) == Ok::<_, CodeGenIssue>(values@),
        decreases n - i,
    {
        proof {
            assert(f.code@.take(i as int + 1).drop_last() =~= f.code@.take(i as int));
            assert(f.code@.take(i as int + 1).last() == f.code@[i as int]);
        }
        let v: Value = match &f.code[i] {
            Instr::ConstOp(c) => c.clone(),
            Instr::ParamOp { index, kind } => {
                if *index < args.len() {
                    args[*index].clone()
                } else {
                    proof {
                        lemma_eval_code_err(f.code@, args@, fields@, i as int + 1);
                    }
                    return Err(CodeGenError::Internal(
                        String::from_str("parameter index out of range"),
                    ));
                }
            },
            Instr::FieldOp { index, kind } => {
                if *index < fields.len() {
                    fields[*index].clone()
                } else {
                    proof {
                        lemma_eval_code_err(f.code@, args@, fields@, i as int + 1);
                    }
                    return Err(CodeGenError::Internal(
                        String::from_str("field index out of range"),
                    ));
                }
            },
            Instr::BinOp { kind, op, left, right } => {
                if !(*left < values.len() && *right < values.len()) {
                    proof {
                        lemma_eval_code_err(f.code@, args@, fields@, i as int + 1);
                    }
                    return Err(CodeGenError::Internal(
                        String::from_str("operand out of range"),
                    ));
                }
                match (&values[*left], &values[*right]) {
                    (Value::IntVal(l), Value::IntVal(rr)) => {
                        match op {
                            Operator::Add => Value::IntVal(l.wrapping_add(*rr)),
                            Operator::Subtract => Value::IntVal(l.wrapping_sub(*rr)),
                            Operator::Multiply => Value::IntVal(l.wrapping_mul(*rr)),
                            Operator::Divide => {
                                match l.checked_div(*rr) {
                                    Some(q) => Value::IntVal(q),
                                    None => {
                                        proof {
                                            lemma_eval_code_err(
                                                f.code@,
                                                args@,
                                                fields@,
                                                i as int + 1,
                                            );
                                        }
                                        return Err(CodeGenError::InvalidOperation(
                                            String::from_str("Division by zero or overflow"),
                                        ));
                                    },
                                }
                            },
                        }
                    },
                    (Value::FloatVal(_), Value::FloatVal(_)) => {
                        proof {
                            lemma_eval_code_err(f.code@, args@, fields@, i as int + 1);
                        }
                        return Err(CodeGenError::InvalidOperation(
                            String::from_str("Float arithmetic is not supported by the evaluator"),
                        ));
                    },
                    _ => {
                        proof {
                            lemma_eval_code_err(f.code@, args@, fields@, i as int + 1);
                        }
                        return Err(CodeGenError::Internal(
                            String::from_str("ill-kinded operands"),
                        ));
                    },
                }
            },
            Instr::CmpOp { kind, pred, left, right } => {
                if !(*left < values.len() && *right < values.len()) {
                    proof {
                        lemma_eval_code_err(f.code@, args@, fields@, i as int + 1);
                    }
                    return Err(CodeGenError::Internal(
                        String::from_str("operand out of range"),
                    ));
                }
                match (&values[*left], &values[*right]) {
                    (Value::IntVal(l), Value::IntVal(rr)) => {
                        let b = match pred {
                            Predicate::Equal => *l == *rr,
                            Predicate::NotEqual => *l != *rr,
                            Predicate::LessThan => *l < *rr,
                            Predicate::LessOrEqual => *l <= *rr,
                            Predicate::GreaterThan => *l > *rr,
                            Predicate::GreaterOrEqual => *l >= *rr,
                        };
                        Value::BoolVal(b)
                    },
                    (Value::FloatVal(_), Value::FloatVal(_)) => {
                        proof {
                            lemma_eval_code_err(f.code@, args@, fields@, i as int + 1);
                        }
                        return Err(CodeGenError::InvalidOperation(
                            String::from_str("Float comparison is not supported by the evaluator"),
                        ));
                    },
                    _ => {
                        proof {
                            lemma_eval_code_err(f.code@, args@, fields@, i as int + 1);
                        }
                        return Err(CodeGenError::Internal(
                            String::from_str("ill-kinded operands"),
                        ));
                    },
                }
            },
        };
        values.push(v);
        i = i + 1;
    }
    proof {
        assert(f.code@.take(n as int) =~= f.code@);
    }
    match &f.terminator {
        None => Err(CodeGenError::Validation(String::from_str("function has no terminator"))),
        Some(Terminator::RetVoid) => Ok(None),
        Some(Terminator::RetValue(id)) => {
            if *id < values.len() {
                Ok(Some(values[*id].clone()))
            } else {
                Err(CodeGenError::Internal(String::from_str("result index out of range")))
            }
        },
    }
}

} // verus!
