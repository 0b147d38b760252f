//! The code generator: turns a verified actor into an aggregate type and
//! compiled functions, verifies the module, and emits an object buffer.
//!
//! Compilation of one actor runs through fixed stages — declare the
//! aggregate, lower the fields, compile the methods in declaration
//! order, verify the module — and publishes its artifact only when every
//! stage succeeds: on any failure the module is left exactly as it was,
//! so no partially usable artifact exists (all-or-nothing per actor).
//!
//! Accessor functions for mutable fields are not synthesized; the
//! aggregate records each field's mutability so a later pass could.  An
//! async method additionally gets a wrapper entry that preserves the
//! underlying function's signature and is dispatched to it, standing for
//! exposure to the actor's concurrency substrate, which itself is out of
//! scope.

use vstd::prelude::*;
use vstd::string::StringExecFns;
use crate::ast::{Actor, Field, Method, Parameter, Statement, Type};
use crate::codegen::error::{cg_matches, prefixed_issue, CodeGenError, CodeGenIssue};
use crate::codegen::expression::{compile_expr, instr_kind, ExpressionCompiler, Instr};
use crate::codegen::lower::{
    default_outcome, kind_of, layout_eq, layout_kind, layout_matches, lower_outcome, Layout,
    OperandKind, TypeConverter,
};
use crate::codegen::{CodeGenOptions, OptimizationLevel};
use crate::table::{assoc_lookup, NameTable};

verus! {

/// The stages one actor's compilation runs through, in order.
#[derive(Debug, Clone, Copy, PartialEq, Eq, Structural)]
pub enum CompilationStage {
    Declared,
    StructTypeCreated,
    FieldsProcessed,
    MethodsCompiled,
    ModuleVerified,
    Ready,
}

/// One field of a compiled aggregate: its name, layout and mutability.
#[derive(Debug)]
pub struct FieldSlot {
    pub name: String,
    pub layout: Layout,
    pub is_mutable: bool,
}

/// A compiled aggregate type: the actor's fields in declaration order.
#[derive(Debug)]
pub struct AggregateType {
    pub name: String,
    pub fields: Vec<FieldSlot>,
}

/// How a function body ends.
#[derive(Debug, Clone, Copy, PartialEq, Eq, Structural)]
pub enum Terminator {
    /// Return the value of the named instruction.
    RetValue(usize),
    /// Return nothing.
    RetVoid,
}

/// A compiled function: its signature, body and role.
#[derive(Debug)]
pub struct CompiledFunction {
    pub name: String,
    pub owner: String,
    pub param_layouts: Vec<Layout>,
    pub ret_layout: Option<Layout>,
    pub code: Vec<Instr>,
    pub terminator: Option<Terminator>,
    pub is_async: bool,
    pub wrapper_of: Option<String>,
}

/// The lowered module: aggregates and functions, and whether the whole
/// module has passed verification since it last changed.
#[derive(Debug)]
pub struct ObjectModule {
    pub name: String,
    pub aggregates: Vec<AggregateType>,
    pub functions: Vec<CompiledFunction>,
    pub verified: bool,
}

/// Spec-level picture of a field slot.
pub struct SlotModel {
    pub name: Seq<char>,
    pub layout: Layout,
    pub is_mutable: bool,
}

/// Spec-level picture of an aggregate.
pub struct AggregateModel {
    pub name: Seq<char>,
    pub fields: Seq<SlotModel>,
}

/// Spec-level picture of a compiled function.
pub struct FunctionModel {
    pub name: Seq<char>,
    pub owner: Seq<char>,
    pub param_layouts: Seq<Layout>,
    pub ret_layout: Option<Layout>,
    pub code: Seq<Instr>,
    pub terminator: Option<Terminator>,
    pub is_async: bool,
    pub wrapper_of: Option<Seq<char>>,
}

/// The picture of a field slot.
pub open spec fn slot_model(s: FieldSlot) -> SlotModel {
    SlotModel { name: s.name@, layout: s.layout, is_mutable: s.is_mutable }
}

/// The picture of an aggregate.
pub open spec fn agg_model(a: AggregateType) -> AggregateModel {
    AggregateModel { name: a.name@, fields: a.fields@.map_values(|s: FieldSlot| slot_model(s)) }
}

/// The pictures of a module's aggregates.
pub open spec fn agg_models(aggs: Seq<AggregateType>) -> Seq<AggregateModel> {
    aggs.map_values(|a: AggregateType| agg_model(a))
}

/// The picture of a compiled function.
pub open spec fn func_model(f: CompiledFunction) -> FunctionModel {
    FunctionModel {
        name: f.name@,
        owner: f.owner@,
        param_layouts: f.param_layouts@,
        ret_layout: f.ret_layout,
        code: f.code@,
        terminator: f.terminator,
        is_async: f.is_async,
        wrapper_of: match f.wrapper_of {
            Some(s) => Some(s@),
            None => None,
        },
    }
}

/// The pictures of a module's functions.
pub open spec fn func_models(funcs: Seq<CompiledFunction>) -> Seq<FunctionModel> {
    funcs.map_values(|f: CompiledFunction| func_model(f))
}

/// The slots an actor's fields lower to, in declaration order, or the
/// first lowering failure.
pub open spec fn lower_fields(reg: Seq<(String, bool)>, fields: Seq<Field>) -> Result<
    Seq<SlotModel>,
    CodeGenIssue,
>
    decreases fields.len(),
{
    if fields.len() == 0 {
        Ok(Seq::empty())
    } else {
        match lower_fields(reg, fields.drop_last()) {
            Err(i) => Err(i),
            Ok(pre) => match lower_outcome(reg, fields.last().field_type) {
                Err(i) => Err(i),
                Ok(l) => Ok(
                    pre.push(
                        SlotModel {
                            name: fields.last().name@,
                            layout: l,
                            is_mutable: fields.last().is_mutable,
                        },
                    ),
                ),
            },
        }
    }
}

/// Once a field prefix fails to lower, the whole list fails the same way.
proof fn lemma_lower_fields_err(reg: Seq<(String, bool)>, fields: Seq<Field>, k: int)
    requires
        0 <= k <= fields.len(),
        lower_fields(reg, fields.take(k)) is Err,
    ensures
        lower_fields(reg, fields) == lower_fields(reg, fields.take(k)),
    decreases fields.len() - k,
{
    if k == fields.len() {
        assert(fields.take(k) =~= fields);
    } else {
        assert(fields.take(k + 1).drop_last() =~= fields.take(k));
        lemma_lower_fields_err(reg, fields, k + 1);
    }
}

/// The layouts a method's parameters lower to, in order, or the first
/// lowering failure.
pub open spec fn params_layouts(reg: Seq<(String, bool)>, params: Seq<Parameter>) -> Result<
    Seq<Layout>,
    CodeGenIssue,
>
    decreases params.len(),
{
    if params.len() == 0 {
        Ok(Seq::empty())
    } else {
        match params_layouts(reg, params.drop_last()) {
            Err(i) => Err(i),
            Ok(pre) => match lower_outcome(reg, params.last().param_type) {
                Err(i) => Err(i),
                Ok(l) => Ok(pre.push(l)),
            },
        }
    }
}

/// Once a parameter prefix fails to lower, the whole list fails the same
/// way.
proof fn lemma_params_layouts_err(reg: Seq<(String, bool)>, params: Seq<Parameter>, k: int)
    requires
        0 <= k <= params.len(),
        params_layouts(reg, params.take(k)) is Err,
    ensures
        params_layouts(reg, params) == params_layouts(reg, params.take(k)),
    decreases params.len() - k,
{
    if k == params.len() {
        assert(params.take(k) =~= params);
    } else {
        assert(params.take(k + 1).drop_last() =~= params.take(k));
        lemma_params_layouts_err(reg, params, k + 1);
    }
}

/// The layout a declared return type lowers to, if any.
pub open spec fn ret_layout_outcome(reg: Seq<(String, bool)>, rt: Option<Type>) -> Result<
    Option<Layout>,
    CodeGenIssue,
> {
    match rt {
        None => Ok(None),
        Some(ty) => match lower_outcome(reg, ty) {
            Ok(l) => Ok(Some(l)),
            Err(i) => Err(i),
        },
    }
}

/// The entry instructions of a compiled method: the owning actor's
/// fields, then the parameters, each materialized once.
pub open spec fn entry_code(slot_layouts: Seq<Layout>, param_layouts: Seq<Layout>) -> Seq<Instr> {
    Seq::new(
        slot_layouts.len(),
        |j: int| Instr::FieldOp { index: j as usize, kind: kind_of(slot_layouts[j]) },
    ) + Seq::new(
        param_layouts.len(),
        |i: int| Instr::ParamOp { index: i as usize, kind: kind_of(param_layouts[i]) },
    )
}

/// The variable table of a compiled method: field names bound first,
/// parameter names after them, so a parameter shadows a field of the
/// same name.
pub open spec fn entry_vars(fields: Seq<Field>, params: Seq<Parameter>) -> Seq<(String, usize)> {
    Seq::new(fields.len(), |j: int| (fields[j].name, j as usize)) + Seq::new(
        params.len(),
        |i: int| (params[i].name, (fields.len() + i) as usize),
    )
}

/// One step of statement compilation.  A statement after a terminator is
/// dropped silently: code after a return is unreachable by policy.
pub open spec fn stmts_step(
    vars: Seq<(String, usize)>,
    state: Result<(Seq<Instr>, Option<Terminator>), CodeGenIssue>,
    stmt: Statement,
) -> Result<(Seq<Instr>, Option<Terminator>), CodeGenIssue> {
    match state {
        Err(i) => Err(i),
        Ok(s) => if s.1 is Some {
            Ok(s)
        } else {
            match stmt {
                Statement::Return(e) => match compile_expr(vars, s.0, e) {
                    Err(i) => Err(i),
                    Ok(res) => Ok((res.0, Some(Terminator::RetValue(res.1 as usize)))),
                },
                Statement::Expression(e) => match compile_expr(vars, s.0, e) {
                    Err(i) => Err(i),
                    Ok(res) => Ok((res.0, s.1)),
                },
            }
        },
    }
}

/// The code and terminator a statement list compiles to, in order.
pub open spec fn compile_stmts(
    vars: Seq<(String, usize)>,
    code0: Seq<Instr>,
    stmts: Seq<Statement>,
) -> Result<(Seq<Instr>, Option<Terminator>), CodeGenIssue>
    decreases stmts.len(),
{
    if stmts.len() == 0 {
        Ok((code0, None))
    } else {
        stmts_step(vars, compile_stmts(vars, code0, stmts.drop_last()), stmts.last())
    }
}

/// Once statement compilation has failed, or has emitted a terminator,
/// the remaining statements leave the state unchanged.
proof fn lemma_compile_stmts_fixed(
    vars: Seq<(String, usize)>,
    code0: Seq<Instr>,
    stmts: Seq<Statement>,
    k: int,
)
    requires
        0 <= k <= stmts.len(),
        match compile_stmts(vars, code0, stmts.take(k)) {
            Err(_) => true,
            Ok(s) => s.1 is Some,
        },
    ensures
        compile_stmts(vars, code0, stmts) == compile_stmts(vars, code0, stmts.take(k)),
    decreases stmts.len() - k,
{
    if k == stmts.len() {
        assert(stmts.take(k) =~= stmts);
    } else {
        assert(stmts.take(k + 1).drop_last() =~= stmts.take(k));
        lemma_compile_stmts_fixed(vars, code0, stmts, k + 1);
    }
}

/// The function a method compiles to: parameter and return layouts, the
/// entry bindings, the body's statements in order — or, for a bodyless
/// method, a single return of the declared type's default value (or a
/// void return).  A body that never returns gets a synthesized void
/// return only when no return type is declared; otherwise the missing
/// terminator is left for module verification to reject.
pub open spec fn method_model(
    reg: Seq<(String, bool)>,
    owner: Seq<char>,
    fields: Seq<Field>,
    slot_layouts: Seq<Layout>,
    m: Method,
) -> Result<FunctionModel, CodeGenIssue> {
    match params_layouts(reg, m.params@) {
        Err(i) => Err(i),
        Ok(pls) => match ret_layout_outcome(reg, m.return_type) {
            Err(i) => Err(i),
            Ok(ret) => {
                let code0 = entry_code(slot_layouts, pls);
                let vars = entry_vars(fields, m.params@);
                match m.body {
                    Some(b) => match compile_stmts(vars, code0, b.statements@) {
                        Err(i) => Err(i),
                        Ok(res) => {
                            let term = if res.1 is None && ret is None {
                                Some(Terminator::RetVoid)
                            } else {
                                res.1
                            };
                            Ok(
                                FunctionModel {
                                    name: m.name@,
                                    owner: owner,
                                    param_layouts: pls,
                                    ret_layout: ret,
                                    code: res.0,
                                    terminator: term,
                                    is_async: m.is_async,
                                    wrapper_of: None,
                                },
                            )
                        },
                    },
                    None => match m.return_type {
                        Some(ty) => match default_outcome(reg, ty) {
                            Err(i) => Err(i),
                            Ok(v) => Ok(
                                FunctionModel {
                                    name: m.name@,
                                    owner: owner,
                                    param_layouts: pls,
                                    ret_layout: ret,
                                    code: code0.push(Instr::ConstOp(v)),
                                    terminator: Some(
                                        Terminator::RetValue(code0.len() as usize),
                                    ),
                                    is_async: m.is_async,
                                    wrapper_of: None,
                                },
                            ),
                        },
                        None => Ok(
                            FunctionModel {
                                name: m.name@,
                                owner: owner,
                                param_layouts: pls,
                                ret_layout: ret,
                                code: code0,
                                terminator: Some(Terminator::RetVoid),
                                is_async: m.is_async,
                                wrapper_of: None,
                            },
                        ),
                    },
                }
            },
        },
    }
}

/// The wrapper entry of an async method: the same signature and owner,
/// dispatched to the underlying function.
pub open spec fn wrapper_model(f: FunctionModel) -> FunctionModel {
    FunctionModel {
        name: f.name + "_async"@,
        owner: f.owner,
        param_layouts: f.param_layouts,
        ret_layout: f.ret_layout,
        code: Seq::empty(),
        terminator: None,
        is_async: true,
        wrapper_of: Some(f.name),
    }
}

/// The function entries one method contributes: the compiled function,
/// and for an async method its wrapper.
pub open spec fn method_models(
    reg: Seq<(String, bool)>,
    owner: Seq<char>,
    fields: Seq<Field>,
    slot_layouts: Seq<Layout>,
    m: Method,
) -> Result<Seq<FunctionModel>, CodeGenIssue> {
    match method_model(reg, owner, fields, slot_layouts, m) {
        Err(i) => Err(i),
        Ok(f) => if m.is_async {
            Ok(seq![f, wrapper_model(f)])
        } else {
            Ok(seq![f])
        },
    }
}

/// The context prefix the orchestrator puts before a method's error.
pub open spec fn method_prefix(owner: Seq<char>, method_name: Seq<char>) -> Seq<char> {
    "actor "@ + owner + ", method "@ + method_name + ": "@
}

/// The function entries of all methods in declaration order, each
/// failure wrapped with the enclosing actor and method identity.
pub open spec fn methods_models(
    reg: Seq<(String, bool)>,
    owner: Seq<char>,
    fields: Seq<Field>,
    slot_layouts: Seq<Layout>,
    methods: Seq<Method>,
) -> Result<Seq<FunctionModel>, CodeGenIssue>
    decreases methods.len(),
{
    if methods.len() == 0 {
        Ok(Seq::empty())
    } else {
        match methods_models(reg, owner, fields, slot_layouts, methods.drop_last()) {
            Err(i) => Err(i),
            Ok(pre) => match method_models(reg, owner, fields, slot_layouts, methods.last()) {
                Err(i) => Err(prefixed_issue(i, method_prefix(owner, methods.last().name@))),
                Ok(fs) => Ok(pre + fs),
            },
        }
    }
}

/// Once a method prefix has failed, the whole list fails the same way.
proof fn lemma_methods_models_err(
    reg: Seq<(String, bool)>,
    owner: Seq<char>,
    fields: Seq<Field>,
    slot_layouts: Seq<Layout>,
    methods: Seq<Method>,
    k: int,
)
    requires
        0 <= k <= methods.len(),
        methods_models(reg, owner, fields, slot_layouts, methods.take(k)) is Err,
    ensures
        methods_models(reg, owner, fields, slot_layouts, methods) == methods_models(
            reg,
            owner,
            fields,
            slot_layouts,
            methods.take(k),
        ),
    decreases methods.len() - k,
{
    if k == methods.len() {
        assert(methods.take(k) =~= methods);
    } else {
        assert(methods.take(k + 1).drop_last() =~= methods.take(k));
        lemma_methods_models_err(reg, owner, fields, slot_layouts, methods, k + 1);
    }
}

/// The artifact one actor compiles to — its aggregate and its function
/// entries — or the first failure on the way.
pub open spec fn actor_artifacts(reg: Seq<(String, bool)>, a: Actor) -> Result<
    (AggregateModel, Seq<FunctionModel>),
    CodeGenIssue,
> {
    match lower_fields(reg, a.fields@) {
        Err(i) => Err(i),
        Ok(slots) => match methods_models(
            reg,
            a.name@,
            a.fields@,
            slots.map_values(|s: SlotModel| s.layout),
            a.methods@,
        ) {
            Err(i) => Err(i),
            Ok(fs) => Ok((AggregateModel { name: a.name@, fields: slots }, fs)),
        },
    }
}

/// The first function of this name, if any.
pub open spec fn find_function(funcs: Seq<FunctionModel>, name: Seq<char>) -> Option<int>
    decreases funcs.len(),
{
    if funcs.len() == 0 {
        None
    } else if funcs.first().name == name {
        Some(0)
    } else {
        match find_function(funcs.drop_first(), name) {
            Some(j) => Some(j + 1),
            None => None,
        }
    }
}

/// Scanning forward, the first match decides `find_function`.
pub proof fn lemma_find_function_from(funcs: Seq<FunctionModel>, name: Seq<char>, i: int)
    requires
        0 <= i <= funcs.len(),
        forall|k: int| 0 <= k < i ==> funcs[k].name != name,
    ensures
        i < funcs.len() && funcs[i].name == name ==> find_function(funcs, name) == Some(i),
        i == funcs.len() ==> find_function(funcs, name) is None,
    decreases funcs.len(),
{
    if funcs.len() > 0 {
        if funcs.first().name == name {
        } else {
            assert(forall|k: int|
                0 <= k < i - 1 ==> #[trigger] funcs.drop_first()[k].name == funcs[k + 1].name);
            if i > 0 {
                lemma_find_function_from(funcs.drop_first(), name, i - 1);
            } else {
                lemma_find_function_from(funcs.drop_first(), name, 0);
            }
        }
    }
}

/// The first aggregate of this name, if any.
pub open spec fn find_aggregate(aggs: Seq<AggregateModel>, name: Seq<char>) -> Option<int>
    decreases aggs.len(),
{
    if aggs.len() == 0 {
        None
    } else if aggs.first().name == name {
        Some(0)
    } else {
        match find_aggregate(aggs.drop_first(), name) {
            Some(j) => Some(j + 1),
            None => None,
        }
    }
}

/// Scanning forward, the first match decides `find_aggregate`.
pub proof fn lemma_find_aggregate_from(aggs: Seq<AggregateModel>, name: Seq<char>, i: int)
    requires
        0 <= i <= aggs.len(),
        forall|k: int| 0 <= k < i ==> aggs[k].name != name,
    ensures
        i < aggs.len() && aggs[i].name == name ==> find_aggregate(aggs, name) == Some(i),
        i == aggs.len() ==> find_aggregate(aggs, name) is None,
    decreases aggs.len(),
{
    if aggs.len() > 0 {
        if aggs.first().name == name {
        } else {
            assert(forall|k: int|
                0 <= k < i - 1 ==> #[trigger] aggs.drop_first()[k].name == aggs[k + 1].name);
            if i > 0 {
                lemma_find_aggregate_from(aggs.drop_first(), name, i - 1);
            } else {
                lemma_find_aggregate_from(aggs.drop_first(), name, 0);
            }
        }
    }
}

/// Whether two functions have the same signature: parameter layouts
/// element-wise equal and return layouts equal.
pub open spec fn sig_matches(a: FunctionModel, b: FunctionModel) -> bool {
    &&& a.param_layouts.len() == b.param_layouts.len()
    &&& forall|i: int|
        0 <= i < a.param_layouts.len() ==> layout_eq(
            #[trigger] a.param_layouts[i],
            b.param_layouts[i],
        )
    &&& match (a.ret_layout, b.ret_layout) {
        (None, None) => true,
        (Some(x), Some(y)) => layout_eq(x, y),
        _ => false,
    }
}

/// Whether one instruction at position `i` is well-formed: operands name
/// earlier instructions and every kind annotation is consistent.
pub open spec fn instr_wf(
    code: Seq<Instr>,
    i: int,
    params: Seq<Layout>,
    slots: Seq<SlotModel>,
) -> bool {
    match code[i] {
        Instr::ConstOp(_) => true,
        Instr::ParamOp { index, kind } => index < params.len() && kind == kind_of(
            params[index as int],
        ),
        Instr::FieldOp { index, kind } => index < slots.len() && kind == kind_of(
            slots[index as int].layout,
        ),
        Instr::BinOp { kind, op, left, right } => left < i && right < i && (kind
            is IntKind || kind is FloatKind) && instr_kind(code[left as int]) == kind
            && instr_kind(code[right as int]) == kind,
        Instr::CmpOp { kind, pred, left, right } => left < i && right < i && (kind
            is IntKind || kind is FloatKind) && instr_kind(code[left as int]) == kind
            && instr_kind(code[right as int]) == kind,
    }
}

/// Whether a function is well-formed within its module.  A wrapper must
/// be empty and dispatch to an existing non-wrapper function of the same
/// signature.  Any other function must belong to an existing aggregate,
/// hold only well-formed instructions, and end in a terminator that
/// agrees with the declared return layout.
pub open spec fn function_wf(
    aggs: Seq<AggregateModel>,
    funcs: Seq<FunctionModel>,
    f: FunctionModel,
) -> bool {
    match f.wrapper_of {
        Some(target) => {
            &&& f.code.len() == 0
            &&& f.terminator is None
            &&& match find_function(funcs, target) {
                Some(j) => funcs[j].wrapper_of is None && sig_matches(f, funcs[j]),
                None => false,
            }
        },
        None => match find_aggregate(aggs, f.owner) {
            Some(a) => {
                &&& forall|i: int|
                    0 <= i < f.code.len() ==> instr_wf(
                        f.code,
                        i,
                        f.param_layouts,
                        aggs[a].fields,
                    )
                &&& match f.terminator {
                    None => false,
                    Some(Terminator::RetVoid) => f.ret_layout is None,
                    Some(Terminator::RetValue(id)) => match f.ret_layout {
                        Some(rl) => id < f.code.len() && instr_kind(f.code[id as int])
                            == kind_of(rl),
                        None => false,
                    },
                }
            },
            None => false,
        },
    }
}

/// Whether the whole module is well-formed.
pub open spec fn module_wf(aggs: Seq<AggregateModel>, funcs: Seq<FunctionModel>) -> bool {
    forall|k: int| 0 <= k < funcs.len() ==> function_wf(aggs, funcs, #[trigger] funcs[k])
}

/// The kind of the value an instruction produces.
fn instr_kind_of(ins: &Instr) -> (k: OperandKind)
    ensures
        k == instr_kind(*ins),
{
    match ins {
        Instr::ConstOp(v) => crate::codegen::lower::value_kind_of(v),
        Instr::ParamOp { kind, .. } => *kind,
        Instr::FieldOp { kind, .. } => *kind,
        Instr::BinOp { kind, .. } => *kind,
        Instr::CmpOp { .. } => OperandKind::BoolKind,
    }
}

/// The first function of this name.
#[verifier::loop_isolation(false)]
fn find_function_in(funcs: &Vec<CompiledFunction>, name: &str) -> (r: Option<usize>)
    ensures
        match find_function(func_models(funcs@), name@) {
            Some(j) => r matches Some(rj) && rj == j && j < funcs@.len(),
            None => r is None,
        },
{
    let n = funcs.len();
    let mut i: usize = 0;
    while i < n
        invariant
            i <= n,
            n == funcs@.len(),
            forall|k: int| 0 <= k < i ==> func_models(funcs@)[k].name != name@,
        decreases n - i,
    {
        if crate::table::str_eq_string(name, &funcs[i].name) {
            proof {
                lemma_find_function_from(func_models(funcs@), name@, i as int);
            }
            return Some(i);
        }
        i = i + 1;
    }
    proof {
        lemma_find_function_from(func_models(funcs@), name@, n as int);
    }
    None
}

/// The first aggregate of this name.
#[verifier::loop_isolation(false)]
fn find_aggregate_in(aggs: &Vec<AggregateType>, name: &str) -> (r: Option<usize>)
    ensures
        match find_aggregate(agg_models(aggs@), name@) {
            Some(j) => r matches Some(rj) && rj == j && j < aggs@.len(),
            None => r is None,
        },
{
    let n = aggs.len();
    let mut i: usize = 0;
    while i < n
        invariant
            i <= n,
            n == aggs@.len(),
            forall|k: int| 0 <= k < i ==> agg_models(aggs@)[k].name != name@,
        decreases n - i,
    {
        if crate::table::str_eq_string(name, &aggs[i].name) {
            proof {
                lemma_find_aggregate_from(agg_models(aggs@), name@, i as int);
            }
            return Some(i);
        }
        i = i + 1;
    }
    proof {
        lemma_find_aggregate_from(agg_models(aggs@), name@, n as int);
    }
    None
}

/// Whether two functions have the same signature.
#[verifier::loop_isolation(false)]
fn sigs_match(a: &CompiledFunction, b: &CompiledFunction) -> (r: bool)
    ensures
        r == sig_matches(func_model(*a), func_model(*b)),
{
    if a.param_layouts.len() != b.param_layouts.len() {
        return false;
    }
    let n = a.param_layouts.len();
    let mut i: usize = 0;
    while i < n
        invariant
            i <= n,
            n == a.param_layouts@.len(),
            n == b.param_layouts@.len(),
            forall|k: int| 0 <= k < i ==> layout_eq(
                #[trigger] a.param_layouts@[k],
                b.param_layouts@[k],
            ),
        decreases n - i,
    {
        if !layout_matches(&a.param_layouts[i], &b.param_layouts[i]) {
            return false;
        }
        i = i + 1;
    }
    match (&a.ret_layout, &b.ret_layout) {
        (None, None) => true,
        (Some(x), Some(y)) => layout_matches(x, y),
        _ => false,
    }
}

/// Whether the instruction at position `i` of this function is
/// well-formed against the owning aggregate.
fn check_instr(f: &CompiledFunction, agg: &AggregateType, i: usize) -> (r: bool)
    requires
        i < f.code@.len(),
    ensures
        r == instr_wf(f.code@, i as int, f.param_layouts@, agg_model(*agg).fields),
{
    match &f.code[i] {
        Instr::ConstOp(_) => true,
        Instr::ParamOp { index, kind } => {
            if *index < f.param_layouts.len() {
                layout_kind(&f.param_layouts[*index]) == *kind
            } else {
                false
            }
        },
        Instr::FieldOp { index, kind } => {
            if *index < agg.fields.len() {
                layout_kind(&agg.fields[*index].layout) == *kind
            } else {
                false
            }
        },
        Instr::BinOp { kind, op, left, right } => {
            if *left < i && *right < i && (*kind == OperandKind::IntKind || *kind
                == OperandKind::FloatKind) {
                instr_kind_of(&f.code[*left]) == *kind && instr_kind_of(&f.code[*right]) == *kind
            } else {
                false
            }
        },
        Instr::CmpOp { kind, pred, left, right } => {
            if *left < i && *right < i && (*kind == OperandKind::IntKind || *kind
                == OperandKind::FloatKind) {
                instr_kind_of(&f.code[*left]) == *kind && instr_kind_of(&f.code[*right]) == *kind
            } else {
                false
            }
        },
    }
}

/// Whether one function is well-formed within the module.
#[verifier::loop_isolation(false)]
fn check_function(
    aggs: &Vec<AggregateType>,
    funcs: &Vec<CompiledFunction>,
    f: &CompiledFunction,
) -> (r: bool)
    ensures
        r == function_wf(agg_models(aggs@), func_models(funcs@), func_model(*f)),
{
    match &f.wrapper_of {
        Some(target) => {
            if !(f.code.len() == 0 && f.terminator.is_none()) {
                return false;
            }
            match find_function_in(funcs, target.as_str()) {
                Some(j) => {
                    proof {
                        assert(func_models(funcs@)[j as int] == func_model(funcs@[j as int]));
                    }
                    let tf = &funcs[j];
                    tf.wrapper_of.is_none() && sigs_match(f, tf)
                },
                None => false,
            }
        },
        None => {
            match find_aggregate_in(aggs, f.owner.as_str()) {
                None => false,
                Some(a) => {
                    proof {
                        assert(agg_models(aggs@)[a as int] == agg_model(aggs@[a as int]));
                    }
                    let agg = &aggs[a];
                    let n = f.code.len();
                    let mut i: usize = 0;
                    while i < n
                        invariant
                            i <= n,
                            n == f.code@.len(),
                            forall|k: int| 0 <= k < i ==> instr_wf(
                                f.code@,
                                k,
                                f.param_layouts@,
                                agg_model(aggs@[a as int]).fields,
                            ),
                        decreases n - i,
                    {
                        if !check_instr(f, agg, i) {
                            proof {
                                let fm = func_model(*f);
                                let ams = agg_models(aggs@);
                                assert(find_aggregate(ams, fm.owner) == Some(a as int));
                                assert(!instr_wf(fm.code, i as int, fm.param_layouts, ams[
                                    a as int
                                ].fields));
                                assert(!function_wf(ams, func_models(funcs@), fm));
                            }
                            return false;
                        }
                        i = i + 1;
                    }
                    match &f.terminator {
                        None => false,
                        Some(Terminator::RetVoid) => f.ret_layout.is_none(),
                        Some(Terminator::RetValue(id)) => match &f.ret_layout {
                            Some(rl) => {
                                if *id < f.code.len() {
                                    instr_kind_of(&f.code[*id]) == layout_kind(rl)
                                } else {
                                    false
                                }
                            },
                            None => false,
                        },
                    }
                },
            }
        },
    }
}


/// The eight little-endian bytes of a 64-bit count.
pub open spec fn le64(n: u64) -> Seq<u8> {
    seq![
        (n & 0xff) as u8,
        ((n >> 8) & 0xff) as u8,
        ((n >> 16) & 0xff) as u8,
        ((n >> 24) & 0xff) as u8,
        ((n >> 32) & 0xff) as u8,
        ((n >> 40) & 0xff) as u8,
        ((n >> 48) & 0xff) as u8,
        ((n >> 56) & 0xff) as u8,
    ]
}

/// The encoding of one aggregate: its field count.
pub open spec fn encode_agg(a: AggregateModel) -> Seq<u8> {
    le64(a.fields.len() as u64)
}

/// The encoding of a list of aggregates, in order.
pub open spec fn encode_aggs(aggs: Seq<AggregateModel>) -> Seq<u8>
    decreases aggs.len(),
{
    if aggs.len() == 0 {
        Seq::empty()
    } else {
        encode_aggs(aggs.drop_last()) + encode_agg(aggs.last())
    }
}

/// The flag byte of one function: its role, return shape and terminator.
pub open spec fn function_flags(f: FunctionModel) -> u8 {
    ((if f.is_async { 1u8 } else { 0u8 }) + (if f.wrapper_of is Some { 2u8 } else { 0u8 }) + (
    if f.ret_layout is Some { 4u8 } else { 0u8 }) + (match f.terminator {
        None => 0u8,
        Some(Terminator::RetVoid) => 8u8,
        Some(Terminator::RetValue(_)) => 16u8,
    })) as u8
}

/// The encoding of one function: parameter count, body length, flags.
pub open spec fn encode_function(f: FunctionModel) -> Seq<u8> {
    le64(f.param_layouts.len() as u64) + le64(f.code.len() as u64) + seq![function_flags(f)]
}

/// The encoding of a list of functions, in order.
pub open spec fn encode_functions(funcs: Seq<FunctionModel>) -> Seq<u8>
    decreases funcs.len(),
{
    if funcs.len() == 0 {
        Seq::empty()
    } else {
        encode_functions(funcs.drop_last()) + encode_function(funcs.last())
    }
}

/// The object buffer a module serializes to: a four-byte magic, the
/// aggregate and function counts, then each aggregate and each function
/// in order.
pub open spec fn encode_module(aggs: Seq<AggregateModel>, funcs: Seq<FunctionModel>) -> Seq<u8> {
    seq![0x61u8, 0x63u8, 0x74u8, 0x72u8] + le64(aggs.len() as u64) + le64(funcs.len() as u64)
        + encode_aggs(aggs) + encode_functions(funcs)
}

/// Appends the eight little-endian bytes of `n`.
fn push_le64(out: &mut Vec<u8>, n: u64)
    ensures
        final(out)@ == old(out)@ + le64(n),
{
    out.push((n & 0xff) as u8);
    out.push(((n >> 8) & 0xff) as u8);
    out.push(((n >> 16) & 0xff) as u8);
    out.push(((n >> 24) & 0xff) as u8);
    out.push(((n >> 32) & 0xff) as u8);
    out.push(((n >> 40) & 0xff) as u8);
    out.push(((n >> 48) & 0xff) as u8);
    out.push(((n >> 56) & 0xff) as u8);
    proof {
        assert(out@ =~= old(out)@ + le64(n));
    }
}

/// The code generator for one compilation run: the module under
/// construction, the lowering registry, the table of compiled method
/// entry points, and the run's options.  Each method is compiled with a
/// fresh expression compiler of its own.
pub struct CodeGenerator {
    pub module: ObjectModule,
    pub type_converter: TypeConverter,
    pub actor_methods: NameTable<usize>,
    pub optimization_level: OptimizationLevel,
    pub debug_mode: bool,
    pub stage: CompilationStage,
}

impl CodeGenerator {
    /// A generator over a fresh, empty module.
    pub fn new(module_name: &str, options: CodeGenOptions) -> (r: Result<Self, CodeGenError>)
        ensures
            r matches Ok(g) && g.module.name@ == module_name@ && g.module.aggregates@.len() == 0
                && g.module.functions@.len() == 0 && !g.module.verified
                && g.type_converter.struct_types@.len() == 0 && g.actor_methods@.len() == 0
                && g.optimization_level == options.optimization_level && g.debug_mode
                == options.debug_mode && g.stage is Declared,
    {
        Ok(
            CodeGenerator {
                module: ObjectModule {
                    name: module_name.to_owned(),
                    aggregates: Vec::new(),
                    functions: Vec::new(),
                    verified: false,
                },
                type_converter: TypeConverter::new(),
                actor_methods: NameTable::new(),
                optimization_level: options.optimization_level,
                debug_mode: options.debug_mode,
                stage: CompilationStage::Declared,
            },
        )
    }

    /// Turns diagnostic tracing on or off; tracing has no semantic
    /// effect on compilation.
    pub fn set_debug_mode(&mut self, debug: bool)
        ensures
            *final(self) == (CodeGenerator { debug_mode: debug, ..*old(self) }),
    {
        self.debug_mode = debug;
    }

    /// Verifies the whole module: every function well-formed within it.
    #[verifier::loop_isolation(false)]
    pub fn verify_module(&self) -> (r: Result<(), CodeGenError>)
        ensures
            r is Ok <==> module_wf(
                agg_models(self.module.aggregates@),
                func_models(self.module.functions@),
            ),
            r matches Err(e) ==> e matches CodeGenError::Validation(m) && m@
                == "Module verification failed"@,
    {
        let n = self.module.functions.len();
        let mut k: usize = 0;
        while k < n
            invariant
                k <= n,
                n == self.module.functions@.len(),
                forall|x: int|
                    0 <= x < k ==> function_wf(
                        agg_models(self.module.aggregates@),
                        func_models(self.module.functions@),
                        #[trigger] func_models(self.module.functions@)[x],
                    ),
            decreases n - k,
        {
            proof {
                assert(func_models(self.module.functions@)[k as int] == func_model(
                    self.module.functions@[k as int],
                ));
            }
            if !check_function(
                &self.module.aggregates,
                &self.module.functions,
                &self.module.functions[k],
            ) {
                proof {
                    assert(func_models(self.module.functions@)[k as int] == func_model(
                        self.module.functions@[k as int],
                    ));
                    assert(!module_wf(
                        agg_models(self.module.aggregates@),
                        func_models(self.module.functions@),
                    ));
                }
                return Err(CodeGenError::Validation(
                    String::from_str("Module verification failed"),
                ));
            }
            k = k + 1;
        }
        Ok(())
    }

    /// Compiles one method into its function entry (and, for an async
    /// method, its wrapper).  `slots` are the owning actor's lowered
    /// fields, one per source field.
    #[verifier::loop_isolation(false)]
    #[verifier::rlimit(100)]
    fn compile_method(
        &self,
        method: &Method,
        owner: &String,
        fields: &Vec<Field>,
        slots: &Vec<FieldSlot>,
    ) -> (r: Result<(CompiledFunction, Option<CompiledFunction>), CodeGenError>)
        requires
            slots@.len() == fields@.len(),
        ensures
            match method_models(
                self.type_converter.struct_types@,
                owner@,
                fields@,
                slots@.map_values(|s: FieldSlot| s.layout),
                *method,
            ) {
                Err(i) => r matches Err(e) && cg_matches(e, i),
                Ok(models) => r matches Ok(pair) && func_model(pair.0) == models[0] && (
                pair.1 is Some <==> models.len() == 2) && (pair.1 matches Some(w)
                    ==> models.len() == 2 && func_model(w) == models[1]),
            },
    {
        let ghost reg = self.type_converter.struct_types@;
        let ghost slot_layouts = slots@.map_values(|s: FieldSlot| s.layout);

        // Parameter layouts, in order.
        let mut param_layouts: Vec<Layout> = Vec::new();
        let n_params = method.params.len();
        let mut i: usize = 0;
        proof {
            assert(method.params@.take(0) =~= Seq::<Parameter>::empty());
        }
        while i < n_params
            invariant
                i <= n_params,
                n_params == method.params@.len(),
                param_layouts@.len() == i,
                params_layouts(reg, method.params@.take(i as int)) == Ok::<_, CodeGenIssue>(
                    param_layouts@,
                ),
            decreases n_params - i,
        {
            proof {
                assert(method.params@.take(i as int + 1).drop_last() =~= method.params@.take(
                    i as int,
                ));
                assert(method.params@.take(i as int + 1).last() == method.params@[i as int]);
            }
            match self.type_converter.convert_type(&method.params[i].param_type) {
                Ok(l) => {
                    param_layouts.push(l);
                },
                Err(e) => {
                    proof {
                        lemma_params_layouts_err(reg, method.params@, i as int + 1);
                    }
                    return Err(e);
                },
            }
            i = i + 1;
        }
        proof {
            assert(method.params@.take(n_params as int) =~= method.params@);
        }

        // Return layout, if a return type is declared.
        let ret_layout: Option<Layout> = match &method.return_type {
            Some(ty) => match self.type_converter.convert_type(ty) {
                Ok(l) => Some(l),
                Err(e) => {
                    return Err(e);
                },
            },
            None => None,
        };

        // Entry: materialize the owner's fields, then the parameters, and
        // bind their names; a parameter shadows a field of the same name.
        let mut compiler = ExpressionCompiler::new();
        let n_fields = fields.len();
        let mut j: usize = 0;
        while j < n_fields
            invariant
                j <= n_fields,
                n_fields == fields@.len(),
                n_fields == slots@.len(),
                slot_layouts == slots@.map_values(|s: FieldSlot| s.layout),
                compiler.code@ =~= Seq::new(
                    j as nat,
                    |x: int| Instr::FieldOp { index: x as usize, kind: kind_of(slot_layouts[x]) },
                ),
                compiler.variables@ =~= Seq::new(
                    j as nat,
                    |x: int| (fields@[x].name, x as usize),
                ),
            decreases n_fields - j,
        {
            let kind = layout_kind(&slots[j].layout);
            compiler.code.push(Instr::FieldOp { index: j, kind });
            compiler.register_variable(fields[j].name.clone(), j);
            proof {
                assert(slot_layouts[j as int] == slots@[j as int].layout);
            }
            j = j + 1;
        }
        let mut p: usize = 0;
        while p < n_params
            invariant
                p <= n_params,
                n_params == method.params@.len(),
                n_fields == fields@.len(),
                n_fields == slots@.len(),
                params_layouts(reg, method.params@) == Ok::<_, CodeGenIssue>(param_layouts@),
                slot_layouts == slots@.map_values(|s: FieldSlot| s.layout),
                n_params == param_layouts@.len(),
                compiler.code@ =~= Seq::new(
                    n_fields as nat,
                    |x: int| Instr::FieldOp { index: x as usize, kind: kind_of(slot_layouts[x]) },
                ) + Seq::new(
                    p as nat,
                    |x: int| Instr::ParamOp { index: x as usize, kind: kind_of(param_layouts@[x]) },
                ),
                compiler.variables@ =~= Seq::new(
                    n_fields as nat,
                    |x: int| (fields@[x].name, x as usize),
                ) + Seq::new(
                    p as nat,
                    |x: int| (method.params@[x].name, (n_fields + x) as usize),
                ),
            decreases n_params - p,
        {
            let kind = layout_kind(&param_layouts[p]);
            let bind = compiler.code.len();
            compiler.code.push(Instr::ParamOp { index: p, kind });
            compiler.register_variable(method.params[p].name.clone(), bind);
            p = p + 1;
        }
        proof {
            assert(compiler.code@ =~= entry_code(slot_layouts, param_layouts@));
            assert(compiler.variables@ =~= entry_vars(fields@, method.params@));
        }
        let ghost code0 = compiler.code@;
        let ghost vars = compiler.variables@;

        // The body's statements, in order; code after a return is
        // unreachable and is dropped.
        let mut terminator: Option<Terminator> = None;
        match &method.body {
            Some(body) => {
                let n_stmts = body.statements.len();
                let mut s: usize = 0;
                proof {
                    assert(body.statements@.take(0) =~= Seq::<Statement>::empty());
                }
                while s < n_stmts && terminator.is_none()
                    invariant
                        s <= n_stmts,
                        n_stmts == body.statements@.len(),
                        compiler.variables@ == vars,
                        compile_stmts(vars, code0, body.statements@.take(s as int)) == Ok::<
                            _,
                            CodeGenIssue,
                        >((compiler.code@, terminator)),
                    decreases n_stmts - s,
                {
                    proof {
                        assert(body.statements@.take(s as int + 1).drop_last()
                            =~= body.statements@.take(s as int));
                        assert(body.statements@.take(s as int + 1).last() == body.statements@[
                            s as int
                        ]);
                    }
                    match &body.statements[s] {
                        Statement::Return(e) => {
                            match compiler.compile_expression(e) {
                                Ok(id) => {
                                    terminator = Some(Terminator::RetValue(id));
                                },
                                Err(err) => {
                                    proof {
                                        lemma_compile_stmts_fixed(
                                            vars,
                                            code0,
                                            body.statements@,
                                            s as int + 1,
                                        );
                                    }
                                    return Err(err);
                                },
                            }
                        },
                        Statement::Expression(e) => {
                            match compiler.compile_expression(e) {
                                Ok(_) => {},
                                Err(err) => {
                                    proof {
                                        lemma_compile_stmts_fixed(
                                            vars,
                                            code0,
                                            body.statements@,
                                            s as int + 1,
                                        );
                                    }
                                    return Err(err);
                                },
                            }
                        },
                    }
                    s = s + 1;
                }
                proof {
                    if s < n_stmts {
                        lemma_compile_stmts_fixed(vars, code0, body.statements@, s as int);
                    } else {
                        assert(body.statements@.take(s as int) =~= body.statements@);
                    }
                }
                if terminator.is_none() && method.return_type.is_none() {
                    terminator = Some(Terminator::RetVoid);
                }
            },
            None => {
                match &method.return_type {
                    Some(ty) => {
                        let v = match self.type_converter.create_default_value(ty) {
                            Ok(v) => v,
                            Err(e) => {
                                return Err(e);
                            },
                        };
                        let id = compiler.code.len();
                        compiler.code.push(Instr::ConstOp(v));
                        terminator = Some(Terminator::RetValue(id));
                    },
                    None => {
                        terminator = Some(Terminator::RetVoid);
                    },
                }
            },
        }

        let func = CompiledFunction {
            name: method.name.clone(),
            owner: owner.clone(),
            param_layouts,
            ret_layout,
            code: compiler.code,
            terminator,
            is_async: method.is_async,
            wrapper_of: None,
        };

        if method.is_async {
            let mut wrapper_name = method.name.clone();
            wrapper_name.append("_async");
            let mut wrapper_params: Vec<Layout> = Vec::new();
            let n = func.param_layouts.len();
            let mut q: usize = 0;
            while q < n
                invariant
                    q <= n,
                    n == func.param_layouts@.len(),
                    wrapper_params@ =~= func.param_layouts@.take(q as int),
                decreases n - q,
            {
                wrapper_params.push(func.param_layouts[q].clone());
                proof {
                    assert(func.param_layouts@.take(q as int + 1) =~= func.param_layouts@.take(
                        q as int,
                    ).push(func.param_layouts@[q as int]));
                }
                q = q + 1;
            }
            proof {
                assert(func.param_layouts@.take(n as int) =~= func.param_layouts@);
            }
            let wrapper_ret: Option<Layout> = match &func.ret_layout {
                Some(l) => Some(l.clone()),
                None => None,
            };
            let wrapper = CompiledFunction {
                name: wrapper_name,
                owner: owner.clone(),
                param_layouts: wrapper_params,
                ret_layout: wrapper_ret,
                code: Vec::new(),
                terminator: None,
                is_async: true,
                wrapper_of: Some(method.name.clone()),
            };
            proof {
                assert(func_model(wrapper).code =~= Seq::<Instr>::empty());
            }
            Ok((func, Some(wrapper)))
        } else {
            Ok((func, None))
        }
    }

    /// Compiles an actor: declares its aggregate, lowers its fields in
    /// declaration order, compiles its methods in declaration order,
    /// verifies the module, and only then publishes the artifact.  On
    /// any failure the module is exactly as before the call; the
    /// aggregate name itself stays declared, as the registration pass
    /// leaves it.
    #[verifier::loop_isolation(false)]
    #[verifier::rlimit(100)]
    pub fn compile_actor(&mut self, actor: &Actor) -> (r: Result<(), CodeGenError>)
        ensures
            final(self).module.name@ == old(self).module.name@,
            final(self).optimization_level == old(self).optimization_level,
            final(self).debug_mode == old(self).debug_mode,
            ({
                let reg0 = old(self).type_converter.struct_types@;
                let reg1 = if assoc_lookup(reg0, actor.name@) is Some {
                    reg0
                } else {
                    reg0.push((actor.name, false))
                };
                let old_aggs = agg_models(old(self).module.aggregates@);
                let old_funcs = func_models(old(self).module.functions@);
                match actor_artifacts(reg1, *actor) {
                    Err(i) => {
                        &&& r matches Err(e) && cg_matches(e, i)
                        &&& final(self).module.aggregates@ == old(self).module.aggregates@
                        &&& final(self).module.functions@ == old(self).module.functions@
                        &&& final(self).module.verified == old(self).module.verified
                        &&& final(self).type_converter.struct_types@ == reg1
                        &&& final(self).actor_methods@ == old(self).actor_methods@
                    },
                    Ok(art) => if module_wf(old_aggs.push(art.0), old_funcs + art.1) {
                        &&& r is Ok
                        &&& final(self).module.aggregates@.len() == old(self).module.aggregates@.len() + 1
                        &&& final(self).module.aggregates@.drop_last() == old(self).module.aggregates@
                        &&& agg_model(final(self).module.aggregates@.last()) == art.0
                        &&& func_models(final(self).module.functions@) == old_funcs + art.1
                        &&& final(self).module.verified
                        &&& final(self).type_converter.struct_types@ == reg1.push((actor.name, true))
                        &&& final(self).stage is Ready
                    } else {
                        &&& r matches Err(e) && e matches CodeGenError::Validation(m) && m@
                            == "Module verification failed"@
                        &&& final(self).module.aggregates@ == old(self).module.aggregates@
                        &&& final(self).module.functions@ == old(self).module.functions@
                        &&& final(self).module.verified == old(self).module.verified
                        &&& final(self).type_converter.struct_types@ == reg1
                        &&& final(self).actor_methods@ == old(self).actor_methods@
                    },
                }
            }),
    {
        self.stage = CompilationStage::Declared;
        if !self.type_converter.is_registered(actor.name.as_str()) {
            self.type_converter.declare_struct_type(actor.name.clone());
        }
        let ghost reg1 = self.type_converter.struct_types@;
        self.stage = CompilationStage::StructTypeCreated;

        // Lower the fields, in declaration order.
        let mut slots: Vec<FieldSlot> = Vec::new();
        let n_fields = actor.fields.len();
        let mut k: usize = 0;
        proof {
            assert(actor.fields@.take(0) =~= Seq::<Field>::empty());
            assert(slots@.map_values(|s: FieldSlot| slot_model(s)) =~= Seq::<SlotModel>::empty());
        }
        while k < n_fields
            invariant
                k <= n_fields,
                n_fields == actor.fields@.len(),
                slots@.len() == k,
                self.type_converter.struct_types@ == reg1,
                self.module == old(self).module,
                self.actor_methods@ == old(self).actor_methods@,
                lower_fields(reg1, actor.fields@.take(k as int)) == Ok::<_, CodeGenIssue>(
                    slots@.map_values(|s: FieldSlot| slot_model(s)),
                ),
            decreases n_fields - k,
        {
            proof {
                assert(actor.fields@.take(k as int + 1).drop_last() =~= actor.fields@.take(
                    k as int,
                ));
                assert(actor.fields@.take(k as int + 1).last() == actor.fields@[k as int]);
            }
            let f = &actor.fields[k];
            match self.type_converter.convert_type(&f.field_type) {
                Ok(layout) => {
                    let ghost prev_slots = slots@;
                    slots.push(FieldSlot { name: f.name.clone(), layout, is_mutable: f.is_mutable });
                    proof {
                        assert(slots@.drop_last() =~= prev_slots);
                        assert(slots@.map_values(|s: FieldSlot| slot_model(s)) =~= prev_slots.map_values(
                            |s: FieldSlot| slot_model(s),
                        ).push(slot_model(slots@.last())));
                    }
                },
                Err(e) => {
                    proof {
                        lemma_lower_fields_err(reg1, actor.fields@, k as int + 1);
                    }
                    return Err(e);
                },
            }
            k = k + 1;
        }
        proof {
            assert(actor.fields@.take(n_fields as int) =~= actor.fields@);
        }
        self.stage = CompilationStage::FieldsProcessed;

        let ghost slot_models = slots@.map_values(|s: FieldSlot| slot_model(s));
        let ghost slot_layouts = slots@.map_values(|s: FieldSlot| s.layout);
        proof {
            assert(slot_models.map_values(|s: SlotModel| s.layout) =~= slot_layouts);
        }

        // Compile the methods, in declaration order.
        let mut new_funcs: Vec<CompiledFunction> = Vec::new();
        let n_methods = actor.methods.len();
        let mut m: usize = 0;
        proof {
            assert(actor.methods@.take(0) =~= Seq::<Method>::empty());
            assert(func_models(new_funcs@) =~= Seq::<FunctionModel>::empty());
        }
        while m < n_methods
            invariant
                m <= n_methods,
                n_methods == actor.methods@.len(),
                n_fields == actor.fields@.len(),
                slots@.len() == n_fields,
                self.type_converter.struct_types@ == reg1,
                self.module == old(self).module,
                self.actor_methods@ == old(self).actor_methods@,
                slot_layouts == slots@.map_values(|s: FieldSlot| s.layout),
                methods_models(reg1, actor.name@, actor.fields@, slot_layouts, actor.methods@.take(
                    m as int,
                )) == Ok::<_, CodeGenIssue>(func_models(new_funcs@)),
            decreases n_methods - m,
        {
            proof {
                assert(actor.methods@.take(m as int + 1).drop_last() =~= actor.methods@.take(
                    m as int,
                ));
                assert(actor.methods@.take(m as int + 1).last() == actor.methods@[m as int]);
            }
            match self.compile_method(&actor.methods[m], &actor.name, &actor.fields, &slots) {
                Ok(pair) => {
                    let (func, wrapper) = pair;
                    new_funcs.push(func);
                    match wrapper {
                        Some(w) => {
                            new_funcs.push(w);
                        },
                        None => {},
                    }
                    proof {
                        assert(methods_models(
                            reg1,
                            actor.name@,
                            actor.fields@,
                            slot_layouts,
                            actor.methods@.take(m as int + 1),
                        ) matches Ok(all) && all =~= func_models(new_funcs@));
                    }
                },
                Err(e) => {
                    let wrapped = e.in_method(actor.name.as_str(), actor.methods[m].name.as_str());
                    proof {
                        lemma_methods_models_err(
                            reg1,
                            actor.name@,
                            actor.fields@,
                            slot_layouts,
                            actor.methods@,
                            m as int + 1,
                        );
                    }
                    return Err(wrapped);
                },
            }
            m = m + 1;
        }
        proof {
            assert(actor.methods@.take(n_methods as int) =~= actor.methods@);
        }
        self.stage = CompilationStage::MethodsCompiled;

        // Publish tentatively, verify, and roll back if verification
        // fails: the artifact is all-or-nothing.
        let ghost art0 = AggregateModel { name: actor.name@, fields: slot_models };
        let ghost art1 = func_models(new_funcs@);
        proof {
            assert(actor_artifacts(reg1, *actor) == Ok::<_, CodeGenIssue>((art0, art1)));
        }
        let ghost new_views = new_funcs@;
        let was_verified = self.module.verified;
        let old_func_count = self.module.functions.len();
        let new_func_count = new_funcs.len();
        let agg = AggregateType { name: actor.name.clone(), fields: slots };
        self.module.aggregates.push(agg);
        self.module.functions.append(&mut new_funcs);
        self.module.verified = false;
        proof {
            assert(self.module.functions@.skip(old_func_count as int) =~= new_views);
            assert(agg_model(self.module.aggregates@.last()) == art0);
            assert(agg_models(self.module.aggregates@) =~= agg_models(
                old(self).module.aggregates@,
            ).push(art0));
            assert(func_models(self.module.functions@) =~= func_models(
                old(self).module.functions@,
            ) + art1);
        }

        match self.verify_module() {
            Ok(()) => {
                self.module.verified = true;
                self.stage = CompilationStage::ModuleVerified;
                let ghost committed = self.module;
                let ghost committed_conv = self.type_converter;
                let total = self.module.functions.len();
                let mut idx: usize = old_func_count;
                while idx < total
                    invariant
                        old_func_count <= idx <= total,
                        total == self.module.functions@.len(),
                        self.module == committed,
                        self.type_converter == committed_conv,
                        self.optimization_level == old(self).optimization_level,
                        self.debug_mode == old(self).debug_mode,
                    decreases total - idx,
                {
                    let fname = self.module.functions[idx].name.clone();
                    self.actor_methods.insert(fname, idx);
                    idx = idx + 1;
                }
                self.type_converter.register_struct_type(actor.name.clone());
                self.stage = CompilationStage::Ready;
                Ok(())
            },
            Err(e) => {
                self.module.functions.truncate(old_func_count);
                self.module.aggregates.pop();
                self.module.verified = was_verified;
                proof {
                    assert(self.module.functions@ =~= old(self).module.functions@);
                    assert(self.module.aggregates@ =~= old(self).module.aggregates@);
                }
                Err(e)
            },
        }
    }

    /// Serializes the verified module into a deterministic object
    /// buffer.  Emission is disallowed before verification succeeds: an
    /// unverified module is refused with a validation error.
    #[verifier::loop_isolation(false)]
    pub fn emit_wasm(&self) -> (r: Result<Vec<u8>, CodeGenError>)
        ensures
            self.module.verified ==> (r matches Ok(bytes) && bytes@ == encode_module(
                agg_models(self.module.aggregates@),
                func_models(self.module.functions@),
            )),
            !self.module.verified ==> (r matches Err(e) && e matches CodeGenError::Validation(m)
                && m@ == "Cannot emit an unverified module"@),
    {
        if !self.module.verified {
            return Err(CodeGenError::Validation(
                String::from_str("Cannot emit an unverified module"),
            ));
        }
        let ghost ams = agg_models(self.module.aggregates@);
        let ghost fms = func_models(self.module.functions@);
        let mut out: Vec<u8> = Vec::new();
        out.push(0x61);
        out.push(0x63);
        out.push(0x74);
        out.push(0x72);
        push_le64(&mut out, self.module.aggregates.len() as u64);
        push_le64(&mut out, self.module.functions.len() as u64);
        let ghost header = out@;

        let n_aggs = self.module.aggregates.len();
        let mut k: usize = 0;
        proof {
            assert(ams.take(0) =~= Seq::<AggregateModel>::empty());
            assert(out@ =~= header + encode_aggs(ams.take(0)));
        }
        while k < n_aggs
            invariant
                k <= n_aggs,
                n_aggs == self.module.aggregates@.len(),
                out@ == header + encode_aggs(ams.take(k as int)),
            decreases n_aggs - k,
        {
            proof {
                assert(ams.take(k as int + 1).drop_last() =~= ams.take(k as int));
                assert(ams.take(k as int + 1).last() == ams[k as int]);
                assert(ams[k as int] == agg_model(self.module.aggregates@[k as int]));
            }
            push_le64(&mut out, self.module.aggregates[k].fields.len() as u64);
            proof {
                assert(out@ =~= header + encode_aggs(ams.take(k as int + 1)));
            }
            k = k + 1;
        }
        proof {
            assert(ams.take(n_aggs as int) =~= ams);
        }
        let ghost mid = out@;

        let n_funcs = self.module.functions.len();
        let mut j: usize = 0;
        proof {
            assert(fms.take(0) =~= Seq::<FunctionModel>::empty());
            assert(out@ =~= mid + encode_functions(fms.take(0)));
        }
        while j < n_funcs
            invariant
                j <= n_funcs,
                n_funcs == self.module.functions@.len(),
                out@ == mid + encode_functions(fms.take(j as int)),
            decreases n_funcs - j,
        {
            proof {
                assert(fms.take(j as int + 1).drop_last() =~= fms.take(j as int));
                assert(fms.take(j as int + 1).last() == fms[j as int]);
                assert(fms[j as int] == func_model(self.module.functions@[j as int]));
            }
            let f = &self.module.functions[j];
            push_le64(&mut out, f.param_layouts.len() as u64);
            push_le64(&mut out, f.code.len() as u64);
            let mut flags: u8 = 0;
            if f.is_async {
                flags = flags + 1;
            }
            if f.wrapper_of.is_some() {
                flags = flags + 2;
            }
            if f.ret_layout.is_some() {
                flags = flags + 4;
            }
            match &f.terminator {
                None => {},
                Some(Terminator::RetVoid) => {
                    flags = flags + 8;
                },
                Some(Terminator::RetValue(_)) => {
                    flags = flags + 16;
                },
            }
            out.push(flags);
            proof {
                assert(out@ =~= mid + encode_functions(fms.take(j as int + 1)));
            }
            j = j + 1;
        }
        proof {
            assert(fms.take(n_funcs as int) =~= fms);
            assert(out@ =~= encode_module(ams, fms));
        }
        Ok(out)
    }
}

} // verus!
