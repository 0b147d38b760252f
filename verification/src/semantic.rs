//! The semantic analyzer: actor, field and method legality rules.
//!
//! One analyzer instance is meant to verify one actor (or be reset between
//! actors): an analysis failure aborts the current actor only and may leave
//! a method's scope frame pushed, so failed state is never reused.
//!
//! Every check is mirrored by a spec function (`actor_outcome`,
//! `method_outcome`, `field_issue`, ...) returning the exact rule that
//! fires, with the exact diagnostic text, so each method's contract pins
//! down the full accept/reject behaviour.

use vstd::prelude::*;
use vstd::string::StringExecFns;
use crate::ast::{
    Actor, ActorType, Expression, Field, LiteralValue, Method, Parameter, Statement, Type,
    OwnershipType,
};
use crate::table::{assoc_lookup, str_eq_string, NameTable};

verus! {

/// A semantic-analysis failure.
#[derive(Debug)]
pub enum SemanticError {
    TypeError(String),
    OwnershipError(String),
    InvalidActorOperation(String),
    AsyncError(String),
    UndefinedVariable(String),
    InvalidOperation(String),
}

/// Spec-level mirror of a semantic failure: the error kind that a rule
/// produces, with the exact diagnostic text.
pub enum SemanticIssue {
    TypeIssue(Seq<char>),
    OwnershipIssue(Seq<char>),
    ActorIssue(Seq<char>),
    AsyncIssue(Seq<char>),
    UndefinedIssue(Seq<char>),
    OperationIssue(Seq<char>),
}

/// Whether the executable error `e` carries exactly the failure `i`.
pub open spec fn issue_matches(e: SemanticError, i: SemanticIssue) -> bool {
    match (e, i) {
        (SemanticError::TypeError(m), SemanticIssue::TypeIssue(s)) => m@ == s,
        (SemanticError::OwnershipError(m), SemanticIssue::OwnershipIssue(s)) => m@ == s,
        (SemanticError::InvalidActorOperation(m), SemanticIssue::ActorIssue(s)) => m@ == s,
        (SemanticError::AsyncError(m), SemanticIssue::AsyncIssue(s)) => m@ == s,
        (SemanticError::UndefinedVariable(m), SemanticIssue::UndefinedIssue(s)) => m@ == s,
        (SemanticError::InvalidOperation(m), SemanticIssue::OperationIssue(s)) => m@ == s,
        _ => false,
    }
}

/// Type compatibility: identity on primitives, name equality for custom
/// types, element-wise for arrays and optionals.  A bare value of the
/// inner type satisfies an optional-typed slot, but an optional value
/// never satisfies a bare slot — the asymmetry is deliberate policy.
pub open spec fn compat(expected: Type, found: Type) -> bool
    decreases expected,
{
    match (expected, found) {
        (Type::Int, Type::Int) => true,
        (Type::Float, Type::Float) => true,
        (Type::String, Type::String) => true,
        (Type::Bool, Type::Bool) => true,
        (Type::Custom(e), Type::Custom(f)) => e@ == f@,
        (Type::Array(e), Type::Array(f)) => compat(*e, *f),
        (Type::Optional(e), Type::Optional(f)) => compat(*e, *f),
        (Type::Optional(e), f) => compat(*e, f),
        _ => false,
    }
}

/// The type of a literal.
pub open spec fn literal_type(v: LiteralValue) -> Type {
    match v {
        LiteralValue::Int(_) => Type::Int,
        LiteralValue::Float(_) => Type::Float,
        LiteralValue::String(_) => Type::String,
        LiteralValue::Bool(_) => Type::Bool,
    }
}

/// The scope frame that binds a method's parameters, in declaration order.
pub open spec fn frame_of(params: Seq<Parameter>) -> Seq<(String, Type)> {
    params.map_values(|p: Parameter| (p.name, p.param_type))
}

/// The type-environment entries that registering `fields` adds, in order.
pub open spec fn field_entries(fields: Seq<Field>) -> Seq<(String, Type)> {
    fields.map_values(|f: Field| (f.name, f.field_type))
}

/// Lookup through the scope stack, innermost frame (last) first.
pub open spec fn scopes_lookup(scopes: Seq<Seq<(String, Type)>>, name: Seq<char>) -> Option<Type>
    decreases scopes.len(),
{
    if scopes.len() == 0 {
        None
    } else {
        match assoc_lookup(scopes.last(), name) {
            Some(t) => Some(t),
            None => scopes_lookup(scopes.drop_last(), name),
        }
    }
}

/// Variable resolution: the scope stack first, then the type environment,
/// so a method body can name the enclosing actor's fields.
pub open spec fn var_lookup(
    env: Seq<(String, Type)>,
    scopes: Seq<Seq<(String, Type)>>,
    name: Seq<char>,
) -> Option<Type> {
    match scopes_lookup(scopes, name) {
        Some(t) => Some(t),
        None => assoc_lookup(env, name),
    }
}

/// The outcome of arithmetic on two operand types.
pub open spec fn arith_outcome(lt: Type, rt: Type) -> Result<Type, SemanticIssue> {
    if lt is Int && rt is Int {
        Ok(Type::Int)
    } else if lt is Float && rt is Float {
        Ok(Type::Float)
    } else {
        Err(SemanticIssue::TypeIssue("Invalid operand types for arithmetic operation"@))
    }
}

/// The inferred type of an expression, or the first failure inside it.
pub open spec fn expr_outcome(
    env: Seq<(String, Type)>,
    scopes: Seq<Seq<(String, Type)>>,
    e: Expression,
) -> Result<Type, SemanticIssue>
    decreases e,
{
    match e {
        Expression::BinaryOp { left, operator, right } => match expr_outcome(env, scopes, *left) {
            Err(i) => Err(i),
            Ok(lt) => match expr_outcome(env, scopes, *right) {
                Err(i) => Err(i),
                Ok(rt) => arith_outcome(lt, rt),
            },
        },
        Expression::Literal(v) => Ok(literal_type(v)),
        Expression::Variable(name) => match var_lookup(env, scopes, name@) {
            Some(t) => Ok(t),
            None => Err(SemanticIssue::UndefinedIssue(name@)),
        },
    }
}

/// The outcome of checking one statement against the declared return type.
pub open spec fn stmt_outcome(
    env: Seq<(String, Type)>,
    scopes: Seq<Seq<(String, Type)>>,
    stmt: Statement,
    return_type: Option<Type>,
) -> Option<SemanticIssue> {
    match stmt {
        Statement::Return(e) => match expr_outcome(env, scopes, e) {
            Err(i) => Some(i),
            Ok(t) => match return_type {
                Some(expected) => if !compat(expected, t) {
                    Some(SemanticIssue::TypeIssue("Return type mismatch"@))
                } else {
                    None
                },
                None => None,
            },
        },
        Statement::Expression(e) => match expr_outcome(env, scopes, e) {
            Err(i) => Some(i),
            Ok(_) => None,
        },
    }
}

/// The first failing statement of a body, in order.
pub open spec fn stmts_outcome(
    env: Seq<(String, Type)>,
    scopes: Seq<Seq<(String, Type)>>,
    stmts: Seq<Statement>,
    return_type: Option<Type>,
) -> Option<SemanticIssue>
    decreases stmts.len(),
{
    if stmts.len() == 0 {
        None
    } else {
        match stmt_outcome(env, scopes, stmts.first(), return_type) {
            Some(i) => Some(i),
            None => stmts_outcome(env, scopes, stmts.drop_first(), return_type),
        }
    }
}

/// A field's ownership rule: `Moved` fields cannot be mutable, `Shared`
/// fields must be.
pub open spec fn field_issue(f: Field) -> Option<SemanticIssue> {
    if f.ownership is Moved && f.is_mutable {
        Some(SemanticIssue::OwnershipIssue("Moved fields cannot be mutable"@))
    } else if f.ownership is Shared && !f.is_mutable {
        Some(SemanticIssue::OwnershipIssue("Shared fields must be mutable"@))
    } else {
        None
    }
}

/// The first failing field, in declaration order.
pub open spec fn fields_issue(fields: Seq<Field>) -> Option<SemanticIssue>
    decreases fields.len(),
{
    if fields.len() == 0 {
        None
    } else {
        match field_issue(fields.first()) {
            Some(i) => Some(i),
            None => fields_issue(fields.drop_first()),
        }
    }
}

/// Single-actor constraint: only an immediate method may be async.
pub open spec fn single_issue(methods: Seq<Method>) -> Option<SemanticIssue>
    decreases methods.len(),
{
    if methods.len() == 0 {
        None
    } else if methods.first().is_async && !methods.first().is_immediate {
        Some(SemanticIssue::ActorIssue("Single actor cannot have async methods except immediate init"@))
    } else {
        single_issue(methods.drop_first())
    }
}

/// A shared field of custom type must be mutable.
pub open spec fn shared_field_issue(f: Field) -> Option<SemanticIssue> {
    if f.field_type is Custom && !f.is_mutable {
        Some(SemanticIssue::OwnershipIssue("Shared fields of custom type must be mutable"@))
    } else {
        None
    }
}

/// Distributed-actor constraint: the shared-field rule over every `Shared`
/// field, in declaration order.
pub open spec fn distributed_issue(fields: Seq<Field>) -> Option<SemanticIssue>
    decreases fields.len(),
{
    if fields.len() == 0 {
        None
    } else {
        let head = if fields.first().ownership is Shared {
            shared_field_issue(fields.first())
        } else {
            None
        };
        match head {
            Some(i) => Some(i),
            None => distributed_issue(fields.drop_first()),
        }
    }
}

/// The first custom name a type references — itself, or through any
/// depth of arrays and optionals — that the environment does not
/// register, if any.
pub open spec fn unresolved_custom(env: Seq<(String, Type)>, ty: Type) -> Option<Seq<char>>
    decreases ty,
{
    match ty {
        Type::Custom(name) => if assoc_lookup(env, name@) is None {
            Some(name@)
        } else {
            None
        },
        Type::Array(elem) => unresolved_custom(env, *elem),
        Type::Optional(inner) => unresolved_custom(env, *inner),
        _ => None,
    }
}

/// A parameter whose type references an unregistered custom name.
pub open spec fn param_issue(env: Seq<(String, Type)>, p: Parameter) -> Option<SemanticIssue> {
    match unresolved_custom(env, p.param_type) {
        Some(name) => Some(
            SemanticIssue::TypeIssue("Unknown type "@ + name + " for parameter "@ + p.name@),
        ),
        None => None,
    }
}

/// The first failing parameter, in declaration order.
pub open spec fn params_issue(env: Seq<(String, Type)>, params: Seq<Parameter>) -> Option<
    SemanticIssue,
>
    decreases params.len(),
{
    if params.len() == 0 {
        None
    } else {
        match param_issue(env, params.first()) {
            Some(i) => Some(i),
            None => params_issue(env, params.drop_first()),
        }
    }
}

/// A declared return type that references an unregistered custom name.
pub open spec fn ret_issue(env: Seq<(String, Type)>, rt: Option<Type>) -> Option<SemanticIssue> {
    match rt {
        Some(ty) => match unresolved_custom(env, ty) {
            Some(name) => Some(SemanticIssue::TypeIssue("Unknown return type "@ + name)),
            None => None,
        },
        None => None,
    }
}

/// The outcome of analyzing one method: modifier rules first, then the
/// body's statements against the parameter frame, then parameter and
/// return type resolution.
pub open spec fn method_outcome(
    env: Seq<(String, Type)>,
    scopes: Seq<Seq<(String, Type)>>,
    m: Method,
    actor_type: ActorType,
) -> Option<SemanticIssue> {
    let scopes2 = scopes.push(frame_of(m.params@));
    if m.is_sequential && !m.is_async {
        Some(SemanticIssue::AsyncIssue("Sequential methods must be async"@))
    } else if m.is_immediate && m.name@ != "init"@ {
        Some(SemanticIssue::AsyncIssue("Only init method can be immediate"@))
    } else if m.is_immediate && actor_type is Distributed {
        Some(SemanticIssue::AsyncIssue("Distributed actors cannot have immediate init"@))
    } else {
        let body_issue = match m.body {
            Some(b) => stmts_outcome(env, scopes2, b.statements@, m.return_type),
            None => None,
        };
        match body_issue {
            Some(i) => Some(i),
            None => match params_issue(env, m.params@) {
                Some(i) => Some(i),
                None => ret_issue(env, m.return_type),
            },
        }
    }
}

/// The first failing method, in declaration order.
pub open spec fn methods_issue(
    env: Seq<(String, Type)>,
    scopes: Seq<Seq<(String, Type)>>,
    methods: Seq<Method>,
    actor_type: ActorType,
) -> Option<SemanticIssue>
    decreases methods.len(),
{
    if methods.len() == 0 {
        None
    } else {
        match method_outcome(env, scopes, methods.first(), actor_type) {
            Some(i) => Some(i),
            None => methods_issue(env, scopes, methods.drop_first(), actor_type),
        }
    }
}

/// The outcome of analyzing a whole actor: the kind-specific constraint,
/// then every field, then every method — each method seeing the type
/// environment with all fields registered.
pub open spec fn actor_outcome(
    env: Seq<(String, Type)>,
    scopes: Seq<Seq<(String, Type)>>,
    a: Actor,
) -> Option<SemanticIssue> {
    let kind_issue = match a.actor_type {
        ActorType::Single => single_issue(a.methods@),
        ActorType::Distributed => distributed_issue(a.fields@),
    };
    match kind_issue {
        Some(i) => Some(i),
        None => match fields_issue(a.fields@) {
            Some(i) => Some(i),
            None => methods_issue(
                env + field_entries(a.fields@),
                scopes,
                a.methods@,
                a.actor_type,
            ),
        },
    }
}

/// Compatibility is reflexive: every type satisfies a slot of its own type.
pub proof fn lemma_compat_reflexive(t: Type)
    ensures
        compat(t, t),
    decreases t,
{
    match t {
        Type::Array(e) => lemma_compat_reflexive(*e),
        Type::Optional(e) => lemma_compat_reflexive(*e),
        _ => {},
    }
}

/// The documented asymmetry of optional compatibility, for every type:
/// an optional-typed slot accepts a bare value of its inner type, but a
/// bare slot never accepts an optional value.
pub proof fn lemma_optional_compat_asymmetry(t: Type)
    ensures
        compat(Type::Optional(Box::new(t)), t),
        !compat(t, Type::Optional(Box::new(t))),
    decreases t,
{
    match t {
        Type::Optional(u) => lemma_optional_compat_asymmetry(*u),
        _ => lemma_compat_reflexive(t),
    }
}

/// The joint field rule, exactly: a `Moved` field is rejected when and
/// only when it is mutable, a `Shared` field when and only when it is
/// not, and any rejection is an ownership error.
pub proof fn lemma_field_ownership_rules(f: Field)
    ensures
        f.ownership is Moved ==> (field_issue(f) is Some <==> f.is_mutable),
        f.ownership is Shared ==> (field_issue(f) is Some <==> !f.is_mutable),
        field_issue(f) matches Some(i) ==> i is OwnershipIssue,
{
}

proof fn lemma_single_issue_finds(methods: Seq<Method>, j: int)
    requires
        0 <= j < methods.len(),
        methods[j].is_async,
        !methods[j].is_immediate,
    ensures
        single_issue(methods) matches Some(SemanticIssue::ActorIssue(m)) && m
            == "Single actor cannot have async methods except immediate init"@,
    decreases methods.len(),
{
    if methods.first().is_async && !methods.first().is_immediate {
    } else {
        assert(methods.drop_first()[j - 1] == methods[j]);
        lemma_single_issue_finds(methods.drop_first(), j - 1);
    }
}

/// A single actor with any async, non-immediate method is rejected with
/// an invalid-actor-operation error, whatever else the actor holds.
pub proof fn lemma_single_actor_async_rejected(
    env: Seq<(String, Type)>,
    scopes: Seq<Seq<(String, Type)>>,
    a: Actor,
    j: int,
)
    requires
        a.actor_type is Single,
        0 <= j < a.methods@.len(),
        a.methods@[j].is_async,
        !a.methods@[j].is_immediate,
    ensures
        actor_outcome(env, scopes, a) matches Some(SemanticIssue::ActorIssue(m)) && m
            == "Single actor cannot have async methods except immediate init"@,
{
    lemma_single_issue_finds(a.methods@, j);
}

/// An immediate method is lawful only as "init" on a non-distributed
/// actor: an accepted immediate method has that shape, and an immediate
/// method of any other shape is rejected with an async error — with the
/// exact diagnostic, except on the one corner where the method is also
/// sequential-but-not-async, which the analysis rejects first with the
/// sequential diagnostic (itself an async error).
pub proof fn lemma_immediate_method_rules(
    env: Seq<(String, Type)>,
    scopes: Seq<Seq<(String, Type)>>,
    m: Method,
    actor_type: ActorType,
)
    ensures
        method_outcome(env, scopes, m, actor_type) is None && m.is_immediate ==> m.name@
            == "init"@ && !(actor_type is Distributed),
        m.is_immediate && !(m.name@ == "init"@ && !(actor_type is Distributed))
            ==> method_outcome(env, scopes, m, actor_type) matches Some(
            SemanticIssue::AsyncIssue(msg),
        ),
        m.is_immediate && !(m.is_sequential && !m.is_async) && m.name@ != "init"@
            ==> (method_outcome(env, scopes, m, actor_type) matches Some(
            SemanticIssue::AsyncIssue(msg),
        ) && msg == "Only init method can be immediate"@),
        m.is_immediate && !(m.is_sequential && !m.is_async) && m.name@ == "init"@ && actor_type
            is Distributed ==> (method_outcome(env, scopes, m, actor_type) matches Some(
            SemanticIssue::AsyncIssue(msg),
        ) && msg == "Distributed actors cannot have immediate init"@),
{
}

/// The semantic analyzer's state: the type environment of registered
/// names, an ownership record per field, and the lexical scope stack
/// (innermost frame last).
pub struct SemanticAnalyzer {
    pub type_environment: NameTable<Type>,
    pub ownership_tracker: NameTable<OwnershipType>,
    pub current_scope: Vec<NameTable<Type>>,
}

impl SemanticAnalyzer {
    /// The scope stack as a sequence of frames.
    pub open spec fn scopes_view(&self) -> Seq<Seq<(String, Type)>> {
        self.current_scope@.map_values(|t: NameTable<Type>| t@)
    }

    /// The type environment's entries.
    pub open spec fn env_view(&self) -> Seq<(String, Type)> {
        self.type_environment@
    }

    /// A fresh analyzer: empty environment and one empty global frame.
    pub fn new() -> (a: Self)
        ensures
            a.env_view() =~= Seq::<(String, Type)>::empty(),
            a.ownership_tracker@ =~= Seq::<(String, OwnershipType)>::empty(),
            a.scopes_view() =~= seq![Seq::<(String, Type)>::empty()],
    {
        let mut scope: Vec<NameTable<Type>> = Vec::new();
        scope.push(NameTable::new());
        let a = SemanticAnalyzer {
            type_environment: NameTable::new(),
            ownership_tracker: NameTable::new(),
            current_scope: scope,
        };
        proof {
            assert(a.scopes_view() =~= seq![Seq::<(String, Type)>::empty()]);
        }
        a
    }

    /// Decides `compat(*expected, *found)` exactly.
    pub fn check_type_compatibility(&self, expected: &Type, found: &Type) -> (r: bool)
        ensures
            r == compat(*expected, *found),
        decreases *expected,
    {
        match (expected, found) {
            (Type::Int, Type::Int) => true,
            (Type::Float, Type::Float) => true,
            (Type::String, Type::String) => true,
            (Type::Bool, Type::Bool) => true,
            (Type::Custom(e), Type::Custom(f)) => str_eq_string(e.as_str(), f),
            (Type::Array(e), Type::Array(f)) => self.check_type_compatibility(&**e, &**f),
            (Type::Optional(e), Type::Optional(f)) => self.check_type_compatibility(&**e, &**f),
            (Type::Optional(e), f2) => self.check_type_compatibility(&**e, f2),
            _ => false,
        }
    }

    /// Registers the field's type, then enforces the ownership rules.
    /// The registration happens first, so it stands even when the rule
    /// check rejects the field.
    pub fn analyze_field(&mut self, field: &Field) -> (r: Result<(), SemanticError>)
        ensures
            final(self).env_view() == old(self).env_view().push((field.name, field.field_type)),
            final(self).scopes_view() == old(self).scopes_view(),
            final(self).ownership_tracker@ == old(self).ownership_tracker@,
            match field_issue(*field) {
                None => r is Ok,
                Some(i) => r matches Err(e) && issue_matches(e, i),
            },
    {
        self.type_environment.insert(field.name.clone(), field.field_type.clone());
        match field.ownership {
            OwnershipType::Moved => {
                if field.is_mutable {
                    return Err(SemanticError::OwnershipError(
                        String::from_str("Moved fields cannot be mutable"),
                    ));
                }
            },
            OwnershipType::Shared => {
                if !field.is_mutable {
                    return Err(SemanticError::OwnershipError(
                        String::from_str("Shared fields must be mutable"),
                    ));
                }
            },
            _ => {},
        }
        Ok(())
    }

    /// Single-actor constraint: every async method must be immediate.
    #[verifier::loop_isolation(false)]
    pub fn check_single_actor_constraints(&self, actor: &Actor) -> (r: Result<(), SemanticError>)
        ensures
            match single_issue(actor.methods@) {
                None => r is Ok,
                Some(i) => r matches Err(e) && issue_matches(e, i),
            },
    {
        let n = actor.methods.len();
        let mut k: usize = 0;
        proof {
            assert(actor.methods@.skip(0) =~= actor.methods@);
        }
        while k < n
            invariant
                k <= n,
                n == actor.methods@.len(),
                single_issue(actor.methods@) == single_issue(actor.methods@.skip(k as int)),
            decreases n - k,
        {
            let m = &actor.methods[k];
            proof {
                assert(actor.methods@.skip(k as int).first() == actor.methods@[k as int]);
                assert(actor.methods@.skip(k as int).drop_first() =~= actor.methods@.skip(
                    k as int + 1,
                ));
            }
            if m.is_async && !m.is_immediate {
                return Err(SemanticError::InvalidActorOperation(
                    String::from_str("Single actor cannot have async methods except immediate init"),
                ));
            }
            k = k + 1;
        }
        Ok(())
    }

    /// Distributed-actor constraint: every shared field obeys the
    /// shared-field rule.
    #[verifier::loop_isolation(false)]
    pub fn check_distributed_actor_constraints(&self, actor: &Actor) -> (r: Result<
        (),
        SemanticError,
    >)
        ensures
            match distributed_issue(actor.fields@) {
                None => r is Ok,
                Some(i) => r matches Err(e) && issue_matches(e, i),
            },
    {
        let n = actor.fields.len();
        let mut k: usize = 0;
        proof {
            assert(actor.fields@.skip(0) =~= actor.fields@);
        }
        while k < n
            invariant
                k <= n,
                n == actor.fields@.len(),
                distributed_issue(actor.fields@) == distributed_issue(
                    actor.fields@.skip(k as int),
                ),
            decreases n - k,
        {
            let f = &actor.fields[k];
            proof {
                assert(actor.fields@.skip(k as int).first() == actor.fields@[k as int]);
                assert(actor.fields@.skip(k as int).drop_first() =~= actor.fields@.skip(
                    k as int + 1,
                ));
            }
            if matches!(f.ownership, OwnershipType::Shared) {
                match self.verify_shared_field_constraints(f) {
                    Ok(()) => {},
                    Err(e) => {
                        return Err(e);
                    },
                }
            }
            k = k + 1;
        }
        Ok(())
    }

    /// The shared-field rule for one field: a custom-typed shared field
    /// must be mutable.
    pub fn verify_shared_field_constraints(&self, field: &Field) -> (r: Result<(), SemanticError>)
        ensures
            match shared_field_issue(*field) {
                None => r is Ok,
                Some(i) => r matches Err(e) && issue_matches(e, i),
            },
    {
        match &field.field_type {
            Type::Custom(_) => {
                if !field.is_mutable {
                    return Err(SemanticError::OwnershipError(
                        String::from_str("Shared fields of custom type must be mutable"),
                    ));
                }
            },
            _ => {},
        }
        Ok(())
    }

    /// Infers an expression's type against the scope stack, falling back
    /// to the type environment so field names resolve.
    #[verifier::loop_isolation(false)]
    pub fn analyze_expression(&self, expr: &Expression) -> (r: Result<Type, SemanticError>)
        ensures
            match expr_outcome(self.env_view(), self.scopes_view(), *expr) {
                Ok(t) => r matches Ok(rt) && rt == t,
                Err(i) => r matches Err(e) && issue_matches(e, i),
            },
        decreases *expr,
    {
        match expr {
            Expression::BinaryOp { left, operator, right } => {
                let left_type = match self.analyze_expression(left) {
                    Ok(t) => t,
                    Err(e) => {
                        return Err(e);
                    },
                };
                let right_type = match self.analyze_expression(right) {
                    Ok(t) => t,
                    Err(e) => {
                        return Err(e);
                    },
                };
                match (&left_type, &right_type) {
                    (Type::Int, Type::Int) => Ok(Type::Int),
                    (Type::Float, Type::Float) => Ok(Type::Float),
                    _ => Err(SemanticError::TypeError(
                        String::from_str("Invalid operand types for arithmetic operation"),
                    )),
                }
            },
            Expression::Literal(value) => match value {
                LiteralValue::Int(_) => Ok(Type::Int),
                LiteralValue::Float(_) => Ok(Type::Float),
                LiteralValue::String(_) => Ok(Type::String),
                LiteralValue::Bool(_) => Ok(Type::Bool),
            },
            Expression::Variable(name) => {
                let n = self.current_scope.len();
                let mut i: usize = n;
                proof {
                    assert(self.scopes_view().take(n as int) =~= self.scopes_view());
                }
                while i > 0
                    invariant
                        i <= n,
                        n == self.current_scope@.len(),
                        scopes_lookup(self.scopes_view(), name@) == scopes_lookup(
                            self.scopes_view().take(i as int),
                            name@,
                        ),
                    decreases i,
                {
                    i = i - 1;
                    proof {
                        assert(self.scopes_view().take(i + 1 as int).last() == self.scopes_view()[
                            i as int
                        ]);
                        assert(self.scopes_view().take(i + 1 as int).drop_last()
                            =~= self.scopes_view().take(i as int));
                    }
                    let frame = &self.current_scope[i];
                    match frame.get(name.as_str()) {
                        Some(t) => {
                            return Ok(t.clone());
                        },
                        None => {},
                    }
                }
                proof {
                    assert(self.scopes_view().take(0) =~= Seq::<Seq<(String, Type)>>::empty());
                }
                match self.type_environment.get(name.as_str()) {
                    Some(t) => Ok(t.clone()),
                    None => Err(SemanticError::UndefinedVariable(name.clone())),
                }
            },
        }
    }

    /// Checks one statement against the declared return type.
    pub fn analyze_statement(&self, stmt: &Statement, expected_return_type: &Option<Type>) -> (r:
        Result<(), SemanticError>)
        ensures
            match stmt_outcome(
                self.env_view(),
                self.scopes_view(),
                *stmt,
                *expected_return_type,
            ) {
                None => r is Ok,
                Some(i) => r matches Err(e) && issue_matches(e, i),
            },
    {
        match stmt {
            Statement::Return(expr) => {
                let expr_type = match self.analyze_expression(expr) {
                    Ok(t) => t,
                    Err(e) => {
                        return Err(e);
                    },
                };
                match expected_return_type {
                    Some(expected) => {
                        if !self.check_type_compatibility(expected, &expr_type) {
                            return Err(SemanticError::TypeError(
                                String::from_str("Return type mismatch"),
                            ));
                        }
                        Ok(())
                    },
                    None => Ok(()),
                }
            },
            Statement::Expression(expr) => {
                match self.analyze_expression(expr) {
                    Ok(_) => Ok(()),
                    Err(e) => Err(e),
                }
            },
        }
    }

    /// The first custom name `ty` references — through any depth of
    /// arrays and optionals — that is not registered.
    fn find_unresolved_custom(&self, ty: &Type) -> (r: Option<String>)
        ensures
            match unresolved_custom(self.env_view(), *ty) {
                Some(n) => r matches Some(s) && s@ == n,
                None => r is None,
            },
        decreases *ty,
    {
        match ty {
            Type::Custom(name) => {
                if self.type_environment.contains(name.as_str()) {
                    None
                } else {
                    Some(name.clone())
                }
            },
            Type::Array(elem) => self.find_unresolved_custom(&**elem),
            Type::Optional(inner) => self.find_unresolved_custom(&**inner),
            _ => None,
        }
    }

    /// Every custom name a parameter's type references must resolve,
    /// through arrays and optionals included.
    pub fn verify_parameter_type(&self, param: &Parameter) -> (r: Result<(), SemanticError>)
        ensures
            match param_issue(self.env_view(), *param) {
                None => r is Ok,
                Some(i) => r matches Err(e) && issue_matches(e, i),
            },
    {
        match self.find_unresolved_custom(&param.param_type) {
            Some(name) => {
                let mut msg = String::from_str("Unknown type ");
                msg.append(name.as_str());
                msg.append(" for parameter ");
                msg.append(param.name.as_str());
                Err(SemanticError::TypeError(msg))
            },
            None => Ok(()),
        }
    }

    /// Every custom name a declared return type references must
    /// resolve, through arrays and optionals included.
    pub fn verify_return_type(&self, return_type: &Type) -> (r: Result<(), SemanticError>)
        ensures
            match ret_issue(self.env_view(), Some(*return_type)) {
                None => r is Ok,
                Some(i) => r matches Err(e) && issue_matches(e, i),
            },
    {
        match self.find_unresolved_custom(return_type) {
            Some(name) => {
                let mut msg = String::from_str("Unknown return type ");
                msg.append(name.as_str());
                Err(SemanticError::TypeError(msg))
            },
            None => Ok(()),
        }
    }

    /// Analyzes one method: binds its parameters in a fresh scope frame,
    /// enforces the modifier rules, checks the body's statements in order,
    /// pops the frame, and resolves parameter and return types.  On
    /// failure the frame may be left pushed — a failed analyzer aborts the
    /// current actor and is not reused.
    #[verifier::loop_isolation(false)]
    pub fn analyze_method(&mut self, method: &Method, actor_type: &ActorType) -> (r: Result<
        (),
        SemanticError,
    >)
        ensures
            final(self).env_view() == old(self).env_view(),
            final(self).ownership_tracker@ == old(self).ownership_tracker@,
            r is Ok ==> final(self).scopes_view() == old(self).scopes_view(),
            r is Err ==> (final(self).scopes_view() == old(self).scopes_view()
                || final(self).scopes_view() == old(self).scopes_view().push(
                frame_of(method.params@),
            )),
            match method_outcome(
                old(self).env_view(),
                old(self).scopes_view(),
                *method,
                *actor_type,
            ) {
                None => r is Ok,
                Some(i) => r matches Err(e) && issue_matches(e, i),
            },
    {
        let mut frame: NameTable<Type> = NameTable::new();
        let n_params = method.params.len();
        let mut k: usize = 0;
        while k < n_params
            invariant
                k <= n_params,
                n_params == method.params@.len(),
                frame@ == frame_of(method.params@.take(k as int)),
            decreases n_params - k,
        {
            let p = &method.params[k];
            frame.insert(p.name.clone(), p.param_type.clone());
            proof {
                assert(frame_of(method.params@.take(k + 1 as int)) =~= frame_of(
                    method.params@.take(k as int),
                ).push((method.params@[k as int].name, method.params@[k as int].param_type)));
            }
            k = k + 1;
        }
        proof {
            assert(method.params@.take(n_params as int) =~= method.params@);
        }
        self.current_scope.push(frame);
        proof {
            assert(self.scopes_view() =~= old(self).scopes_view().push(frame_of(method.params@)));
        }

        if method.is_sequential && !method.is_async {
            return Err(SemanticError::AsyncError(
                String::from_str("Sequential methods must be async"),
            ));
        }

        if method.is_immediate {
            if !str_eq_string("init", &method.name) {
                return Err(SemanticError::AsyncError(
                    String::from_str("Only init method can be immediate"),
                ));
            }
            if matches!(actor_type, ActorType::Distributed) {
                return Err(SemanticError::AsyncError(
                    String::from_str("Distributed actors cannot have immediate init"),
                ));
            }
        }

        match &method.body {
            Some(body) => {
                let n_stmts = body.statements.len();
                let mut j: usize = 0;
                proof {
                    assert(body.statements@.skip(0) =~= body.statements@);
                }
                while j < n_stmts
                    invariant
                        j <= n_stmts,
                        n_stmts == body.statements@.len(),
                        self.env_view() == old(self).env_view(),
                        self.ownership_tracker@ == old(self).ownership_tracker@,
                        self.scopes_view() == old(self).scopes_view().push(
                            frame_of(method.params@),
                        ),
                        stmts_outcome(
                            self.env_view(),
                            self.scopes_view(),
                            body.statements@,
                            method.return_type,
                        ) == stmts_outcome(
                            self.env_view(),
                            self.scopes_view(),
                            body.statements@.skip(j as int),
                            method.return_type,
                        ),
                    decreases n_stmts - j,
                {
                    proof {
                        assert(body.statements@.skip(j as int).first() == body.statements@[
                            j as int
                        ]);
                        assert(body.statements@.skip(j as int).drop_first()
                            =~= body.statements@.skip(j as int + 1));
                    }
                    match self.analyze_statement(&body.statements[j], &method.return_type) {
                        Ok(()) => {},
                        Err(e) => {
                            return Err(e);
                        },
                    }
                    j = j + 1;
                }
            },
            None => {},
        }

        self.current_scope.pop();
        proof {
            assert(self.scopes_view() =~= old(self).scopes_view());
        }

        let n_params2 = method.params.len();
        let mut k2: usize = 0;
        proof {
            assert(method.params@.skip(0) =~= method.params@);
        }
        while k2 < n_params2
            invariant
                k2 <= n_params2,
                n_params2 == method.params@.len(),
                self.env_view() == old(self).env_view(),
                self.ownership_tracker@ == old(self).ownership_tracker@,
                self.scopes_view() == old(self).scopes_view(),
                params_issue(self.env_view(), method.params@) == params_issue(
                    self.env_view(),
                    method.params@.skip(k2 as int),
                ),
            decreases n_params2 - k2,
        {
            proof {
                assert(method.params@.skip(k2 as int).first() == method.params@[k2 as int]);
                assert(method.params@.skip(k2 as int).drop_first() =~= method.params@.skip(
                    k2 as int + 1,
                ));
            }
            match self.verify_parameter_type(&method.params[k2]) {
                Ok(()) => {},
                Err(e) => {
                    return Err(e);
                },
            }
            k2 = k2 + 1;
        }

        match &method.return_type {
            Some(return_type) => {
                match self.verify_return_type(return_type) {
                    Ok(()) => {},
                    Err(e) => {
                        return Err(e);
                    },
                }
            },
            None => {},
        }

        Ok(())
    }

    /// Analyzes a whole actor: the kind-specific constraint, every field,
    /// then every method against the fully registered type environment.
    /// A failure aborts this actor only; the analyzer is then discarded.
    #[verifier::loop_isolation(false)]
    pub fn analyze_actor(&mut self, actor: &Actor) -> (r: Result<(), SemanticError>)
        ensures
            match actor_outcome(old(self).env_view(), old(self).scopes_view(), *actor) {
                None => r is Ok,
                Some(i) => r matches Err(e) && issue_matches(e, i),
            },
            r is Ok ==> final(self).env_view() == old(self).env_view() + field_entries(
                actor.fields@,
            ) && final(self).scopes_view() == old(self).scopes_view(),
    {
        match actor.actor_type {
            ActorType::Single => {
                match self.check_single_actor_constraints(actor) {
                    Ok(()) => {},
                    Err(e) => {
                        return Err(e);
                    },
                }
            },
            ActorType::Distributed => {
                match self.check_distributed_actor_constraints(actor) {
                    Ok(()) => {},
                    Err(e) => {
                        return Err(e);
                    },
                }
            },
        }

        let n_fields = actor.fields.len();
        let mut k: usize = 0;
        proof {
            assert(actor.fields@.skip(0) =~= actor.fields@);
            assert(field_entries(actor.fields@.take(0)) =~= Seq::<(String, Type)>::empty());
            assert(old(self).env_view() + field_entries(actor.fields@.take(0)) =~= old(
                self,
            ).env_view());
        }
        while k < n_fields
            invariant
                k <= n_fields,
                n_fields == actor.fields@.len(),
                self.env_view() == old(self).env_view() + field_entries(
                    actor.fields@.take(k as int),
                ),
                self.scopes_view() == old(self).scopes_view(),
                self.ownership_tracker@ == old(self).ownership_tracker@,
                fields_issue(actor.fields@) == fields_issue(actor.fields@.skip(k as int)),
            decreases n_fields - k,
        {
            proof {
                assert(actor.fields@.skip(k as int).first() == actor.fields@[k as int]);
                assert(actor.fields@.skip(k as int).drop_first() =~= actor.fields@.skip(
                    k as int + 1,
                ));
            }
            match self.analyze_field(&actor.fields[k]) {
                Ok(()) => {},
                Err(e) => {
                    return Err(e);
                },
            }
            proof {
                assert(field_entries(actor.fields@.take(k + 1 as int)) =~= field_entries(
                    actor.fields@.take(k as int),
                ).push((actor.fields@[k as int].name, actor.fields@[k as int].field_type)));
                assert(self.env_view() =~= old(self).env_view() + field_entries(
                    actor.fields@.take(k as int + 1),
                ));
            }
            k = k + 1;
        }
        proof {
            assert(actor.fields@.take(n_fields as int) =~= actor.fields@);
        }

        let n_methods = actor.methods.len();
        let mut j: usize = 0;
        proof {
            assert(actor.methods@.skip(0) =~= actor.methods@);
        }
        while j < n_methods
            invariant
                j <= n_methods,
                n_methods == actor.methods@.len(),
                self.env_view() == old(self).env_view() + field_entries(actor.fields@),
                self.scopes_view() == old(self).scopes_view(),
                self.ownership_tracker@ == old(self).ownership_tracker@,
                methods_issue(
                    self.env_view(),
                    self.scopes_view(),
                    actor.methods@,
                    actor.actor_type,
                ) == methods_issue(
                    self.env_view(),
                    self.scopes_view(),
                    actor.methods@.skip(j as int),
                    actor.actor_type,
                ),
            decreases n_methods - j,
        {
            proof {
                assert(actor.methods@.skip(j as int).first() == actor.methods@[j as int]);
                assert(actor.methods@.skip(j as int).drop_first() =~= actor.methods@.skip(
                    j as int + 1,
                ));
            }
            match self.analyze_method(&actor.methods[j], &actor.actor_type) {
                Ok(()) => {},
                Err(e) => {
                    return Err(e);
                },
            }
            j = j + 1;
        }

        Ok(())
    }
}

} // verus!
