use replica::ast::{
    Actor, ActorType, Expression, Field, Method, MethodBody, OwnershipType, Statement, Type,
};
use replica::semantic::{SemanticAnalyzer, SemanticError};

#[test]
fn test_basic_type_checking() {
    let analyzer = SemanticAnalyzer::new();
    assert!(analyzer.check_type_compatibility(&Type::Int, &Type::Int));
    assert!(!analyzer.check_type_compatibility(&Type::Int, &Type::Float));
}

#[test]
fn test_array_type_compatibility() {
    let analyzer = SemanticAnalyzer::new();
    assert!(analyzer.check_type_compatibility(
        &Type::Array(Box::new(Type::Int)),
        &Type::Array(Box::new(Type::Int))
    ));
    assert!(!analyzer.check_type_compatibility(
        &Type::Array(Box::new(Type::Int)),
        &Type::Array(Box::new(Type::Float))
    ));
}

#[test]
fn test_optional_type_compatibility() {
    let analyzer = SemanticAnalyzer::new();
    assert!(analyzer.check_type_compatibility(&Type::Optional(Box::new(Type::Int)), &Type::Int));
    assert!(analyzer.check_type_compatibility(
        &Type::Optional(Box::new(Type::Int)),
        &Type::Optional(Box::new(Type::Int))
    ));
}

#[test]
fn optional_compatibility_is_asymmetric() {
    // The documented one-way coercion: a bare value fills an optional
    // slot, an optional value never fills a bare slot.
    let analyzer = SemanticAnalyzer::new();
    for t in [Type::Int, Type::Bool, Type::String, Type::Custom("Point".to_string())] {
        let opt = Type::Optional(Box::new(clone_type(&t)));
        assert!(analyzer.check_type_compatibility(&opt, &t));
        assert!(!analyzer.check_type_compatibility(&t, &opt));
    }
}

fn clone_type(t: &Type) -> Type {
    t.clone()
}

fn field(name: &str, ty: Type, mutable: bool, ownership: OwnershipType) -> Field {
    Field { name: name.to_string(), field_type: ty, is_mutable: mutable, ownership }
}

fn plain_method(name: &str, ret: Option<Type>, stmts: Vec<Statement>) -> Method {
    Method {
        name: name.to_string(),
        is_async: false,
        is_sequential: false,
        is_immediate: false,
        params: vec![],
        return_type: ret,
        body: Some(MethodBody { statements: stmts }),
    }
}

#[test]
fn moved_mutable_field_is_rejected() {
    // A field marked Moved and mutable fails with the ownership error.
    let actor = Actor {
        name: "Holder".to_string(),
        actor_type: ActorType::Single,
        methods: vec![],
        fields: vec![field("value", Type::Int, true, OwnershipType::Moved)],
    };
    let mut analyzer = SemanticAnalyzer::new();
    match analyzer.analyze_actor(&actor) {
        Err(SemanticError::OwnershipError(m)) => {
            assert_eq!(m, "Moved fields cannot be mutable");
        },
        other => panic!("expected an ownership error, got {:?}", other),
    }
}

#[test]
fn moved_immutable_field_is_accepted() {
    let actor = Actor {
        name: "Holder".to_string(),
        actor_type: ActorType::Single,
        methods: vec![],
        fields: vec![field("value", Type::Int, false, OwnershipType::Moved)],
    };
    let mut analyzer = SemanticAnalyzer::new();
    assert!(analyzer.analyze_actor(&actor).is_ok());
}

#[test]
fn shared_immutable_field_is_rejected() {
    let actor = Actor {
        name: "Holder".to_string(),
        actor_type: ActorType::Single,
        methods: vec![],
        fields: vec![field("value", Type::Int, false, OwnershipType::Shared)],
    };
    let mut analyzer = SemanticAnalyzer::new();
    match analyzer.analyze_actor(&actor) {
        Err(SemanticError::OwnershipError(m)) => {
            assert_eq!(m, "Shared fields must be mutable");
        },
        other => panic!("expected an ownership error, got {:?}", other),
    }
}

#[test]
fn single_actor_async_method_is_rejected() {
    // An async, non-immediate method named "tick" on a single actor.
    let mut tick = plain_method("tick", None, vec![]);
    tick.is_async = true;
    let actor = Actor {
        name: "Clock".to_string(),
        actor_type: ActorType::Single,
        methods: vec![tick],
        fields: vec![],
    };
    let mut analyzer = SemanticAnalyzer::new();
    match analyzer.analyze_actor(&actor) {
        Err(SemanticError::InvalidActorOperation(m)) => {
            assert_eq!(m, "Single actor cannot have async methods except immediate init");
        },
        other => panic!("expected an invalid actor operation, got {:?}", other),
    }
}

#[test]
fn immediate_method_must_be_named_init() {
    let mut m = plain_method("start", None, vec![]);
    m.is_immediate = true;
    let actor = Actor {
        name: "Starter".to_string(),
        actor_type: ActorType::Single,
        methods: vec![m],
        fields: vec![],
    };
    let mut analyzer = SemanticAnalyzer::new();
    match analyzer.analyze_actor(&actor) {
        Err(SemanticError::AsyncError(msg)) => {
            assert_eq!(msg, "Only init method can be immediate");
        },
        other => panic!("expected an async error, got {:?}", other),
    }
}

#[test]
fn distributed_actor_rejects_immediate_init() {
    let mut m = plain_method("init", None, vec![]);
    m.is_immediate = true;
    let actor = Actor {
        name: "Remote".to_string(),
        actor_type: ActorType::Distributed,
        methods: vec![m],
        fields: vec![],
    };
    let mut analyzer = SemanticAnalyzer::new();
    match analyzer.analyze_actor(&actor) {
        Err(SemanticError::AsyncError(msg)) => {
            assert_eq!(msg, "Distributed actors cannot have immediate init");
        },
        other => panic!("expected an async error, got {:?}", other),
    }
}

#[test]
fn sequential_method_must_be_async() {
    let mut m = plain_method("step", None, vec![]);
    m.is_sequential = true;
    let actor = Actor {
        name: "Stepper".to_string(),
        actor_type: ActorType::Distributed,
        methods: vec![m],
        fields: vec![],
    };
    let mut analyzer = SemanticAnalyzer::new();
    match analyzer.analyze_actor(&actor) {
        Err(SemanticError::AsyncError(msg)) => {
            assert_eq!(msg, "Sequential methods must be async");
        },
        other => panic!("expected an async error, got {:?}", other),
    }
}

#[test]
fn return_type_mismatch_is_rejected() {
    let m = plain_method(
        "flag",
        Some(Type::Bool),
        vec![Statement::Return(Expression::Literal(replica::ast::LiteralValue::Int(1)))],
    );
    let actor = Actor {
        name: "Flagger".to_string(),
        actor_type: ActorType::Single,
        methods: vec![m],
        fields: vec![],
    };
    let mut analyzer = SemanticAnalyzer::new();
    match analyzer.analyze_actor(&actor) {
        Err(SemanticError::TypeError(msg)) => {
            assert_eq!(msg, "Return type mismatch");
        },
        other => panic!("expected a type error, got {:?}", other),
    }
}

#[test]
fn undefined_variable_is_rejected() {
    let m = plain_method(
        "get",
        Some(Type::Int),
        vec![Statement::Return(Expression::Variable("missing".to_string()))],
    );
    let actor = Actor {
        name: "Getter".to_string(),
        actor_type: ActorType::Single,
        methods: vec![m],
        fields: vec![],
    };
    let mut analyzer = SemanticAnalyzer::new();
    match analyzer.analyze_actor(&actor) {
        Err(SemanticError::UndefinedVariable(name)) => {
            assert_eq!(name, "missing");
        },
        other => panic!("expected an undefined variable, got {:?}", other),
    }
}

#[test]
fn unknown_custom_name_inside_array_parameter_is_rejected() {
    // Resolution looks through arrays and optionals: a parameter of
    // type Array(Custom) with an unregistered name fails analysis.
    let m = Method {
        name: "take".to_string(),
        is_async: false,
        is_sequential: false,
        is_immediate: false,
        params: vec![replica::ast::Parameter {
            name: "p".to_string(),
            param_type: Type::Array(Box::new(Type::Custom("Mystery".to_string()))),
            ownership: OwnershipType::Owned,
        }],
        return_type: None,
        body: None,
    };
    let actor = Actor {
        name: "Taker".to_string(),
        actor_type: ActorType::Single,
        methods: vec![m],
        fields: vec![],
    };
    let mut analyzer = SemanticAnalyzer::new();
    match analyzer.analyze_actor(&actor) {
        Err(SemanticError::TypeError(msg)) => {
            assert_eq!(msg, "Unknown type Mystery for parameter p");
        },
        other => panic!("expected a type error, got {:?}", other),
    }
}

#[test]
fn unknown_custom_name_inside_optional_return_is_rejected() {
    let m = Method {
        name: "give".to_string(),
        is_async: false,
        is_sequential: false,
        is_immediate: false,
        params: vec![],
        return_type: Some(Type::Optional(Box::new(Type::Custom("Mystery".to_string())))),
        body: None,
    };
    let actor = Actor {
        name: "Giver".to_string(),
        actor_type: ActorType::Single,
        methods: vec![m],
        fields: vec![],
    };
    let mut analyzer = SemanticAnalyzer::new();
    match analyzer.analyze_actor(&actor) {
        Err(SemanticError::TypeError(msg)) => {
            assert_eq!(msg, "Unknown return type Mystery");
        },
        other => panic!("expected a type error, got {:?}", other),
    }
}

#[test]
fn registered_custom_name_inside_array_parameter_is_accepted() {
    // A field of the referenced custom type registers its name, so a
    // parameter wrapping it in an array resolves.
    let m = Method {
        name: "take".to_string(),
        is_async: false,
        is_sequential: false,
        is_immediate: false,
        params: vec![replica::ast::Parameter {
            name: "p".to_string(),
            param_type: Type::Array(Box::new(Type::Custom("cell".to_string()))),
            ownership: OwnershipType::Owned,
        }],
        return_type: None,
        body: None,
    };
    let actor = Actor {
        name: "Taker".to_string(),
        actor_type: ActorType::Single,
        methods: vec![m],
        fields: vec![field("cell", Type::Int, true, OwnershipType::Owned)],
    };
    let mut analyzer = SemanticAnalyzer::new();
    assert!(analyzer.analyze_actor(&actor).is_ok());
}

#[test]
fn unknown_parameter_type_is_rejected() {
    let m = Method {
        name: "take".to_string(),
        is_async: false,
        is_sequential: false,
        is_immediate: false,
        params: vec![replica::ast::Parameter {
            name: "p".to_string(),
            param_type: Type::Custom("Mystery".to_string()),
            ownership: OwnershipType::Owned,
        }],
        return_type: None,
        body: None,
    };
    let actor = Actor {
        name: "Taker".to_string(),
        actor_type: ActorType::Single,
        methods: vec![m],
        fields: vec![],
    };
    let mut analyzer = SemanticAnalyzer::new();
    match analyzer.analyze_actor(&actor) {
        Err(SemanticError::TypeError(msg)) => {
            assert_eq!(msg, "Unknown type Mystery for parameter p");
        },
        other => panic!("expected a type error, got {:?}", other),
    }
}
