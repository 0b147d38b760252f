use replica::ast::{
    Actor, ActorType, Expression, Field, LiteralValue, Method, MethodBody, Operator,
    OwnershipType, Parameter, Statement, Type,
};
use replica::codegen::error::CodeGenError;
use replica::codegen::eval::invoke;
use replica::codegen::expression::ExpressionCompiler;
use replica::codegen::generator::CodeGenerator;
use replica::codegen::lower::{Layout, TypeConverter, Value};
use replica::codegen::{create_generator, CodeGenOptions, OptimizationLevel};

fn new_generator(name: &str) -> CodeGenerator {
    create_generator(name, None).expect("generator creation cannot fail")
}

fn method(name: &str, params: Vec<Parameter>, ret: Option<Type>, body: Option<MethodBody>) -> Method {
    Method {
        name: name.to_string(),
        is_async: false,
        is_sequential: false,
        is_immediate: false,
        params,
        return_type: ret,
        body,
    }
}

fn param(name: &str, ty: Type) -> Parameter {
    Parameter { name: name.to_string(), param_type: ty, ownership: OwnershipType::Owned }
}

#[test]
fn test_basic_method_compilation() {
    let mut codegen = new_generator("test");
    let actor = Actor {
        name: "TestActor".to_string(),
        actor_type: ActorType::Single,
        methods: vec![method("test", vec![], Some(Type::Int), None)],
        fields: vec![],
    };
    assert!(codegen.compile_actor(&actor).is_ok());
    assert!(codegen.verify_module().is_ok());
}

#[test]
fn test_binary_operation_compilation() {
    let mut codegen = new_generator("test");
    let expression = Expression::BinaryOp {
        left: Box::new(Expression::Literal(LiteralValue::Int(1))),
        operator: Operator::Add,
        right: Box::new(Expression::Literal(LiteralValue::Int(2))),
    };
    let actor = Actor {
        name: "Calculator".to_string(),
        actor_type: ActorType::Single,
        methods: vec![method(
            "add",
            vec![],
            Some(Type::Int),
            Some(MethodBody { statements: vec![Statement::Return(expression)] }),
        )],
        fields: vec![],
    };
    assert!(codegen.compile_actor(&actor).is_ok());
    assert!(codegen.verify_module().is_ok());
}

#[test]
fn test_custom_type_compilation() {
    let mut codegen = new_generator("test");
    let actor = Actor {
        name: "CustomTypeTest".to_string(),
        actor_type: ActorType::Single,
        methods: vec![],
        fields: vec![Field {
            name: "field".to_string(),
            field_type: Type::Custom("TestType".to_string()),
            is_mutable: false,
            ownership: OwnershipType::Owned,
        }],
    };
    // TestType is never defined, so compilation must fail.
    assert!(codegen.compile_actor(&actor).is_err());
}

#[test]
fn test_string_literal_compilation() {
    let mut codegen = new_generator("test");
    let expression = Expression::Literal(LiteralValue::String("test".to_string()));
    let actor = Actor {
        name: "StringTest".to_string(),
        actor_type: ActorType::Single,
        methods: vec![method(
            "getString",
            vec![],
            Some(Type::String),
            Some(MethodBody { statements: vec![Statement::Return(expression)] }),
        )],
        fields: vec![],
    };
    assert!(codegen.compile_actor(&actor).is_ok());
    assert!(codegen.verify_module().is_ok());
}

#[test]
fn test_basic_actor_compilation() {
    let mut codegen = new_generator("test");
    let actor = Actor {
        name: "TestActor".to_string(),
        actor_type: ActorType::Single,
        methods: vec![],
        fields: vec![],
    };
    assert!(codegen.compile_actor(&actor).is_ok());
}

#[test]
fn test_wasm_emission() {
    let mut codegen = new_generator("test");
    let actor = Actor {
        name: "TestActor".to_string(),
        actor_type: ActorType::Single,
        methods: vec![],
        fields: vec![],
    };
    assert!(codegen.compile_actor(&actor).is_ok());
    let wasm = codegen.emit_wasm();
    assert!(wasm.is_ok());
}

#[test]
fn emission_is_refused_before_verification() {
    let codegen = new_generator("test");
    match codegen.emit_wasm() {
        Err(CodeGenError::Validation(m)) => {
            assert_eq!(m, "Cannot emit an unverified module");
        },
        other => panic!("expected a validation error, got {:?}", other),
    }
}

#[test]
fn test_create_generator() {
    let result = create_generator("test_module", None);
    assert!(result.is_ok());
}

#[test]
fn test_create_generator_with_options() {
    let options = CodeGenOptions {
        optimization_level: OptimizationLevel::Aggressive,
        debug_mode: true,
        target_triple: String::from("wasm32-unknown-unknown"),
    };
    let result = create_generator("test_module", Some(options));
    assert!(result.is_ok());
}

#[test]
fn test_literal_compilation() {
    let mut compiler = ExpressionCompiler::new();
    let int_literal = LiteralValue::Int(42);
    let float_literal = LiteralValue::Float(3.14f64.to_bits());
    let string_literal = LiteralValue::String("test".to_string());
    let bool_literal = LiteralValue::Bool(true);

    let a = compiler.compile_literal(&int_literal);
    let b = compiler.compile_literal(&float_literal);
    let c = compiler.compile_literal(&string_literal);
    let d = compiler.compile_literal(&bool_literal);
    assert_eq!((a, b, c, d), (0, 1, 2, 3));
}

#[test]
fn test_binary_operation() {
    let mut compiler = ExpressionCompiler::new();
    let left = Expression::Literal(LiteralValue::Int(10));
    let right = Expression::Literal(LiteralValue::Int(5));
    let expr = Expression::BinaryOp {
        left: Box::new(left),
        operator: Operator::Add,
        right: Box::new(right),
    };
    let result = compiler.compile_expression(&expr);
    assert!(result.is_ok());
}

#[test]
fn test_variable_compilation() {
    let mut compiler = ExpressionCompiler::new();
    let id = compiler.compile_literal(&LiteralValue::Int(42));
    compiler.register_variable("test_var".to_string(), id);

    let result = compiler.compile_variable("test_var");
    assert!(result.is_ok());

    let result = compiler.compile_variable("undefined_var");
    assert!(result.is_err());
}

#[test]
fn mismatched_operand_kinds_are_rejected() {
    let mut compiler = ExpressionCompiler::new();
    let expr = Expression::BinaryOp {
        left: Box::new(Expression::Literal(LiteralValue::Int(1))),
        operator: Operator::Add,
        right: Box::new(Expression::Literal(LiteralValue::Float(2.0f64.to_bits()))),
    };
    match compiler.compile_expression(&expr) {
        Err(CodeGenError::ExpressionCompilation(m)) => {
            assert_eq!(m, "Incompatible types for binary operation");
        },
        other => panic!("expected an expression error, got {:?}", other),
    }
}

#[test]
fn test_primitive_type_conversion() {
    let converter = TypeConverter::new();
    assert!(converter.convert_type(&Type::Int).is_ok());
    assert!(converter.convert_type(&Type::Float).is_ok());
    assert!(converter.convert_type(&Type::Bool).is_ok());
}

#[test]
fn test_string_type_conversion() {
    let converter = TypeConverter::new();
    let result = converter.convert_type(&Type::String);
    assert!(result.is_ok());
    assert!(matches!(result.unwrap(), Layout::BytePtr));
}

#[test]
fn test_array_type_conversion() {
    let converter = TypeConverter::new();
    let array_type = Type::Array(Box::new(Type::Int));
    let result = converter.convert_type(&array_type);
    assert!(result.is_ok());
}

#[test]
fn test_optional_type_conversion() {
    let converter = TypeConverter::new();
    let optional_type = Type::Optional(Box::new(Type::Int));
    let result = converter.convert_type(&optional_type);
    assert!(result.is_ok());
}

#[test]
fn test_custom_type_handling() {
    let mut converter = TypeConverter::new();
    converter.register_struct_type("MyStruct".to_string());
    let result = converter.convert_type(&Type::Custom("MyStruct".to_string()));
    assert!(result.is_ok());
}

#[test]
fn optional_default_is_composite_with_presence_cleared() {
    let converter = TypeConverter::new();
    let v = converter.create_default_value(&Type::Optional(Box::new(Type::Int))).unwrap();
    match v {
        Value::OptionalVal(inner, present) => {
            assert!(!present);
            assert!(matches!(*inner, Value::IntVal(0)));
        },
        other => panic!("expected a composite default, got {:?}", other),
    }
}

#[test]
fn type_sizes_follow_the_layout_mapping() {
    let converter = TypeConverter::new();
    assert_eq!(converter.get_type_size(&Type::Int).unwrap(), 4);
    assert_eq!(converter.get_type_size(&Type::Float).unwrap(), 8);
    assert_eq!(converter.get_type_size(&Type::Bool).unwrap(), 1);
    assert_eq!(converter.get_type_size(&Type::String).unwrap(), 4);
    assert_eq!(converter.get_type_size(&Type::Array(Box::new(Type::Float))).unwrap(), 4);
    assert_eq!(converter.get_type_size(&Type::Optional(Box::new(Type::Int))).unwrap(), 5);
}

#[test]
fn copyability_follows_the_type() {
    let converter = TypeConverter::new();
    assert!(converter.is_copyable(&Type::Int));
    assert!(converter.is_copyable(&Type::Float));
    assert!(converter.is_copyable(&Type::Bool));
    assert!(!converter.is_copyable(&Type::String));
    assert!(!converter.is_copyable(&Type::Custom("X".to_string())));
    assert!(!converter.is_copyable(&Type::Array(Box::new(Type::Int))));
    assert!(converter.is_copyable(&Type::Optional(Box::new(Type::Int))));
    assert!(!converter.is_copyable(&Type::Optional(Box::new(Type::String))));
}

#[test]
fn unknown_custom_type_names_the_culprit() {
    let mut codegen = new_generator("test");
    let actor = Actor {
        name: "Broken".to_string(),
        actor_type: ActorType::Single,
        methods: vec![],
        fields: vec![Field {
            name: "f".to_string(),
            field_type: Type::Custom("Unregistered".to_string()),
            is_mutable: false,
            ownership: OwnershipType::Owned,
        }],
    };
    match codegen.compile_actor(&actor) {
        Err(CodeGenError::TypeConversion(m)) => {
            assert_eq!(m, "Unknown custom type: Unregistered");
        },
        other => panic!("expected a type conversion error, got {:?}", other),
    }
}

#[test]
fn counter_returns_its_field_value() {
    // A single actor with one mutable owned field and a getter: analysis
    // and generation succeed, and the compiled function returns the
    // field's current value.
    let actor = Actor {
        name: "Counter".to_string(),
        actor_type: ActorType::Single,
        methods: vec![method(
            "get",
            vec![],
            Some(Type::Int),
            Some(MethodBody {
                statements: vec![Statement::Return(Expression::Variable("value".to_string()))],
            }),
        )],
        fields: vec![Field {
            name: "value".to_string(),
            field_type: Type::Int,
            is_mutable: true,
            ownership: OwnershipType::Owned,
        }],
    };
    let mut analyzer = replica::semantic::SemanticAnalyzer::new();
    assert!(analyzer.analyze_actor(&actor).is_ok());

    let mut codegen = new_generator("counter");
    assert!(codegen.compile_actor(&actor).is_ok());
    let out = invoke(&codegen.module, "get", &vec![], &vec![Value::IntVal(42)]);
    assert!(matches!(out, Ok(Some(Value::IntVal(42)))));
}

#[test]
fn add_invoked_on_three_and_four_returns_seven() {
    let body = Expression::BinaryOp {
        left: Box::new(Expression::Variable("a".to_string())),
        operator: Operator::Add,
        right: Box::new(Expression::Variable("b".to_string())),
    };
    let actor = Actor {
        name: "Calculator".to_string(),
        actor_type: ActorType::Single,
        methods: vec![method(
            "add",
            vec![param("a", Type::Int), param("b", Type::Int)],
            Some(Type::Int),
            Some(MethodBody { statements: vec![Statement::Return(body)] }),
        )],
        fields: vec![],
    };
    let mut codegen = new_generator("calc");
    assert!(codegen.compile_actor(&actor).is_ok());
    let out = invoke(
        &codegen.module,
        "add",
        &vec![Value::IntVal(3), Value::IntVal(4)],
        &vec![],
    );
    assert!(matches!(out, Ok(Some(Value::IntVal(7)))));
}

#[test]
fn numeric_literals_round_trip_through_compilation() {
    // Compiling and evaluating a numeric literal yields the literal's
    // value: the integer itself, or the float's exact bit pattern.
    let cases = [-7, 0, 1, i32::MAX, i32::MIN];
    for n in cases {
        let actor = Actor {
            name: "Lit".to_string(),
            actor_type: ActorType::Single,
            methods: vec![method(
                "lit",
                vec![],
                Some(Type::Int),
                Some(MethodBody {
                    statements: vec![Statement::Return(Expression::Literal(LiteralValue::Int(n)))],
                }),
            )],
            fields: vec![],
        };
        let mut codegen = new_generator("lit");
        assert!(codegen.compile_actor(&actor).is_ok());
        let out = invoke(&codegen.module, "lit", &vec![], &vec![]);
        match out {
            Ok(Some(Value::IntVal(v))) => assert_eq!(v, n),
            other => panic!("expected the literal back, got {:?}", other),
        }
    }

    let bits = 2.5f64.to_bits();
    let actor = Actor {
        name: "FloatLit".to_string(),
        actor_type: ActorType::Single,
        methods: vec![method(
            "lit",
            vec![],
            Some(Type::Float),
            Some(MethodBody {
                statements: vec![Statement::Return(Expression::Literal(LiteralValue::Float(
                    bits,
                )))],
            }),
        )],
        fields: vec![],
    };
    let mut codegen = new_generator("flit");
    assert!(codegen.compile_actor(&actor).is_ok());
    match invoke(&codegen.module, "lit", &vec![], &vec![]) {
        Ok(Some(Value::FloatVal(b))) => assert_eq!(b, bits),
        other => panic!("expected the float bits back, got {:?}", other),
    }
}

#[test]
fn division_by_zero_is_an_evaluation_error() {
    // The declared division policy: a zero divisor propagates an error
    // value at evaluation time.
    let body = Expression::BinaryOp {
        left: Box::new(Expression::Literal(LiteralValue::Int(1))),
        operator: Operator::Divide,
        right: Box::new(Expression::Literal(LiteralValue::Int(0))),
    };
    let actor = Actor {
        name: "Divider".to_string(),
        actor_type: ActorType::Single,
        methods: vec![method(
            "div",
            vec![],
            Some(Type::Int),
            Some(MethodBody { statements: vec![Statement::Return(body)] }),
        )],
        fields: vec![],
    };
    let mut codegen = new_generator("div");
    assert!(codegen.compile_actor(&actor).is_ok());
    match invoke(&codegen.module, "div", &vec![], &vec![]) {
        Err(CodeGenError::InvalidOperation(m)) => {
            assert_eq!(m, "Division by zero or overflow");
        },
        other => panic!("expected the division policy error, got {:?}", other),
    }
}

#[test]
fn async_method_wrapper_preserves_the_result() {
    // The wrapper entry of an async method answers exactly as the
    // underlying function does.
    let body = Expression::BinaryOp {
        left: Box::new(Expression::Variable("a".to_string())),
        operator: Operator::Multiply,
        right: Box::new(Expression::Literal(LiteralValue::Int(3))),
    };
    let mut m = method(
        "triple",
        vec![param("a", Type::Int)],
        Some(Type::Int),
        Some(MethodBody { statements: vec![Statement::Return(body)] }),
    );
    m.is_async = true;
    let actor = Actor {
        name: "Tripler".to_string(),
        actor_type: ActorType::Distributed,
        methods: vec![m],
        fields: vec![],
    };
    let mut codegen = new_generator("triple");
    assert!(codegen.compile_actor(&actor).is_ok());
    let direct = invoke(&codegen.module, "triple", &vec![Value::IntVal(5)], &vec![]);
    let wrapped = invoke(&codegen.module, "triple_async", &vec![Value::IntVal(5)], &vec![]);
    assert!(matches!(direct, Ok(Some(Value::IntVal(15)))));
    assert!(matches!(wrapped, Ok(Some(Value::IntVal(15)))));
}

#[test]
fn failed_actor_leaves_no_partial_artifact() {
    // All-or-nothing per actor: after a failed compilation the module
    // holds exactly what it held before.
    let mut codegen = new_generator("test");
    let good = Actor {
        name: "Good".to_string(),
        actor_type: ActorType::Single,
        methods: vec![method("ok", vec![], Some(Type::Int), None)],
        fields: vec![],
    };
    assert!(codegen.compile_actor(&good).is_ok());
    let aggs = codegen.module.aggregates.len();
    let funcs = codegen.module.functions.len();

    let bad = Actor {
        name: "Bad".to_string(),
        actor_type: ActorType::Single,
        methods: vec![method("broken", vec![param("p", Type::Custom("Nope".to_string()))], None, None)],
        fields: vec![],
    };
    assert!(codegen.compile_actor(&bad).is_err());
    assert_eq!(codegen.module.aggregates.len(), aggs);
    assert_eq!(codegen.module.functions.len(), funcs);
}

#[test]
fn method_errors_carry_actor_and_method_identity() {
    let mut codegen = new_generator("test");
    let bad = Actor {
        name: "Bad".to_string(),
        actor_type: ActorType::Single,
        methods: vec![method(
            "broken",
            vec![param("p", Type::Custom("Nope".to_string()))],
            None,
            None,
        )],
        fields: vec![],
    };
    match codegen.compile_actor(&bad) {
        Err(CodeGenError::TypeConversion(m)) => {
            assert_eq!(m, "actor Bad, method broken: Unknown custom type: Nope");
        },
        other => panic!("expected a wrapped type conversion error, got {:?}", other),
    }
}

#[test]
fn missing_return_fails_module_verification() {
    // A declared return type with a body that never returns is caught
    // by verification, and the actor is rolled back.
    let actor = Actor {
        name: "NoReturn".to_string(),
        actor_type: ActorType::Single,
        methods: vec![method(
            "get",
            vec![],
            Some(Type::Int),
            Some(MethodBody { statements: vec![] }),
        )],
        fields: vec![],
    };
    let mut codegen = new_generator("test");
    match codegen.compile_actor(&actor) {
        Err(CodeGenError::Validation(m)) => {
            assert_eq!(m, "Module verification failed");
        },
        other => panic!("expected a validation error, got {:?}", other),
    }
    assert_eq!(codegen.module.functions.len(), 0);
}
