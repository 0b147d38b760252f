use replica::ast::{Actor, ActorType, Field, LiteralValue, OwnershipType, Type};
use replica::lexer::{lex, parse_number, Token};
use replica::parser::Parser;
use replica::pipeline::{compile_actor_declaration, compile_source, CompileError};

#[test]
fn test_basic_compilation() {
    let test_source = r#"
        actor TestActor {
            var value: Int

            func getValue() -> Int {
                return value
            }
        }
    "#;
    let result = compile_source(test_source, "test");
    assert!(result.is_ok(), "Compilation failed: {:?}", result.err());
}

#[test]
fn lexer_recognizes_the_token_shapes() {
    let (tokens, consumed) = lex("single actor Counter { var x: Int }");
    assert_eq!(consumed, 35);
    assert!(matches!(tokens[0], Token::SingleActor));
    assert!(matches!(tokens[1], Token::Identifier(ref s) if s == "Counter"));
    assert!(matches!(tokens[2], Token::LBrace));
    assert!(matches!(tokens[3], Token::Var));
    assert!(matches!(tokens[4], Token::Identifier(ref s) if s == "x"));
    assert!(matches!(tokens[5], Token::Colon));
    assert!(matches!(tokens[6], Token::Identifier(ref s) if s == "Int"));
    assert!(matches!(tokens[7], Token::RBrace));
}

#[test]
fn lexer_handles_arrows_and_arithmetic() {
    let (tokens, _) = lex("-> + - * / = , ( )");
    assert!(matches!(tokens[0], Token::Arrow));
    assert!(matches!(tokens[1], Token::Plus));
    assert!(matches!(tokens[2], Token::Minus));
    assert!(matches!(tokens[3], Token::Multiply));
    assert!(matches!(tokens[4], Token::Divide));
    assert!(matches!(tokens[5], Token::Equals));
    assert!(matches!(tokens[6], Token::Comma));
    assert!(matches!(tokens[7], Token::LParen));
    assert!(matches!(tokens[8], Token::RParen));
}

#[test]
fn lexer_reports_where_it_stopped() {
    let (tokens, consumed) = lex("actor ?");
    assert!(matches!(tokens[0], Token::Actor));
    assert_eq!(consumed, 6);
}

#[test]
fn number_parsing_accepts_exactly_integer_literals() {
    assert!(matches!(parse_number("42"), Some(LiteralValue::Int(42))));
    assert!(matches!(parse_number("0"), Some(LiteralValue::Int(0))));
    assert!(matches!(parse_number("2147483647"), Some(LiteralValue::Int(i32::MAX))));
    assert!(parse_number("2147483648").is_none());
    assert!(parse_number("").is_none());
    assert!(parse_number("3.14").is_none());
    assert!(parse_number("12a").is_none());
}

#[test]
fn parser_builds_the_declared_actor() {
    let (tokens, _) = lex("actor Greeter { let name: String func greet(who: String) -> String { return who } }");
    let mut parser = Parser::new(tokens);
    let actor = parser.parse_actor().expect("the declaration parses");
    assert_eq!(actor.name, "Greeter");
    assert_eq!(actor.fields.len(), 1);
    assert_eq!(actor.methods.len(), 1);
    assert_eq!(actor.fields[0].name, "name");
    assert!(!actor.fields[0].is_mutable);
    assert!(matches!(actor.fields[0].field_type, Type::String));
    assert_eq!(actor.methods[0].name, "greet");
    assert_eq!(actor.methods[0].params.len(), 1);
    assert!(actor.methods[0].is_async);
}

#[test]
fn parser_rejects_a_missing_brace() {
    let (tokens, _) = lex("actor Broken");
    let mut parser = Parser::new(tokens);
    assert!(parser.parse_actor().is_err());
}

#[test]
fn pipeline_reports_semantic_failures() {
    let source = "single actor Clock { func tick() { return missing } }";
    match compile_source(source, "clock") {
        // Parsed methods are async, and a single actor allows async only
        // on an immediate init.
        Err(CompileError::SemanticFailure(_)) => {},
        other => panic!("expected a semantic failure, got {:?}", other),
    }
}

#[test]
fn parsed_declaration_compiles_directly() {
    let actor = Actor {
        name: "Box".to_string(),
        actor_type: ActorType::Single,
        methods: vec![],
        fields: vec![Field {
            name: "v".to_string(),
            field_type: Type::Int,
            is_mutable: true,
            ownership: OwnershipType::Owned,
        }],
    };
    let bytes = compile_actor_declaration(&actor, "boxmod").expect("the declaration compiles");
    assert_eq!(&bytes[0..4], &[0x61, 0x63, 0x74, 0x72]);
}

#[test]
fn pipeline_emits_an_object_header() {
    let source = "actor Box { var v: Int }";
    let bytes = compile_source(source, "boxmod").expect("the actor compiles");
    assert!(bytes.len() >= 20);
    assert_eq!(&bytes[0..4], &[0x61, 0x63, 0x74, 0x72]);
}
