use replica::codegen::error::{CodeGenError, ErrorCategory, ErrorContext, SourceLocation};

#[test]
fn test_error_creation() {
    let error = CodeGenError::TypeConversion("Invalid type".to_string());
    assert!(matches!(error, CodeGenError::TypeConversion(_)));
}

#[test]
fn test_error_context() {
    let location = SourceLocation { file: "test.rs".to_string(), line: 1, column: 1 };
    let context = ErrorContext {
        location: Some(location),
        context: "Test context".to_string(),
        suggestion: Some("Try this".to_string()),
    };
    let error = CodeGenError::TypeConversion("test".to_string()).with_context(context);
    assert!(matches!(error, CodeGenError::TypeConversion(_)));
}

#[test]
fn test_error_category() {
    let error = CodeGenError::TypeConversion("test".to_string());
    assert_eq!(error.category(), ErrorCategory::Type);
}

#[test]
fn test_error_recoverability() {
    let recoverable = CodeGenError::TypeConversion("test".to_string());
    let unrecoverable = CodeGenError::Internal("test".to_string());
    assert!(recoverable.is_recoverable());
    assert!(!unrecoverable.is_recoverable());
}

#[test]
fn test_source_location_display() {
    let location = SourceLocation { file: "test.rs".to_string(), line: 42, column: 10 };
    assert_eq!(location.to_string(), "test.rs:42:10");
}

#[test]
fn test_error_category_display() {
    assert_eq!(ErrorCategory::Type.to_string(), "Type Error");
    assert_eq!(ErrorCategory::Expression.to_string(), "Expression Error");
    assert_eq!(ErrorCategory::Method.to_string(), "Method Error");
}

#[test]
fn test_error_suggestion_keeps_error() {
    let error = CodeGenError::Emission("test".to_string());
    let error = error.with_suggestion("try again".to_string());
    assert!(matches!(error, CodeGenError::Emission(_)));
}

#[test]
fn test_fatal_categories_are_unrecoverable() {
    assert!(!CodeGenError::Emission("e".to_string()).is_recoverable());
    assert!(!CodeGenError::Validation("v".to_string()).is_recoverable());
    assert!(!CodeGenError::Initialization("i".to_string()).is_recoverable());
    assert!(CodeGenError::UndefinedVariable("x".to_string()).is_recoverable());
    assert!(CodeGenError::OwnershipViolation("o".to_string()).is_recoverable());
    assert!(CodeGenError::AsyncError("a".to_string()).is_recoverable());
    assert!(CodeGenError::MemoryError("m".to_string()).is_recoverable());
}
