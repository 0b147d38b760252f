use replica::ast::{OwnershipInfo, OwnershipType, Type};
use replica::ownership::OwnershipChecker;

fn info(ownership: OwnershipType) -> OwnershipInfo {
    OwnershipInfo { ownership_type: ownership, is_mutable: false }
}

#[test]
fn moved_name_moves_only_once() {
    let mut checker = OwnershipChecker::new();
    checker.register_variable("token".to_string(), info(OwnershipType::Moved), Type::String);
    assert!(checker.check_move("token").is_ok());
    let second = checker.check_move("token");
    assert_eq!(
        second,
        Err("Ownership violation: token was already moved".to_string())
    );
}

#[test]
fn owned_name_moves_repeatedly() {
    let mut checker = OwnershipChecker::new();
    checker.register_variable("x".to_string(), info(OwnershipType::Owned), Type::Int);
    assert!(checker.check_move("x").is_ok());
    assert!(checker.check_move("x").is_ok());
}

#[test]
fn unknown_name_fails_the_move_check() {
    let mut checker = OwnershipChecker::new();
    assert_eq!(checker.check_move("ghost_name"), Err("Unknown variable: ghost_name".to_string()));
}

#[test]
fn copy_rules_follow_ownership_and_type() {
    let mut checker = OwnershipChecker::new();
    checker.register_variable("c".to_string(), info(OwnershipType::Copied), Type::String);
    checker.register_variable("s".to_string(), info(OwnershipType::Shared), Type::Custom("Buf".to_string()));
    checker.register_variable("n".to_string(), info(OwnershipType::Owned), Type::Int);
    checker.register_variable("t".to_string(), info(OwnershipType::Owned), Type::String);
    checker.register_variable("m".to_string(), info(OwnershipType::Moved), Type::Int);

    // Copied always; Shared duplicates the reference; a copyable Owned
    // primitive copies; an Owned string does not; Moved never does.
    assert!(checker.check_copy("c", "c2").is_ok());
    assert!(checker.check_copy("s", "s2").is_ok());
    assert!(checker.check_copy("n", "n2").is_ok());
    assert_eq!(
        checker.check_copy("t", "t2"),
        Err("Ownership violation: t cannot be copied".to_string())
    );
    assert_eq!(
        checker.check_copy("m", "m2"),
        Err("Ownership violation: m cannot be copied".to_string())
    );
}
