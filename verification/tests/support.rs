use ext_php_rs::builders::constructor::{constructor_action, ConstructorAction, ConstructorOutcome};
use ext_php_rs::cstr::contains_nul;
use ext_php_rs::flags::{MethodFlags, ZEND_ACC_INTERFACE};
use ext_php_rs::state::State;
use ext_php_rs::types::{IntoZval, Zval};
use ext_php_rs::zend::ClassEntry;

#[test]
fn nul_detection() {
    assert!(!contains_nul(&"abc".to_string()));
    assert!(!contains_nul(&String::new()));
    assert!(contains_nul(&"\0".to_string()));
    assert!(contains_nul(&"ab\0c".to_string()));
    assert!(!contains_nul(&"é€".to_string()));
}

#[test]
fn u64_conversion_limits() {
    assert_eq!((i64::MAX as u64).into_zval(false), Ok(Zval::Long(i64::MAX)));
    assert_eq!((i64::MAX as u64 + 1).into_zval(false), Err(ext_php_rs::error::Error::IntegerOverflow));
    assert_eq!(7u64.into_zval(true), Ok(Zval::Long(7)));
}

#[test]
fn other_conversions() {
    assert_eq!(Some(false).into_zval(true), Ok(Zval::Bool(false)));
    assert_eq!(None::<bool>.into_zval(true), Ok(Zval::Null));
    assert_eq!(Some(u64::MAX).into_zval(true), Err(ext_php_rs::error::Error::IntegerOverflow));
    assert_eq!(Zval::Long(-3).into_zval(true), Ok(Zval::Long(-3)));
    assert_eq!((-5i64).into_zval(true), Ok(Zval::Long(-5)));
}

#[test]
fn interface_flag() {
    assert!(ClassEntry::new("I".to_string(), ZEND_ACC_INTERFACE).is_interface());
    assert!(ClassEntry::new("I".to_string(), 0x21).is_interface());
    assert!(!ClassEntry::new("C".to_string(), 0x20).is_interface());
}

#[test]
fn method_flag_bits() {
    assert_eq!(MethodFlags::public().bits(), 1);
    assert_eq!(MethodFlags::from_bits(0x30).bits(), 0x30);
}

#[test]
fn state_starts_empty() {
    let s = State::default();
    assert!(s.functions.is_empty());
    assert!(s.classes.is_empty());
    assert!(s.constants.is_empty());
    assert!(s.startup_function.is_none());
    assert!(!s.built_module);
}

#[test]
fn constructor_actions() {
    assert_eq!(
        constructor_action(false, ConstructorOutcome::Built, true),
        ConstructorAction::Throw("You cannot instantiate this class from PHP.".to_string())
    );
    assert_eq!(constructor_action(true, ConstructorOutcome::Exception, true), ConstructorAction::Rethrow);
    assert_eq!(constructor_action(true, ConstructorOutcome::ArgError, false), ConstructorAction::Return);
    assert_eq!(
        constructor_action(true, ConstructorOutcome::Built, false),
        ConstructorAction::Throw("Failed to retrieve reference to `this` object.".to_string())
    );
    assert_eq!(constructor_action(true, ConstructorOutcome::Built, true), ConstructorAction::Initialize);
}
