use ext_php_rs::builders::enum_builder::{EnumBuilder, EnumRegistration};
use ext_php_rs::error::Error;
use ext_php_rs::flags::{MethodFlags, ZEND_ACC_INTERFACE, ZEND_ACC_NOT_SERIALIZABLE, ZEND_ACC_PUBLIC};
use ext_php_rs::types::Zval;
use ext_php_rs::zend::{ClassEntry, FunctionEntry, IS_UNDEF};

fn interface(name: &str) -> &'static ClassEntry {
    Box::leak(Box::new(ClassEntry::new(name.to_string(), ZEND_ACC_INTERFACE)))
}

fn engine_entry(name: &str) -> Option<ClassEntry> {
    Some(ClassEntry::new(name.to_string(), 0))
}

fn registered(plan: EnumRegistration, entry: Option<ClassEntry>) -> ClassEntry {
    let mut entry = entry;
    plan.register(&mut entry).unwrap();
    entry.unwrap()
}

#[test]
fn new_builder_is_empty() {
    let b = EnumBuilder::new("Suit".to_string());
    assert_eq!(b.name, "Suit");
    assert!(b.variants.is_empty());
    assert!(b.extends.is_none());
    assert!(b.interfaces.is_empty());
    assert!(b.methods.is_empty());
    assert!(b.object_override.is_none());
    assert!(b.constants.is_empty());
}

#[test]
fn variants_are_registered_in_order() {
    let b = EnumBuilder::new("Suit".to_string())
        .variant("Hearts".to_string(), "H".to_string())
        .variant("Spades".to_string(), 2i64)
        .variant("Clubs".to_string(), true)
        .variant("Joker".to_string(), None::<i64>);
    let plan = b.build().unwrap();
    let ce = registered(plan, engine_entry("Suit"));
    let names: Vec<&str> = ce.cases.iter().map(|c| c.discriminant.as_str()).collect();
    assert_eq!(names, vec!["Hearts", "Spades", "Clubs", "Joker"]);
    assert_eq!(ce.cases[0].value, Zval::Str("H".to_string()));
    assert_eq!(ce.cases[1].value, Zval::Long(2));
    assert_eq!(ce.cases[2].value, Zval::Bool(true));
    assert_eq!(ce.cases[3].value, Zval::Null);
    assert_eq!(ce.name, "Suit");
    assert_eq!(ce.ce_flags, 0);
    assert!(ce.parent.is_none());
    assert!(ce.create_object.is_none());
}

#[test]
fn build_ends_method_table() {
    let b = EnumBuilder::new("Suit".to_string())
        .method(FunctionEntry::new("color".to_string(), 0), MethodFlags::public())
        .method(FunctionEntry::new("rank".to_string(), 2), MethodFlags::from_bits(0x11));
    let plan = b.build().unwrap();
    assert_eq!(plan.name, "Suit");
    assert_eq!(plan.backing_type, IS_UNDEF);
    assert_eq!(plan.functions.len(), 3);
    assert_eq!(plan.functions[0].fname.as_deref(), Some("color"));
    assert_eq!(plan.functions[0].flags, ZEND_ACC_PUBLIC);
    assert_eq!(plan.functions[1].fname.as_deref(), Some("rank"));
    assert_eq!(plan.functions[1].num_args, 2);
    assert_eq!(plan.functions[1].flags, 0x11);
    assert!(plan.functions[2].fname.is_none());
    assert_eq!(plan.functions[2].num_args, 0);
    assert_eq!(plan.functions[2].flags, 0);
}

#[test]
fn method_overwrites_entry_flags() {
    let mut f = FunctionEntry::new("m".to_string(), 1);
    f.flags = 0xff;
    let b = EnumBuilder::new("E".to_string()).method(f, MethodFlags::from_bits(4));
    assert_eq!(b.methods[0].flags, 4);
    assert_eq!(b.methods[0].num_args, 1);
}

#[test]
fn build_rejects_name_with_nul() {
    let b = EnumBuilder::new("Su\0it".to_string());
    assert!(matches!(b.build(), Err(Error::InvalidCString)));
}

#[test]
fn register_without_engine_entry_fails() {
    let plan = EnumBuilder::new("Suit".to_string()).build().unwrap();
    let mut entry = None;
    assert!(matches!(plan.register(&mut entry), Err(Error::InvalidPointer)));
    assert!(entry.is_none());
}

#[test]
fn register_rejects_case_name_with_nul() {
    let plan = EnumBuilder::new("Suit".to_string())
        .implements(interface("UnitEnum"))
        .variant("Hearts".to_string(), 1i64)
        .variant("Spa\0des".to_string(), 2i64)
        .variant("Clubs".to_string(), 3i64)
        .constant("MAX".to_string(), 3i64)
        .unwrap()
        .object_override("Suit".to_string(), 0)
        .build()
        .unwrap();
    let mut entry = engine_entry("Suit");
    assert!(matches!(plan.register(&mut entry), Err(Error::InvalidCString)));
    let ce = entry.unwrap();
    assert_eq!(ce.ce_flags, ZEND_ACC_NOT_SERIALIZABLE);
    assert_eq!(ce.interfaces, vec!["UnitEnum".to_string()]);
    assert_eq!(ce.cases.len(), 1);
    assert_eq!(ce.cases[0].discriminant, "Hearts");
    assert!(ce.constants.is_empty());
    assert!(ce.create_object.is_none());
}

#[test]
fn register_rejects_constant_name_with_nul() {
    let plan = EnumBuilder::new("Suit".to_string())
        .variant("Hearts".to_string(), 1i64)
        .constant("MIN".to_string(), 0i64)
        .unwrap()
        .constant("MA\0X".to_string(), 1i64)
        .unwrap()
        .constant("TOP".to_string(), 2i64)
        .unwrap()
        .build()
        .unwrap();
    let mut entry = engine_entry("Suit");
    assert!(matches!(plan.register(&mut entry), Err(Error::InvalidCString)));
    let ce = entry.unwrap();
    assert_eq!(ce.cases.len(), 1);
    assert_eq!(ce.constants.len(), 1);
    assert_eq!(ce.constants[0].name, "MIN");
}

#[test]
fn constants_are_declared_with_byte_lengths() {
    let plan = EnumBuilder::new("Suit".to_string())
        .constant("MAX".to_string(), 4u64)
        .unwrap()
        .constant("ÄB".to_string(), "x".to_string())
        .unwrap()
        .build()
        .unwrap();
    let ce = registered(plan, engine_entry("Suit"));
    assert_eq!(ce.constants.len(), 2);
    assert_eq!(ce.constants[0].name, "MAX");
    assert_eq!(ce.constants[0].name_len, 3);
    assert_eq!(ce.constants[0].value, Zval::Long(4));
    assert_eq!(ce.constants[1].name, "ÄB");
    assert_eq!(ce.constants[1].name_len, 3);
    assert_eq!(ce.constants[1].value, Zval::Str("x".to_string()));
}

#[test]
fn constant_that_does_not_convert_is_an_error() {
    let r = EnumBuilder::new("Suit".to_string()).constant("BIG".to_string(), u64::MAX);
    assert!(matches!(r, Err(Error::IntegerOverflow)));
    let r = EnumBuilder::new("Suit".to_string()).constant("EDGE".to_string(), i64::MAX as u64);
    assert_eq!(r.unwrap().constants[0].1, Zval::Long(i64::MAX));
}

#[test]
fn interfaces_are_implemented_in_order() {
    let a = interface("UnitEnum");
    let b = interface("JsonSerializable");
    let plan = EnumBuilder::new("Suit".to_string()).implements(a).implements(b).build().unwrap();
    let ce = registered(plan, engine_entry("Suit"));
    assert_eq!(ce.interfaces, vec!["UnitEnum".to_string(), "JsonSerializable".to_string()]);
}

#[test]
fn extends_records_parent() {
    let parent: &'static ClassEntry = Box::leak(Box::new(ClassEntry::new("Base".to_string(), 0)));
    let b = EnumBuilder::new("Suit".to_string()).extends(parent);
    assert_eq!(b.extends.unwrap().name, "Base");
    let ce = registered(b.build().unwrap(), engine_entry("Suit"));
    assert_eq!(ce.parent.as_deref(), Some("Base"));
    assert!(ce.interfaces.is_empty());
}

#[test]
fn object_override_disables_serialization() {
    let b = EnumBuilder::new("Suit".to_string()).object_override("Suit".to_string(), 2);
    assert_eq!(b.methods.len(), 1);
    assert_eq!(b.methods[0].fname.as_deref(), Some("__construct"));
    assert_eq!(b.methods[0].num_args, 2);
    assert_eq!(b.methods[0].flags, ZEND_ACC_PUBLIC);
    let ce = registered(b.build().unwrap(), engine_entry("Suit"));
    assert_eq!(ce.ce_flags, ZEND_ACC_NOT_SERIALIZABLE);
    assert_eq!(ce.create_object.unwrap().class_name, "Suit");
}

#[test]
fn registration_keeps_existing_tables() {
    let mut entry = ClassEntry::new("Suit".to_string(), 0x10);
    entry.interfaces.push("Old".to_string());
    let plan = EnumBuilder::new("Suit".to_string())
        .implements(interface("New"))
        .variant("A".to_string(), 1i64)
        .build()
        .unwrap();
    let ce = registered(plan, Some(entry));
    assert_eq!(ce.ce_flags, 0x10);
    assert_eq!(ce.interfaces, vec!["Old".to_string(), "New".to_string()]);
    assert_eq!(ce.cases.len(), 1);
}
