use vstd::prelude::*;

use crate::builders::enum_builder::VariantEntry;
use crate::flags::ZEND_ACC_INTERFACE;
use crate::types::Zval;

verus! {

/// `IS_UNDEF`: the type code of an enum whose cases carry no backing value.
pub const IS_UNDEF: u8 = 0;

/// An entry of a class's method table, as the engine reads it.
pub struct FunctionEntry {
    /// The method's name; `None` only in the entry that ends a table.
    pub fname: Option<String>,
    /// The number of arguments the method declares.
    pub num_args: u32,
    /// The method's flags (`ZEND_ACC_*`).
    pub flags: u32,
}

impl FunctionEntry {
    /// An entry for a method called `fname` that takes `num_args` arguments, with no flags yet.
    pub fn new(fname: String, num_args: u32) -> (e: FunctionEntry)
        ensures
            e.fname == Some(fname),
            e.num_args == num_args,
            e.flags == 0,
    {
        FunctionEntry { fname: Some(fname), num_args, flags: 0 }
    }

    /// The entry that ends a method table: no name, no arguments, no flags.
    pub open spec fn spec_end() -> FunctionEntry {
        FunctionEntry { fname: None, num_args: 0, flags: 0 }
    }

    /// The entry that ends a method table.
    pub fn end() -> (e: FunctionEntry)
        ensures
            e == FunctionEntry::spec_end(),
    {
        FunctionEntry { fname: None, num_args: 0, flags: 0 }
    }
}

/// The object constructor that replaces the engine's default one for a class
/// bound to a Rust type: it is known by that type's class name.
pub struct ObjectOverride {
    pub class_name: String,
}

/// A constant declared on a class: its name, the byte length of that name, and its value.
pub struct ClassConstant {
    pub name: String,
    pub name_len: u64,
    pub value: Zval,
}

/// What the engine holds of a class: its name, its flags, and the tables that
/// registration fills.
pub struct ClassEntry {
    pub name: String,
    /// The name of the class this one extends, if any.
    pub parent: Option<String>,
    /// The class flags (`ZEND_ACC_*`).
    pub ce_flags: u32,
    /// The names of the interfaces the class implements, in the order they were added.
    pub interfaces: Vec<String>,
    /// The cases of an enum, in the order they were added.
    pub cases: Vec<VariantEntry>,
    /// The class constants, in the order they were declared.
    pub constants: Vec<ClassConstant>,
    /// The constructor of the class's objects, where a Rust type overrides it.
    pub create_object: Option<ObjectOverride>,
}

impl ClassEntry {
    /// A class entry with the given name and flags, no parent and empty tables.
    pub fn new(name: String, ce_flags: u32) -> (c: ClassEntry)
        ensures
            c.name == name,
            c.ce_flags == ce_flags,
            c.parent is None,
            c.interfaces@.len() == 0,
            c.cases@.len() == 0,
            c.constants@.len() == 0,
            c.create_object is None,
    {
        ClassEntry {
            name,
            parent: None,
            ce_flags,
            interfaces: Vec::new(),
            cases: Vec::new(),
            constants: Vec::new(),
            create_object: None,
        }
    }

    /// Whether the entry is an interface.
    pub open spec fn spec_is_interface(&self) -> bool {
        self.ce_flags & ZEND_ACC_INTERFACE != 0
    }

    /// Whether the entry is an interface.
    pub fn is_interface(&self) -> (r: bool)
        ensures
            r == self.spec_is_interface(),
    {
        self.ce_flags & ZEND_ACC_INTERFACE != 0
    }
}

} // verus!
