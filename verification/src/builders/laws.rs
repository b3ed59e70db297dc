use vstd::prelude::*;

use crate::builders::enum_builder::{class_constant, EnumBuilder, EnumRegistration};
use crate::cstr::has_nul;
use crate::flags::ZEND_ACC_NOT_SERIALIZABLE;
use crate::types::Zval;
use crate::error::Error;
use crate::types::IntoZval;
use crate::zend::{ClassEntry, FunctionEntry};

verus! {

/// Registering a built enum adds its cases to the entry in the order in which
/// they were added to the builder, and its constants likewise, each with the
/// byte length of its name.
pub proof fn law_registration_keeps_order(
    b: EnumBuilder,
    p: EnumRegistration,
    before: ClassEntry,
    after: ClassEntry,
)
    requires
        b.builds(p),
        p.applied(before, after),
    ensures
        after.cases@ == before.cases@ + b.variants@,
        after.constants@.len() == before.constants@.len() + b.constants@.len(),
        forall|j: int|
            0 <= j < b.constants@.len() ==> after.constants@[before.constants@.len() + j]
                == class_constant(#[trigger] b.constants@[j].0, b.constants@[j].1),
{
    assert forall|j: int| 0 <= j < b.constants@.len() implies after.constants@[before.constants@.len() + j]
        == class_constant(#[trigger] b.constants@[j].0, b.constants@[j].1) by {
        assert(after.constants@[before.constants@.len() + j] == p.constants@.map_values(
            |c: (String, Zval)| class_constant(c.0, c.1),
        )[j]);
    }
}

/// An enum that builds and whose engine entry comes back registers without
/// error exactly when its name, every case name and every constant name have
/// a C string form.
pub proof fn law_registration_succeeds_iff_names_valid(b: EnumBuilder, p: EnumRegistration)
    requires
        b.builds(p),
    ensures
        b.names_valid() <==> !has_nul(b.name@) && p.names_valid(),
{
}

/// A registered enum is not serializable, and its objects are created by the
/// Rust type's constructor, exactly when an object constructor overrode the
/// engine's (or the entry was unserializable before).
pub proof fn law_override_disables_serialization(
    b: EnumBuilder,
    p: EnumRegistration,
    before: ClassEntry,
    after: ClassEntry,
)
    requires
        b.builds(p),
        p.applied(before, after),
    ensures
        (after.ce_flags & ZEND_ACC_NOT_SERIALIZABLE != 0) <==> (b.object_override is Some || before.ce_flags
            & ZEND_ACC_NOT_SERIALIZABLE != 0),
        after.create_object == if b.object_override is Some {
            b.object_override
        } else {
            before.create_object
        },
{
    let f = before.ce_flags;
    assert((f | 0x2000_0000u32) & 0x2000_0000u32 != 0) by (bit_vector);
}

/// An enum implements exactly the interfaces added to its builder, in that
/// order, and each of them is an interface.
pub proof fn law_only_interfaces_are_implemented(
    b: EnumBuilder,
    p: EnumRegistration,
    before: ClassEntry,
    after: ClassEntry,
)
    requires
        b.wf(),
        b.builds(p),
        p.applied(before, after),
    ensures
        after.interfaces@.len() == before.interfaces@.len() + b.interfaces@.len(),
        forall|i: int|
            0 <= i < b.interfaces@.len() ==> after.interfaces@[before.interfaces@.len() + i]
                == (#[trigger] b.interfaces@[i]).name && b.interfaces@[i].spec_is_interface(),
{
    assert forall|i: int| 0 <= i < b.interfaces@.len() implies after.interfaces@[before.interfaces@.len() + i]
        == (#[trigger] b.interfaces@[i]).name && b.interfaces@[i].spec_is_interface() by {
        assert(after.interfaces@[before.interfaces@.len() + i] == p.interfaces@.map_values(
            |c: &'static ClassEntry| c.name,
        )[i]);
    }
}

/// Registering never clears a flag that the engine's entry already had, and
/// sets no flag but the not-serializable one.
pub proof fn law_registration_keeps_engine_flags(
    b: EnumBuilder,
    p: EnumRegistration,
    before: ClassEntry,
    after: ClassEntry,
)
    requires
        b.builds(p),
        p.applied(before, after),
    ensures
        after.ce_flags | before.ce_flags == after.ce_flags,
        after.ce_flags & !0x2000_0000u32 == before.ce_flags & !0x2000_0000u32,
{
    let f = before.ce_flags;
    assert((f | 0x2000_0000u32) | f == (f | 0x2000_0000u32)) by (bit_vector);
    assert((f | 0x2000_0000u32) & !0x2000_0000u32 == f & !0x2000_0000u32) by (bit_vector);
    assert(f | f == f) by (bit_vector);
}

/// Whatever methods were added, the built method table is those methods
/// followed by exactly one entry with no name, no arguments and no flags.
pub proof fn law_method_table_is_terminated(b: EnumBuilder, p: EnumRegistration)
    requires
        b.builds(p),
    ensures
        p.functions@.len() == b.methods@.len() + 1,
        p.functions@.drop_last() == b.methods@,
        p.functions@.last() == (FunctionEntry { fname: None, num_args: 0, flags: 0 }),
{
    assert(p.functions@.drop_last() =~= b.methods@);
}

/// An entry is an interface exactly when its flags are odd, that is, when
/// their lowest bit is set, whatever its other flags are.
pub proof fn law_interface_is_lowest_flag_bit(c: ClassEntry)
    ensures
        c.spec_is_interface() <==> c.ce_flags % 2 == 1,
{
    let f = c.ce_flags;
    assert((f & 1u32 != 0) <==> (f % 2 == 1)) by (bit_vector);
}

/// Every `i64` converts to the PHP long of that value.
pub proof fn law_i64_converts_to_long(v: i64, persistent: bool)
    ensures
        v.zval_of(persistent) == Ok::<Zval, Error>(Zval::Long(v)),
{
}

/// Every `String` converts to the PHP string of that value, the empty one included.
pub proof fn law_string_converts_to_str(s: String, persistent: bool)
    ensures
        s.zval_of(persistent) == Ok::<Zval, Error>(Zval::Str(s)),
{
}

/// Every `bool` converts to the PHP boolean of that value.
pub proof fn law_bool_converts_to_bool(v: bool, persistent: bool)
    ensures
        v.zval_of(persistent) == Ok::<Zval, Error>(Zval::Bool(v)),
{
}

/// A `u64` converts to the PHP long of the same value when it is at most
/// `i64::MAX`, and otherwise fails with `IntegerOverflow`.
pub proof fn law_u64_converts_when_it_fits(v: u64, persistent: bool)
    ensures
        v <= 0x7fff_ffff_ffff_ffff ==> (v.zval_of(persistent) matches Ok(Zval::Long(l)) && l == v),
        v > 0x7fff_ffff_ffff_ffff ==> v.zval_of(persistent) == Err::<Zval, Error>(Error::IntegerOverflow),
{
}

/// A zval converts to itself; `None` converts to PHP's `null`, and `Some(v)`
/// as `v` does.
pub proof fn law_zval_and_option_conversions(z: Zval, o: Option<i64>, persistent: bool)
    ensures
        z.zval_of(persistent) == Ok::<Zval, Error>(z),
        o is None ==> o.zval_of(persistent) == Ok::<Zval, Error>(Zval::Null),
        o matches Some(v) ==> o.zval_of(persistent) == Ok::<Zval, Error>(Zval::Long(v)),
{
}

} // verus!
