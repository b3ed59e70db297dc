use vstd::prelude::*;

use crate::cstr::{contains_nul, has_nul};
use crate::error::{Error, Result};
use crate::flags::{MethodFlags, ZEND_ACC_NOT_SERIALIZABLE, ZEND_ACC_PUBLIC};
use crate::types::{IntoZval, Zval};
use crate::zend::{ClassConstant, ClassEntry, FunctionEntry, ObjectOverride, IS_UNDEF};

verus! {

/// A case of an enum: its name and the value it stands for.
pub struct VariantEntry {
    pub discriminant: String,
    pub value: Zval,
}

/// Builder for registering an enum in PHP.
pub struct EnumBuilder {
    pub name: String,
    pub variants: Vec<VariantEntry>,
    pub extends: Option<&'static ClassEntry>,
    pub interfaces: Vec<&'static ClassEntry>,
    pub methods: Vec<FunctionEntry>,
    pub object_override: Option<ObjectOverride>,
    pub constants: Vec<(String, Zval)>,
}

/// What a built enum hands to the engine: the name, backing type and method
/// table to register it with, and what to add to the entry the engine returns.
pub struct EnumRegistration {
    pub name: String,
    pub backing_type: u8,
    /// The method table, ending with [`FunctionEntry::end`].
    pub functions: Vec<FunctionEntry>,
    pub extends: Option<&'static ClassEntry>,
    pub interfaces: Vec<&'static ClassEntry>,
    pub variants: Vec<VariantEntry>,
    pub constants: Vec<(String, Zval)>,
    pub object_override: Option<ObjectOverride>,
}

/// The constant that registration declares for `name` and `value`: the
/// engine is handed the byte length of the name beside it, as `str::len`
/// gives it.
pub open spec fn class_constant(name: String, value: Zval) -> ClassConstant {
    ClassConstant { name, name_len: (vstd::utf8::encode_utf8(name@).len() as usize) as u64, value }
}

impl EnumBuilder {
    /// Every class entry the builder implements is an interface.
    pub open spec fn wf(&self) -> bool {
        forall|i: int| 0 <= i < self.interfaces@.len() ==> #[trigger] self.interfaces@[i].spec_is_interface()
    }

    /// Creates a new enum builder for an enum called `name`.
    pub fn new(name: String) -> (b: Self)
        ensures
            b.name == name,
            b.variants@.len() == 0,
            b.extends is None,
            b.interfaces@.len() == 0,
            b.methods@.len() == 0,
            b.object_override is None,
            b.constants@.len() == 0,
            b.wf(),
    {
        EnumBuilder {
            name,
            variants: Vec::new(),
            extends: None,
            interfaces: Vec::new(),
            methods: Vec::new(),
            object_override: None,
            constants: Vec::new(),
        }
    }

    /// Sets the enum builder to extend another class.
    pub fn extends(self, parent: &'static ClassEntry) -> (b: Self)
        ensures
            b.extends == Some(parent),
            b.name == self.name,
            b.variants@ == self.variants@,
            b.interfaces@ == self.interfaces@,
            b.methods@ == self.methods@,
            b.object_override == self.object_override,
            b.constants@ == self.constants@,
            self.wf() ==> b.wf(),
    {
        let mut b = self;
        b.extends = Some(parent);
        b
    }

    /// Implements an interface on the enum; `interface` must be an interface.
    pub fn implements(self, interface: &'static ClassEntry) -> (b: Self)
        requires
            interface.spec_is_interface(),
        ensures
            b.interfaces@ == self.interfaces@.push(interface),
            b.name == self.name,
            b.variants@ == self.variants@,
            b.extends == self.extends,
            b.methods@ == self.methods@,
            b.object_override == self.object_override,
            b.constants@ == self.constants@,
            self.wf() ==> b.wf(),
    {
        let mut b = self;
        b.interfaces.push(interface);
        b
    }

    /// Adds a method to the enum, with the given flags.
    pub fn method(self, func: FunctionEntry, flags: MethodFlags) -> (b: Self)
        ensures
            b.methods@ == self.methods@.push(
                FunctionEntry { fname: func.fname, num_args: func.num_args, flags: flags.bits },
            ),
            b.name == self.name,
            b.variants@ == self.variants@,
            b.extends == self.extends,
            b.interfaces@ == self.interfaces@,
            b.object_override == self.object_override,
            b.constants@ == self.constants@,
            self.wf() ==> b.wf(),
    {
        let mut func = func;
        func.flags = flags.bits();
        let mut b = self;
        b.methods.push(func);
        b
    }

    /// Adds a case to the enum: `value` must convert into a zval.
    pub fn variant<V: IntoZval>(self, discriminant: String, value: V) -> (b: Self)
        requires
            value.zval_of(true) is Ok,
        ensures
            b.variants@ == self.variants@.push(
                VariantEntry { discriminant, value: value.zval_of(true)->Ok_0 },
            ),
            b.name == self.name,
            b.extends == self.extends,
            b.interfaces@ == self.interfaces@,
            b.methods@ == self.methods@,
            b.object_override == self.object_override,
            b.constants@ == self.constants@,
            self.wf() ==> b.wf(),
    {
        let value = value.into_zval(true).unwrap();
        let mut b = self;
        b.variants.push(VariantEntry { discriminant, value });
        b
    }

    /// Adds a constant to the enum; fails, with the conversion's error, where
    /// `value` does not convert into a zval.
    pub fn constant<V: IntoZval>(self, name: String, value: V) -> (r: Result<Self>)
        ensures
            value.zval_of(true) is Err <==> r is Err,
            value.zval_of(true) matches Err(e) ==> r == Err::<Self, Error>(e),
            r matches Ok(b) ==> {
                &&& b.constants@ == self.constants@.push((name, value.zval_of(true)->Ok_0))
                &&& b.name == self.name
                &&& b.variants@ == self.variants@
                &&& b.extends == self.extends
                &&& b.interfaces@ == self.interfaces@
                &&& b.methods@ == self.methods@
                &&& b.object_override == self.object_override
                &&& self.wf() ==> b.wf()
            },
    {
        let value = match value.into_zval(true) {
            Ok(z) => z,
            Err(e) => return Err(e),
        };
        let mut b = self;
        b.constants.push((name, value));
        Ok(b)
    }

    /// Overrides the creation of the engine objects that stand for instances
    /// of this enum with the constructor of the Rust type whose class name is
    /// `class_name`, and adds that type's `__construct` method, which takes
    /// `constructor_num_args` arguments, as a public method.
    pub fn object_override(self, class_name: String, constructor_num_args: u32) -> (b: Self)
        requires
            class_name@ == self.name@,
        ensures
            b.object_override == Some(ObjectOverride { class_name }),
            b.methods@.len() == self.methods@.len() + 1,
            b.methods@.drop_last() == self.methods@,
            b.methods@.last().fname matches Some(n) && n@ == "__construct"@,
            b.methods@.last().num_args == constructor_num_args,
            b.methods@.last().flags == ZEND_ACC_PUBLIC,
            b.name == self.name,
            b.variants@ == self.variants@,
            b.extends == self.extends,
            b.interfaces@ == self.interfaces@,
            b.constants@ == self.constants@,
            self.wf() ==> b.wf(),
    {
        let mut b = self;
        b.object_override = Some(ObjectOverride { class_name });
        let ctor = FunctionEntry::new("__construct".to_owned(), constructor_num_args);
        b.method(ctor, MethodFlags::public())
    }

    /// `p` is what building this enum hands over: its name, no backing type,
    /// its methods followed by the end of the table, and its interfaces,
    /// cases, constants and object constructor as they were added.
    pub open spec fn builds(&self, p: EnumRegistration) -> bool {
        &&& p.name == self.name
        &&& p.backing_type == IS_UNDEF
        &&& p.functions@ == self.methods@.push(FunctionEntry::spec_end())
        &&& p.extends == self.extends
        &&& p.interfaces@ == self.interfaces@
        &&& p.variants@ == self.variants@
        &&& p.constants@ == self.constants@
        &&& p.object_override == self.object_override
    }

    /// The enum's name, every case name and every constant name have a C string form.
    pub open spec fn names_valid(&self) -> bool {
        &&& !has_nul(self.name@)
        &&& forall|i: int| 0 <= i < self.variants@.len() ==> !has_nul(#[trigger] self.variants@[i].discriminant@)
        &&& forall|j: int| 0 <= j < self.constants@.len() ==> !has_nul(#[trigger] self.constants@[j].0@)
    }

    /// Builds the enum: hands over what registration needs, the method table
    /// ending with [`FunctionEntry::end`]. Fails where the enum's name has no
    /// C string form.
    pub fn build(self) -> (r: Result<EnumRegistration>)
        ensures
            has_nul(self.name@) <==> r is Err,
            r is Err ==> r == Err::<EnumRegistration, Error>(Error::InvalidCString),
            r matches Ok(p) ==> self.builds(p),
    {
        if contains_nul(&self.name) {
            return Err(Error::InvalidCString);
        }
        let mut functions = self.methods;
        functions.push(FunctionEntry::end());
        Ok(
            EnumRegistration {
                name: self.name,
                backing_type: IS_UNDEF,
                functions,
                extends: self.extends,
                interfaces: self.interfaces,
                variants: self.variants,
                constants: self.constants,
                object_override: self.object_override,
            },
        )
    }
}

impl EnumRegistration {
    /// Every case name and every constant name has a C string form.
    pub open spec fn names_valid(&self) -> bool {
        &&& forall|i: int| 0 <= i < self.variants@.len() ==> !has_nul(#[trigger] self.variants@[i].discriminant@)
        &&& forall|j: int| 0 <= j < self.constants@.len() ==> !has_nul(#[trigger] self.constants@[j].0@)
    }

    /// The case at `k` is the first whose name has no C string form.
    pub open spec fn case_fails_at(&self, k: int) -> bool {
        &&& 0 <= k < self.variants@.len()
        &&& has_nul(self.variants@[k].discriminant@)
        &&& forall|i: int| 0 <= i < k ==> !has_nul(#[trigger] self.variants@[i].discriminant@)
    }

    /// Every case name has a C string form, and the constant at `k` is the
    /// first whose name has none.
    pub open spec fn constant_fails_at(&self, k: int) -> bool {
        &&& forall|i: int| 0 <= i < self.variants@.len() ==> !has_nul(#[trigger] self.variants@[i].discriminant@)
        &&& 0 <= k < self.constants@.len()
        &&& has_nul(self.constants@[k].0@)
        &&& forall|j: int| 0 <= j < k ==> !has_nul(#[trigger] self.constants@[j].0@)
    }

    /// `after` is `before` once registration has got this far: the parent
    /// class and the serialization flag are set, all interfaces implemented,
    /// the first `nv` cases added and the first `nc` constants declared, and,
    /// where it got to the end (`done`), the object constructor installed.
    pub open spec fn applied_upto(
        &self,
        before: ClassEntry,
        after: ClassEntry,
        nv: int,
        nc: int,
        done: bool,
    ) -> bool {
        &&& after.name == before.name
        &&& after.parent == match self.extends {
            Some(p) => Some(p.name),
            None => before.parent,
        }
        &&& after.ce_flags == if self.object_override is Some {
            before.ce_flags | ZEND_ACC_NOT_SERIALIZABLE
        } else {
            before.ce_flags
        }
        &&& after.interfaces@ == before.interfaces@ + self.interfaces@.map_values(
            |c: &'static ClassEntry| c.name,
        )
        &&& after.cases@ == before.cases@ + self.variants@.take(nv)
        &&& after.constants@ == before.constants@ + self.constants@.take(nc).map_values(
            |c: (String, Zval)| class_constant(c.0, c.1),
        )
        &&& after.create_object == if done && self.object_override is Some {
            self.object_override
        } else {
            before.create_object
        }
    }

    /// `after` is `before` once this registration has been applied to it in full.
    pub open spec fn applied(&self, before: ClassEntry, after: ClassEntry) -> bool {
        self.applied_upto(before, after, self.variants@.len() as int, self.constants@.len() as int, true)
    }

    /// What registering on the engine entry `before` gives: where a case or
    /// constant name has no C string form, the error, with the entry left as
    /// registration got it up to that name (nothing is undone); else success,
    /// with the registration applied in full.
    pub open spec fn outcome(&self, before: ClassEntry, after: ClassEntry, r: Result<()>) -> bool {
        if exists|k: int| self.case_fails_at(k) {
            &&& r == Err::<(), Error>(Error::InvalidCString)
            &&& self.applied_upto(before, after, choose|k: int| self.case_fails_at(k), 0, false)
        } else if exists|k: int| self.constant_fails_at(k) {
            &&& r == Err::<(), Error>(Error::InvalidCString)
            &&& self.applied_upto(
                before,
                after,
                self.variants@.len() as int,
                choose|k: int| self.constant_fails_at(k),
                false,
            )
        } else {
            &&& r == Ok::<(), Error>(())
            &&& self.applied(before, after)
        }
    }

    /// Only one case can be the first that fails.
    pub proof fn lemma_case_fails_at_unique(&self, k: int)
        requires
            self.case_fails_at(k),
        ensures
            (choose|j: int| self.case_fails_at(j)) == k,
    {
        let j = choose|j: int| self.case_fails_at(j);
        if j < k {
            assert(!has_nul(self.variants@[j].discriminant@));
        } else if k < j {
            assert(!has_nul(self.variants@[k].discriminant@));
        }
    }

    /// Only one constant can be the first that fails.
    pub proof fn lemma_constant_fails_at_unique(&self, k: int)
        requires
            self.constant_fails_at(k),
        ensures
            (choose|j: int| self.constant_fails_at(j)) == k,
    {
        let j = choose|j: int| self.constant_fails_at(j);
        if j < k {
            assert(!has_nul(self.constants@[j].0@));
        } else if k < j {
            assert(!has_nul(self.constants@[k].0@));
        }
    }

    /// Completes the registration on the entry that the engine returned for
    /// the enum's name, backing type and method table (`None` where it
    /// returned none): sets the parent class, disables serialization where an
    /// object constructor overrides the engine's, implements the interfaces,
    /// adds the cases and declares the constants, in that order, and installs
    /// the object constructor. Fails where the engine returned no entry, or
    /// at the first case or constant name with no C string form; the entry
    /// then stays registered as far as registration got.
    pub fn register(self, registered: &mut Option<ClassEntry>) -> (r: Result<()>)
        ensures
            *old(registered) is None ==> r == Err::<(), Error>(Error::InvalidPointer) && *final(registered) is None,
            *old(registered) is Some ==> *final(registered) is Some && self.outcome(
                (*old(registered))->Some_0,
                (*final(registered))->Some_0,
                r,
            ),
            *old(registered) is Some ==> (r is Ok <==> self.names_valid()),
    {
        let ghost plan = self;
        let mut ce = match registered.take() {
            None => return Err(Error::InvalidPointer),
            Some(c) => c,
        };
        let ghost before = ce;
        let EnumRegistration {
            name: _,
            backing_type: _,
            functions: _,
            extends,
            interfaces,
            variants,
            constants,
            object_override,
        } = self;
        if let Some(p) = extends {
            ce.parent = Some(p.name.clone());
        }
        if object_override.is_some() {
            ce.ce_flags = ce.ce_flags | ZEND_ACC_NOT_SERIALIZABLE;
        }
        let ghost parent = ce.parent;
        let ghost flags = ce.ce_flags;
        for iface in it: interfaces.into_iter()
            invariant
                it.seq() == plan.interfaces@,
                ce.name == before.name,
                ce.parent == parent,
                ce.ce_flags == flags,
                ce.cases@ == before.cases@,
                ce.constants@ == before.constants@,
                ce.create_object == before.create_object,
                ce.interfaces@ == before.interfaces@ + it.seq().take(it.index() as int).map_values(
                    |c: &'static ClassEntry| c.name,
                ),
        {
            ce.interfaces.push(iface.name.clone());
            assert(it.seq().take(it.index() + 1).map_values(|c: &'static ClassEntry| c.name)
                =~= it.seq().take(it.index() as int).map_values(|c: &'static ClassEntry| c.name).push(iface.name));
        }
        assert(plan.interfaces@.take(plan.interfaces@.len() as int) =~= plan.interfaces@);
        assert(plan.constants@.take(0).map_values(|c: (String, Zval)| class_constant(c.0, c.1)) =~= Seq::<
            ClassConstant,
        >::empty());
        assert(ce.constants@ =~= before.constants@ + plan.constants@.take(0).map_values(
            |c: (String, Zval)| class_constant(c.0, c.1),
        ));
        let ghost with_interfaces = ce.interfaces@;
        for v in it: variants.into_iter()
            invariant
                it.seq() == plan.variants@,
                *old(registered) == Some(before),
                plan == self,
                parent == match plan.extends {
                    Some(p) => Some(p.name),
                    None => before.parent,
                },
                flags == if plan.object_override is Some {
                    before.ce_flags | ZEND_ACC_NOT_SERIALIZABLE
                } else {
                    before.ce_flags
                },
                with_interfaces == before.interfaces@ + plan.interfaces@.map_values(
                    |c: &'static ClassEntry| c.name,
                ),
                ce.name == before.name,
                ce.parent == parent,
                ce.ce_flags == flags,
                ce.interfaces@ == with_interfaces,
                ce.constants@ == before.constants@ + plan.constants@.take(0).map_values(
                    |c: (String, Zval)| class_constant(c.0, c.1),
                ),
                ce.create_object == before.create_object,
                ce.cases@ == before.cases@ + it.seq().take(it.index() as int),
                forall|i: int| 0 <= i < it.index() ==> !has_nul(#[trigger] it.seq()[i].discriminant@),
        {
            if contains_nul(&v.discriminant) {
                proof {
                    assert(plan.case_fails_at(it.index() as int));
                    plan.lemma_case_fails_at_unique(it.index() as int);
                }
                *registered = Some(ce);
                return Err(Error::InvalidCString);
            }
            ce.cases.push(v);
            assert(it.seq().take(it.index() + 1) =~= it.seq().take(it.index() as int).push(v));
        }
        assert(plan.variants@.take(plan.variants@.len() as int) =~= plan.variants@);
        assert(!exists|k: int| plan.case_fails_at(k));
        let ghost with_cases = ce.cases@;
        for c in it: constants.into_iter()
            invariant
                it.seq() == plan.constants@,
                *old(registered) == Some(before),
                plan == self,
                !exists|k: int| plan.case_fails_at(k),
                parent == match plan.extends {
                    Some(p) => Some(p.name),
                    None => before.parent,
                },
                flags == if plan.object_override is Some {
                    before.ce_flags | ZEND_ACC_NOT_SERIALIZABLE
                } else {
                    before.ce_flags
                },
                with_interfaces == before.interfaces@ + plan.interfaces@.map_values(
                    |c: &'static ClassEntry| c.name,
                ),
                forall|i: int| 0 <= i < plan.variants@.len() ==> !has_nul(#[trigger] plan.variants@[i].discriminant@),
                ce.name == before.name,
                ce.parent == parent,
                ce.ce_flags == flags,
                ce.interfaces@ == with_interfaces,
                ce.cases@ == with_cases,
                with_cases == before.cases@ + plan.variants@.take(plan.variants@.len() as int),
                ce.create_object == before.create_object,
                ce.constants@ == before.constants@ + it.seq().take(it.index() as int).map_values(
                    |c: (String, Zval)| class_constant(c.0, c.1),
                ),
                forall|j: int| 0 <= j < it.index() ==> !has_nul(#[trigger] it.seq()[j].0@),
        {
            let (name, value) = c;
            if contains_nul(&name) {
                proof {
                    assert(plan.constant_fails_at(it.index() as int));
                    assert(!exists|k: int| plan.case_fails_at(k));
                    plan.lemma_constant_fails_at_unique(it.index() as int);
                }
                *registered = Some(ce);
                return Err(Error::InvalidCString);
            }
            let name_len: u64 = name.as_str().len() as u64;
            ce.constants.push(ClassConstant { name, name_len, value });
            assert(it.seq().take(it.index() + 1).map_values(|c: (String, Zval)| class_constant(c.0, c.1))
                =~= it.seq().take(it.index() as int).map_values(|c: (String, Zval)| class_constant(c.0, c.1)).push(
                class_constant(c.0, c.1)));
        }
        assert(plan.constants@.take(plan.constants@.len() as int) =~= plan.constants@);
        assert(!exists|k: int| plan.constant_fails_at(k));
        if let Some(o) = object_override {
            ce.create_object = Some(o);
        }
        *registered = Some(ce);
        Ok(())
    }
}

} // verus!
