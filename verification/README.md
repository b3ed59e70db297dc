# ext_php_rs

Verified core of registering PHP enums from Rust.

- `src/builders/enum_builder.rs`: `EnumBuilder` collects an enum's cases,
  constants, interfaces, methods and object constructor; `build` hands over what
  registration needs, and `EnumRegistration::register` applies it to the class
  entry that the engine returns.
- `src/builders/constructor.rs`: what the generated `__construct` of a class
  bound to a Rust type does next, given what its steps gave back.
- `src/builders/laws.rs`: properties that relate building and registering.
- `src/zend.rs`, `src/types.rs`, `src/flags.rs`: the class entries, method
  entries, zvals and flags that the logic reads and writes.
- `src/cstr.rs`: whether a name has a C string form.
- `src/state.rs`: the record shared by the attribute macros.
- `app/lib.rs`: that record behind a lock, and its process-wide instance.

The crate defines no procedural macros: the attribute and derive macros that
fill the shared record are not part of it, and `app/` holds only that record.
