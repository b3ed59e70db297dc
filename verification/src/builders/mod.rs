pub mod constructor;
pub mod enum_builder;
pub mod laws;
