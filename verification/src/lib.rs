//! Registration logic for PHP enums built from Rust, and the shared state of the
//! attribute macros.
pub mod builders;
pub mod cstr;
pub mod error;
pub mod flags;
pub mod state;
pub mod types;
pub mod zend;
