use vstd::prelude::*;

use crate::error::Error;

verus! {

/// A PHP value, as the engine stores it in a zval.
#[derive(Debug, PartialEq)]
pub enum Zval {
    Null,
    Bool(bool),
    Long(i64),
    Str(String),
}

/// Conversion of a Rust value into a zval.
pub trait IntoZval: Sized {
    /// The zval that `self` converts to, or the error that the conversion gives.
    spec fn zval_of(self, persistent: bool) -> core::result::Result<Zval, Error>;

    /// Converts `self` into a zval; `persistent` asks for memory that outlives the request.
    fn into_zval(self, persistent: bool) -> (r: core::result::Result<Zval, Error>)
        ensures
            r == self.zval_of(persistent),
    ;
}

impl IntoZval for Zval {
    open spec fn zval_of(self, persistent: bool) -> core::result::Result<Zval, Error> {
        Ok(self)
    }

    fn into_zval(self, persistent: bool) -> (r: core::result::Result<Zval, Error>) {
        Ok(self)
    }
}

impl IntoZval for bool {
    open spec fn zval_of(self, persistent: bool) -> core::result::Result<Zval, Error> {
        Ok(Zval::Bool(self))
    }

    fn into_zval(self, persistent: bool) -> (r: core::result::Result<Zval, Error>) {
        Ok(Zval::Bool(self))
    }
}

impl IntoZval for i64 {
    open spec fn zval_of(self, persistent: bool) -> core::result::Result<Zval, Error> {
        Ok(Zval::Long(self))
    }

    fn into_zval(self, persistent: bool) -> (r: core::result::Result<Zval, Error>) {
        Ok(Zval::Long(self))
    }
}

/// A `u64` fits in a PHP long only up to `i64::MAX`; above that the conversion fails.
impl IntoZval for u64 {
    open spec fn zval_of(self, persistent: bool) -> core::result::Result<Zval, Error> {
        if self <= i64::MAX {
            Ok(Zval::Long(self as i64))
        } else {
            Err(Error::IntegerOverflow)
        }
    }

    fn into_zval(self, persistent: bool) -> (r: core::result::Result<Zval, Error>) {
        if self <= i64::MAX as u64 {
            Ok(Zval::Long(self as i64))
        } else {
            Err(Error::IntegerOverflow)
        }
    }
}

impl IntoZval for String {
    open spec fn zval_of(self, persistent: bool) -> core::result::Result<Zval, Error> {
        Ok(Zval::Str(self))
    }

    fn into_zval(self, persistent: bool) -> (r: core::result::Result<Zval, Error>) {
        Ok(Zval::Str(self))
    }
}

/// `None` is PHP's `null`; `Some(v)` converts as `v` does.
impl<T: IntoZval> IntoZval for Option<T> {
    open spec fn zval_of(self, persistent: bool) -> core::result::Result<Zval, Error> {
        match self {
            None => Ok(Zval::Null),
            Some(v) => v.zval_of(persistent),
        }
    }

    fn into_zval(self, persistent: bool) -> (r: core::result::Result<Zval, Error>) {
        match self {
            None => Ok(Zval::Null),
            Some(v) => v.into_zval(persistent),
        }
    }
}

} // verus!
