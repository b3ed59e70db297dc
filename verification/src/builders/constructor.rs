use vstd::prelude::*;

verus! {

/// What the Rust constructor of an overridden class gave back when PHP
/// called `__construct`.
#[derive(Debug, Clone, Copy, PartialEq, Eq, Structural)]
pub enum ConstructorOutcome {
    /// It built the Rust value that the object is to hold.
    Built,
    /// It failed with an exception.
    Exception,
    /// It rejected its arguments and has already raised the error.
    ArgError,
}

/// What `__construct` does next.
#[derive(Debug, PartialEq)]
pub enum ConstructorAction {
    /// Throw a new exception with this message.
    Throw(String),
    /// Throw the exception that the constructor gave back.
    Rethrow,
    /// Return with nothing more done.
    Return,
    /// Put the value that the constructor built into the object.
    Initialize,
}

/// Decides what the generated `__construct` of a class bound to a Rust type
/// does. `has_constructor`: whether the type has a constructor at all;
/// `outcome`: what that constructor gave back (read only where there is one);
/// `this_found`: whether the object being constructed was found (read only
/// where the constructor built a value).
pub fn constructor_action(has_constructor: bool, outcome: ConstructorOutcome, this_found: bool) -> (a:
    ConstructorAction)
    ensures
        !has_constructor ==> (a matches ConstructorAction::Throw(m) && m@
            == "You cannot instantiate this class from PHP."@),
        has_constructor && outcome == ConstructorOutcome::Exception ==> a
            == ConstructorAction::Rethrow,
        has_constructor && outcome == ConstructorOutcome::ArgError ==> a == ConstructorAction::Return,
        has_constructor && outcome == ConstructorOutcome::Built && !this_found ==> (a matches ConstructorAction::Throw(m)
            && m@ == "Failed to retrieve reference to `this` object."@),
        has_constructor && outcome == ConstructorOutcome::Built && this_found ==> a
            == ConstructorAction::Initialize,
{
    if !has_constructor {
        return ConstructorAction::Throw("You cannot instantiate this class from PHP.".to_owned());
    }
    match outcome {
        ConstructorOutcome::Exception => ConstructorAction::Rethrow,
        ConstructorOutcome::ArgError => ConstructorAction::Return,
        ConstructorOutcome::Built => {
            if this_found {
                ConstructorAction::Initialize
            } else {
                ConstructorAction::Throw("Failed to retrieve reference to `this` object.".to_owned())
            }
        },
    }
}

} // verus!
