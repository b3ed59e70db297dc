use vstd::prelude::*;

verus! {

/// What the attribute macros record while a crate is expanded: the names of
/// the functions, classes and constants they have seen, the startup function
/// if one was named, and whether the module has been built. Classes are kept
/// by name, and a name stands for one class only.
pub struct State {
    pub functions: Vec<String>,
    pub classes: Vec<String>,
    pub constants: Vec<String>,
    pub startup_function: Option<String>,
    pub built_module: bool,
}

impl State {
    /// No class name occurs twice.
    pub open spec fn wf(&self) -> bool {
        forall|i: int, j: int|
            0 <= i < j < self.classes@.len() ==> #[trigger] self.classes@[i]@ != #[trigger] self.classes@[j]@
    }
}

impl Default for State {
    /// Nothing recorded yet.
    fn default() -> (s: State)
        ensures
            s.functions@.len() == 0,
            s.classes@.len() == 0,
            s.constants@.len() == 0,
            s.startup_function is None,
            !s.built_module,
            s.wf(),
    {
        State {
            functions: Vec::new(),
            classes: Vec::new(),
            constants: Vec::new(),
            startup_function: None,
            built_module: false,
        }
    }
}

} // verus!
