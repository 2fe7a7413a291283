//! The server builder: modules are registered one by one and initialized
//! in registration order.

use vstd::prelude::*;

verus! {

/// General setup options for the server. Most modules bring their own.
#[derive(Debug, Default)]
pub struct GalvynSetup {
    /// Disables the built-in session layer, for servers that bring their
    /// own.
    pub disable_sessions: bool,
}

/// Collects the modules to initialize, in order.
pub struct ModuleBuilder {
    /// The registered modules, by their registry key, in registration
    /// order.
    pub modules: Vec<u64>,
    /// The setup the server will start with.
    pub setup: GalvynSetup,
}

impl ModuleBuilder {
    /// A builder with no module registered yet.
    pub fn new(setup: GalvynSetup) -> (builder: ModuleBuilder)
        ensures
            builder.modules@.len() == 0,
            builder.setup == setup,
    {
        ModuleBuilder { modules: Vec::new(), setup: setup }
    }

    /// Registers a module under its registry key. Modules are initialized
    /// in the order they were registered in.
    pub fn register_module(&mut self, module: u64) -> (builder: &mut ModuleBuilder)
        ensures
            builder.modules@ == old(self).modules@.push(module),
            builder.setup == old(self).setup,
            *final(self) == *final(builder),
    {
        self.modules.push(module);
        self
    }
}

/// Requires its argument to implement `Send`. Useful for generated code
/// to produce a cleaner error message than the compiler's own.
pub fn send<T: Send>(_t: T) {
}

} // verus!
