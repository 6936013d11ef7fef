use vstd::prelude::*;

verus! {

/// The set of debug modules registered with the plugin, in order of registration.
pub struct CorvidContext<M> {
    modules: Vec<M>,
}

impl<M> CorvidContext<M> {
    /// The registered modules, oldest first.
    pub closed spec fn modules(&self) -> Seq<M> {
        self.modules@
    }

    /// A context with no module.
    pub fn new() -> (r: CorvidContext<M>)
        ensures
            r.modules() == Seq::<M>::empty(),
    {
        CorvidContext { modules: Vec::new() }
    }

    /// Registers `module` after the ones already there.
    pub fn add_module(&mut self, module: M)
        ensures
            final(self).modules() == old(self).modules().push(module),
    {
        self.modules.push(module);
    }

    /// The number of registered modules.
    pub fn module_count(&self) -> (r: usize)
        ensures
            r == self.modules().len(),
    {
        self.modules.len()
    }

    /// The module registered at position `i`.
    pub fn module_at(&self, i: usize) -> (r: &M)
        requires
            i < self.modules().len(),
        ensures
            *r == self.modules()[i as int],
    {
        &self.modules[i]
    }

    /// The module registered at position `i`, for updating.
    pub fn module_at_mut(&mut self, i: usize) -> (r: &mut M)
        requires
            i < old(self).modules().len(),
        ensures
            *r == old(self).modules()[i as int],
            final(self).modules() == old(self).modules().update(i as int, *final(r)),
    {
        &mut self.modules[i]
    }
}

/// The plugin that installs the debug modules into a host application.
pub struct CorvidPlugin {}

impl CorvidPlugin {
    pub fn new() -> (r: CorvidPlugin) {
        CorvidPlugin {}
    }
}

/// The module that tells what the debug tools are.
pub struct About;

impl About {
    /// The module's identifier.
    pub fn id(&self) -> (r: &'static str)
        ensures
            r@ == "corvid.about"@,
    {
        "corvid.about"
    }

    /// A one-line description of the module.
    pub fn description(&self) -> (r: &'static str)
        ensures
            r@ == "About Corvid Debug"@,
    {
        "About Corvid Debug"
    }

    /// The title of the module's panel.
    pub fn title(&self) -> (r: &'static str)
        ensures
            r@ == "About"@,
    {
        "About"
    }
}

} // verus!
