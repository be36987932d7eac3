use vstd::prelude::*;

verus! {

/// What the initialization plugin gets to fill in: the window parameters.
#[derive(Debug)]
pub struct InitContext {
    pub window_width: u32,
    pub window_height: u32,
    pub window_name: String,
}

/// The machine state that runs the initialization plugin.
#[derive(Debug)]
pub struct Init<I> {
    pub init_plugin: I,
    pub init_context: InitContext,
}

} // verus!
