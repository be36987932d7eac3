use vstd::prelude::*;

verus! {

/// The asset search paths the loaders are initialized with.
#[derive(Debug)]
pub struct SearchPaths {
    pub paths: Vec<String>,
}

/// Where the initial machine state stands: not started, loaders being
/// polled, or both loaders resolved.
#[derive(Debug)]
pub enum NewState<F, N, E, C, FFut, NFut> {
    Idle { _cache: Option<C> },
    Polling { file_fut: Option<FFut>, network_fut: Option<NFut>, file: Option<F>, net: Option<N> },
    Done { loader: Result<(F, N, C), E> },
}

/// The initial machine state: drives the file-system and network loaders
/// to readiness. The asynchronous polling itself runs outside this crate;
/// this is the data it steps.
#[derive(Debug)]
pub struct New<F, N, E, C, FFut, NFut> {
    pub state: NewState<F, N, E, C, FFut, NFut>,
}

impl<F, N, E, C, FFut, NFut> New<F, N, E, C, FFut, NFut> {
    pub fn new() -> (r: Self)
        ensures
            r.state is Idle,
    {
        Self { state: NewState::Idle { _cache: None } }
    }
}

} // verus!
