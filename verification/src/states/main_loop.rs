use vstd::prelude::*;

verus! {

/// The machine state that runs the main loop: the loop plugin, the
/// application state, the event queue, and the renderer once one exists.
#[derive(Debug)]
pub struct MainLoop<M, S, Eq, R> {
    pub main_loop: Option<M>,
    pub state: Option<S>,
    pub event_queue: Option<Eq>,
    pub renderer: Option<R>,
}

impl<M, S, Eq, R> MainLoop<M, S, Eq, R> {
    pub fn new(main_loop: M, state: S, event_queue: Eq) -> (r: Self)
        ensures
            r.main_loop == Some(main_loop),
            r.state == Some(state),
            r.event_queue == Some(event_queue),
            r.renderer is None,
    {
        Self {
            main_loop: Some(main_loop),
            state: Some(state),
            event_queue: Some(event_queue),
            renderer: None,
        }
    }
}

/// What can go wrong while the main loop runs.
#[derive(Debug)]
pub enum Error<ME, RE, EE> {
    MainLoopError(ME),
    RenderError(RE),
    EventQueueError(EE),
}

/// What the loop plugin itself can report.
#[derive(Debug)]
pub enum MainError<ME, EE> {
    LoopUserError(ME),
    EventLoopError(EE),
}

} // verus!
