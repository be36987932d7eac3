use vstd::prelude::*;

verus! {

/// Everything an application carries besides its machine state.
#[derive(Debug)]
pub struct AppData<W> {
    pub window_data: W,
}

/// The application: its current machine state plus the data carried
/// across transitions.
#[derive(Debug)]
pub struct App<S, W> {
    pub state: S,
    pub data: Option<AppData<W>>,
}

impl<S, W> App<S, W> {
    pub fn new(state: S) -> (r: Self)
        ensures
            r.state == state,
            r.data is None,
    {
        Self { state, data: None }
    }
}

/// Couples an application with the polling context and the function that
/// steps it; the embedding runtime drives it to completion.
#[derive(Debug)]
pub struct Harness<F, A, Cx> {
    pub fun: F,
    pub app: A,
    pub cx: Cx,
}

impl<F, A, Cx> Harness<F, A, Cx> {
    pub fn new(app: A, cx: Cx, fun: F) -> (r: Self)
        ensures
            r.app == app,
            r.cx == cx,
            r.fun == fun,
    {
        Self { fun, app, cx }
    }
}

} // verus!
