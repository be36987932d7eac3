use vstd::prelude::*;

verus! {

/// The kinds of failure the protocol layer can report.
///
/// Every fallible operation returns one of these; violations of static
/// invariants (schema bugs) are excluded by preconditions instead.
#[derive(Clone, Copy, Debug)]
pub enum ErrorKind {
    /// Loading the graphics bindings failed.
    LoadingFailure,
    /// The transport is unavailable on this system.
    NoWayland,
    /// A native allocation failed; carries the allocation site.
    AllocError(&'static str),
    /// Flushing buffered requests to the wire failed.
    FlushError,
    /// Preparing, reading or dispatching events failed.
    DispatchError,
    /// The operation would block.
    WouldBlock,
    /// The object is dead or unknown.
    InvalidId,
    /// A schema or version mismatch.
    InvalidInterface,
    /// A malformed argument shape on encode or decode.
    SubmitError,
    /// An unspecified error.
    Other,
}

impl ErrorKind {
    pub fn into_error(self) -> (r: Error)
        ensures
            r.kind == self,
            r.payload is None,
    {
        Error::new(self)
    }
}

/// A typed error: a kind plus an optional textual payload.
#[derive(Clone, Debug)]
pub struct Error {
    pub kind: ErrorKind,
    pub payload: Option<String>,
}

impl Error {
    pub fn new(kind: ErrorKind) -> (r: Self)
        ensures
            r.kind == kind,
            r.payload is None,
    {
        Self { kind, payload: None }
    }

    /// Like `new`; kept as a separate entry point for call sites that want a
    /// diagnostic capture in debug builds (the capture itself is debug-only
    /// information and carries no contract).
    pub fn with_capture(kind: ErrorKind) -> (r: Self)
        ensures
            r.kind == kind,
            r.payload is None,
    {
        Self { kind, payload: None }
    }

    pub fn with_payload(self, payload: String) -> (r: Self)
        ensures
            r.kind == self.kind,
            r.payload == Some(payload),
    {
        Self { kind: self.kind, payload: Some(payload) }
    }

    pub fn kind(&self) -> (r: ErrorKind)
        ensures
            r == self.kind,
    {
        self.kind
    }
}

} // verus!
