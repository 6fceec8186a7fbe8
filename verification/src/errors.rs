//! Error taxonomy of the core: every failing operation returns one of
//! these kinds together with a free-text diagnostic detail.

use vstd::prelude::*;

verus! {

/// The overlay-surface operation that failed inside a toggle.
#[derive(Clone, Copy, Debug, PartialEq, Eq, Structural)]
pub enum SurfaceStep {
    ShowStep,
    CenterStep,
    FocusStep,
    HideStep,
}

/// Stable classification of every failure the core can report.
#[derive(Clone, Copy, Debug, PartialEq, Eq, Structural)]
pub enum ErrorKind {
    /// The requested action string is outside the enumerated set.
    UnsupportedAction,
    /// Transport-level failure (connection, DNS, TLS).
    Network,
    /// Upstream answered 401.
    Unauthorized,
    /// Upstream answered 403.
    Forbidden,
    /// Upstream answered 429.
    RateLimited,
    /// Upstream answered another non-2xx status.
    UpstreamError(u16),
    /// A 2xx response whose body is not valid JSON.
    ResponseParse,
    /// A well-formed 2xx response with no usable content.
    EmptyResponse,
    /// A shortcut string that does not parse as an accelerator.
    InvalidShortcutSyntax,
    /// Registering a new global shortcut binding failed.
    RegistrationFailed,
    /// An overlay-surface operation failed at the named step.
    SurfaceOperationFailed(SurfaceStep),
    /// Persisting a setting to the store failed.
    PersistenceFailure,
}

/// A classified error: a stable kind plus a human-readable detail.
#[derive(Debug)]
pub struct ClassifiedError {
    pub kind: ErrorKind,
    pub detail: String,
}

impl ClassifiedError {
    /// Build an error of the given kind carrying `detail` verbatim.
    pub fn new(kind: ErrorKind, detail: String) -> (r: ClassifiedError)
        ensures
            r.kind == kind,
            r.detail@ == detail@,
    {
        ClassifiedError { kind, detail }
    }
}

} // verus!
