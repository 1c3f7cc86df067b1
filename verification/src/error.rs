//! The unified failure domain of a coroutine-backed task.
//!
//! A task can fail in three independent ways: the coroutine runtime
//! itself can fail, the reactor's timer or I/O layer can fail, or the
//! user's own function can fail with its declared error.  [`JokerError`]
//! merges the three into one value that can always be rendered, in a
//! concise debug form, a verbose debug form and a human-readable display
//! form, whichever variant is active.
//!
//! A failure value from a collaborator (the coroutine runtime, the
//! reactor, an application error) may not be safely movable or storable
//! across the boundary into this crate, so the driver renders it once, at
//! the moment it is wrapped, and hands the renderings over as one of the
//! capture types below.  From then on the error is plain text and every
//! operation on it is total.

use vstd::prelude::*;

verus! {

/// A coroutine-runtime failure, rendered at the moment it was caught:
/// its concise debug form, its verbose (alternate) debug form, and its
/// display form.
pub struct CoronaFailure {
    pub debug: String,
    pub debug_alternate: String,
    pub display: String,
}

/// A failure of the reactor's timer or I/O layer, rendered at the moment
/// it was caught.
pub struct TokioFailure {
    pub debug: String,
    pub debug_alternate: String,
    pub display: String,
}

/// An application-level failure, rendered at the moment it was caught.
pub struct AppFailure {
    pub debug: String,
    pub debug_alternate: String,
    pub display: String,
}

/// The unified error of a coroutine-backed task: exactly one of the
/// three failure domains, each carrying the renderings captured when the
/// original failure was wrapped.
pub enum JokerError {
    /// The coroutine runtime itself failed.
    Corona { debug: String, debug_alternate: String, display: String },
    /// The reactor's timer or I/O layer failed.
    Tokio { debug: String, debug_alternate: String, display: String },
    /// The user function, or any other application code, failed.
    Other { debug: String, debug_alternate: String, display: String },
}

impl JokerError {
    /// The human-readable display rendering, the same operation on every
    /// variant: the display text captured when the failure was wrapped.
    pub open spec fn display_view(self) -> Seq<char> {
        match self {
            JokerError::Corona { display, .. } => display@,
            JokerError::Tokio { display, .. } => display@,
            JokerError::Other { display, .. } => display@,
        }
    }

    /// The debug rendering, concise or verbose as the caller chooses.  A
    /// coroutine failure renders as the bare captured text; the other two
    /// domains carry their variant tag around the captured text.
    pub open spec fn debug_view(self, alternate: bool) -> Seq<char> {
        match self {
            JokerError::Corona { debug, debug_alternate, .. } => if alternate {
                debug_alternate@
            } else {
                debug@
            },
            JokerError::Tokio { debug, debug_alternate, .. } => "Tokio("@ + (if alternate {
                debug_alternate@
            } else {
                debug@
            }) + ")"@,
            JokerError::Other { debug, debug_alternate, .. } => "Other("@ + (if alternate {
                debug_alternate@
            } else {
                debug@
            }) + ")"@,
        }
    }

    /// Render the display form.  This never fails, whichever variant is
    /// active.
    pub fn render_display(&self) -> (r: String)
        ensures
            r@ == self.display_view(),
    {
        match self {
            JokerError::Corona { display, .. } => display.clone(),
            JokerError::Tokio { display, .. } => display.clone(),
            JokerError::Other { display, .. } => display.clone(),
        }
    }

    /// Render the debug form, verbose when `alternate` is set.  This
    /// never fails, whichever variant is active.
    pub fn render_debug(&self, alternate: bool) -> (r: String)
        ensures
            r@ == self.debug_view(alternate),
    {
        match self {
            JokerError::Corona { debug, debug_alternate, .. } => if alternate {
                debug_alternate.clone()
            } else {
                debug.clone()
            },
            JokerError::Tokio { debug, debug_alternate, .. } => {
                let inner = if alternate {
                    debug_alternate
                } else {
                    debug
                };
                String::from_str("Tokio(").concat(inner.as_str()).concat(")")
            },
            JokerError::Other { debug, debug_alternate, .. } => {
                let inner = if alternate {
                    debug_alternate
                } else {
                    debug
                };
                String::from_str("Other(").concat(inner.as_str()).concat(")")
            },
        }
    }
}

impl From<CoronaFailure> for JokerError {
    /// Wrap a rendered coroutine-runtime failure.
    fn from(inner: CoronaFailure) -> (r: JokerError) {
        JokerError::Corona {
            debug: inner.debug,
            debug_alternate: inner.debug_alternate,
            display: inner.display,
        }
    }
}

impl vstd::std_specs::convert::FromSpecImpl<CoronaFailure> for JokerError {
    open spec fn obeys_from_spec() -> bool {
        true
    }

    open spec fn from_spec(inner: CoronaFailure) -> JokerError {
        JokerError::Corona {
            debug: inner.debug,
            debug_alternate: inner.debug_alternate,
            display: inner.display,
        }
    }
}

impl From<TokioFailure> for JokerError {
    /// Wrap a rendered reactor timer or I/O failure.
    fn from(inner: TokioFailure) -> (r: JokerError) {
        JokerError::Tokio {
            debug: inner.debug,
            debug_alternate: inner.debug_alternate,
            display: inner.display,
        }
    }
}

impl vstd::std_specs::convert::FromSpecImpl<TokioFailure> for JokerError {
    open spec fn obeys_from_spec() -> bool {
        true
    }

    open spec fn from_spec(inner: TokioFailure) -> JokerError {
        JokerError::Tokio {
            debug: inner.debug,
            debug_alternate: inner.debug_alternate,
            display: inner.display,
        }
    }
}

impl From<AppFailure> for JokerError {
    /// Wrap a rendered application failure.
    fn from(inner: AppFailure) -> (r: JokerError) {
        JokerError::Other {
            debug: inner.debug,
            debug_alternate: inner.debug_alternate,
            display: inner.display,
        }
    }
}

impl vstd::std_specs::convert::FromSpecImpl<AppFailure> for JokerError {
    open spec fn obeys_from_spec() -> bool {
        true
    }

    open spec fn from_spec(inner: AppFailure) -> JokerError {
        JokerError::Other {
            debug: inner.debug,
            debug_alternate: inner.debug_alternate,
            display: inner.display,
        }
    }
}

/// The error of a function family that cannot fail.  Its only variant
/// holds a value of a type with no values at all, so no `Infallible` can
/// ever be constructed, and generic machinery that demands an error type
/// can be told "infallible" without a special case.
#[derive(Copy, Clone, Eq, PartialEq, Hash, Ord, PartialOrd, Debug)]
pub enum Infallible {
    Never(core::convert::Infallible),
}

impl Infallible {
    /// The display rendering.  No value of this type exists, so the text
    /// below is never actually produced.
    pub fn render_display(&self) -> (r: String)
        ensures
            r@ == Seq::<char>::empty(),
    {
        match self {
            Infallible::Never(_) => String::new(),
        }
    }
}

impl From<Infallible> for JokerError {
    /// The conversion owed to the generic machinery: since no value of
    /// `Infallible` exists, this function can never actually run, and the
    /// placeholder it would return is never observed.
    fn from(never: Infallible) -> (r: JokerError) {
        match never {
            Infallible::Never(_) => JokerError::Other {
                debug: String::new(),
                debug_alternate: String::new(),
                display: String::new(),
            },
        }
    }
}

impl vstd::std_specs::convert::FromSpecImpl<Infallible> for JokerError {
    /// There is no canonical converted value, and no call of `from` can
    /// ever happen, so the conversion promises nothing.
    open spec fn obeys_from_spec() -> bool {
        false
    }

    open spec fn from_spec(never: Infallible) -> JokerError {
        arbitrary()
    }
}

} // verus!
