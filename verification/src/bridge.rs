//! The error bridge: a process-wide single slot that carries at most one
//! fatal realtime error to a registered handler.
//!
//! The backend supports only one globally registered error callback at a
//! time, so the bridge is process-wide state, guarded by a mutex in the
//! foreign layer. It is populated when a stream opens and cleared at stop,
//! close and teardown. On a fatal report from the realtime thread the slot is
//! taken, so the handler fires at most once per registration; warnings are
//! never surfaced on the realtime path.

use vstd::prelude::*;

use crate::error::{
    normalize_msg, spec_error_type_from_raw, spec_normalized_msg, RtAudioError, RtAudioErrorType,
};

verus! {

/// The registration state of the process-wide error-handler slot.
///
/// The handler closure itself lives beside this state in the foreign layer;
/// this is the decision-making part: whether a handler is registered, and
/// when it may fire.
#[derive(Debug, Clone, Copy, PartialEq, Eq, Structural)]
pub struct ErrorBridge {
    /// Whether a handler is registered and has not fired.
    pub armed: bool,
}

/// Whether a decoded error kind is fatal: a real error that is not a warning.
pub open spec fn spec_is_fatal(kind: Option<RtAudioErrorType>) -> bool {
    kind matches Some(t) && t != RtAudioErrorType::Warning
}

/// Whether a raw realtime report with this code fires the handler: the slot
/// is armed and the code decodes to a fatal kind.
pub open spec fn spec_report_fires(b: ErrorBridge, code: i32) -> bool {
    b.armed && spec_is_fatal(spec_error_type_from_raw(code))
}

/// The slot after a raw realtime report: a fatal report takes the handler,
/// whether or not one was registered; anything else leaves the slot alone.
pub open spec fn spec_after_report(b: ErrorBridge, code: i32) -> ErrorBridge {
    ErrorBridge { armed: b.armed && !spec_is_fatal(spec_error_type_from_raw(code)) }
}

impl ErrorBridge {
    /// An empty slot: no handler registered.
    pub fn new() -> (b: ErrorBridge)
        ensures
            !b.armed,
    {
        ErrorBridge { armed: false }
    }

    /// Register a handler for a stream session, replacing any prior one.
    pub fn register(&mut self)
        ensures
            final(self).armed,
    {
        self.armed = true;
    }

    /// Clear the slot at stop, close or teardown.
    pub fn clear(&mut self)
        ensures
            !final(self).armed,
    {
        self.armed = false;
    }
}

/// Decide the realtime thread's reaction to a raw error report.
///
/// Returns the error the registered handler must be invoked with, or `None`
/// when nothing may fire: warnings and unrecognized no-error codes are
/// dropped on the realtime path, and a fatal report fires only if a handler
/// is registered. A fatal report always empties the slot, so a handler fires
/// at most once per registration. An empty message counts as none.
pub fn realtime_error(bridge: &mut ErrorBridge, code: i32, msg: Option<String>) -> (fire: Option<
    RtAudioError>)
    ensures
        fire is Some <==> spec_report_fires(*old(bridge), code),
        fire matches Some(e) ==> spec_error_type_from_raw(code) == Some(e.type_) && e.msg
            == spec_normalized_msg(msg),
        *final(bridge) == spec_after_report(*old(bridge), code),
{
    match RtAudioErrorType::from_raw(code) {
        None => None,
        Some(t) => {
            if t == RtAudioErrorType::Warning {
                None
            } else {
                let was_armed = bridge.armed;
                bridge.clear();
                if was_armed {
                    Some(RtAudioError { type_: t, msg: normalize_msg(msg) })
                } else {
                    None
                }
            }
        },
    }
}

/// Once a fatal report has fired the handler, the slot is empty: a second
/// report — fatal or not — fires nothing until a handler is registered
/// again.
pub proof fn lemma_fires_at_most_once(b: ErrorBridge, first: i32, second: i32)
    requires
        spec_report_fires(b, first),
    ensures
        !spec_report_fires(spec_after_report(b, first), second),
{
}

} // verus!
