//! Countdown logic for the transient notification ("toast") shown by the
//! presentation layer.
//!
//! The presentation layer ticks this state once per garbage-collection
//! interval; a non-sticky toast is dismissed once its accumulated display
//! time would exceed [`TOAST_DURATION_MILLIS`].
use vstd::prelude::*;

verus! {

/// How long a non-sticky toast stays on screen, in milliseconds.
pub const TOAST_DURATION_MILLIS: i32 = 5000;

/// Interval between two ticks of the toast countdown, in milliseconds.
pub const TOAST_GC_DELAY: i32 = 100;

/// Which dialog the presentation layer currently shows.
#[derive(Clone, Copy, Debug, PartialEq, Eq, Structural)]
pub enum DialogType {
    /// No dialog is visible.
    Hidden,
    /// A toast notification is visible.
    Toast,
}

/// The dialog state the toast countdown acts on.
#[derive(Clone, Copy, Debug, PartialEq, Eq, Structural)]
pub struct ToastState {
    /// The dialog currently shown.
    pub dialog: DialogType,
    /// A sticky toast is never dismissed by the countdown.
    pub sticky_toast: bool,
    /// Milliseconds the current toast has been on screen.
    pub dialog_millis_count: i32,
}

impl ToastState {
    /// The countdown only ever holds a non-negative count no greater than
    /// the toast duration.
    pub open spec fn wf(self) -> bool {
        0 <= self.dialog_millis_count <= TOAST_DURATION_MILLIS
    }
}

/// One tick of the toast countdown: a visible, non-sticky toast accumulates
/// display time and is dismissed (count reset, dialog hidden) once the next
/// accumulated count would exceed the toast duration.
pub fn toast_timer_loop_check(state: &mut ToastState)
    requires
        old(state).wf(),
    ensures
        final(state).wf(),
        final(state).sticky_toast == old(state).sticky_toast,
        old(state).dialog != DialogType::Toast || old(state).sticky_toast ==> *final(state)
            == *old(state),
        old(state).dialog == DialogType::Toast && !old(state).sticky_toast ==> {
            if old(state).dialog_millis_count + TOAST_GC_DELAY > TOAST_DURATION_MILLIS {
                final(state).dialog == DialogType::Hidden && final(state).dialog_millis_count == 0
            } else {
                final(state).dialog == DialogType::Toast && final(state).dialog_millis_count
                    == old(state).dialog_millis_count + TOAST_GC_DELAY
            }
        },
{
    if state.dialog == DialogType::Toast {
        if !state.sticky_toast {
            let current_count = state.dialog_millis_count;
            let future_count = current_count + TOAST_GC_DELAY;
            if future_count > TOAST_DURATION_MILLIS {
                state.dialog_millis_count = 0;
                state.dialog = DialogType::Hidden;
            } else {
                state.dialog_millis_count = future_count;
            }
        }
    }
}

} // verus!
