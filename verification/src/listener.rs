//! The unified listener handle's one decision.
//!
//! A listener is exactly one of two variants: one the asynchronous scheduler
//! polls natively, where accepting suspends without occupying a thread, and
//! an emulated one whose only `accept` blocks and must never be polled from
//! asynchronous context.  The handle itself owns platform I/O objects and
//! lives in the unverified shell; what is verified here is the variants and
//! the rule for when the accept bridge must be interposed before serving.

use vstd::prelude::*;

verus! {

/// Which listener variant a platform offers.
#[derive(Clone, Copy, Debug, PartialEq, Eq, Structural)]
pub enum ListenerKind {
    /// Directly pollable by the asynchronous scheduler.
    NativeVariant,
    /// Only a blocking accept; requires the accept bridge before use.
    EmulatedVariant,
}

/// Whether serving over this listener must interpose the accept bridge:
/// exactly the emulated variant.
pub fn bridge_required(kind: &ListenerKind) -> (b: bool)
    ensures
        b == (*kind is EmulatedVariant),
{
    match kind {
        ListenerKind::NativeVariant => false,
        ListenerKind::EmulatedVariant => true,
    }
}

} // verus!
