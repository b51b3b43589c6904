//! The flags that `--transform` and `--transparent` set.
//!
//! `active` opts pi into the responses-to-chat router branch (instead of the direct-to-upstream
//! default). `transparent` is the non-pi face of `--transparent`: a force-direct override. Both are
//! off in a fresh process; the process keeps one value of the type.

use vstd::prelude::*;

verus! {

/// The two flags of a process.
#[derive(Clone, Copy, Debug, PartialEq, Eq, Structural)]
pub struct TransformMode {
    pub active: bool,
    pub transparent: bool,
}

/// `mode` with `active` set.
pub open spec fn with_active(mode: TransformMode, active: bool) -> TransformMode {
    TransformMode { active, transparent: mode.transparent }
}

/// `mode` with `transparent` set.
pub open spec fn with_transparent(mode: TransformMode, transparent: bool) -> TransformMode {
    TransformMode { active: mode.active, transparent }
}

/// Reading a flag gives what was last written to it, and writing one flag leaves the other.
pub proof fn law_flags_read_back_and_are_independent(mode: TransformMode, a: bool, t: bool)
    ensures
        with_active(mode, a).active == a,
        with_active(mode, a).transparent == mode.transparent,
        with_transparent(mode, t).transparent == t,
        with_transparent(mode, t).active == mode.active,
        with_active(with_transparent(mode, t), a) == with_transparent(with_active(mode, a), t),
{
}

/// Only the last write of a flag counts.
pub proof fn law_last_write_wins(mode: TransformMode, first: bool, last: bool)
    ensures
        with_active(with_active(mode, first), last) == with_active(mode, last),
        with_transparent(with_transparent(mode, first), last) == with_transparent(mode, last),
{
}

impl TransformMode {
    /// The flags of a fresh process: both off.
    pub fn new() -> (r: Self)
        ensures
            !r.active,
            !r.transparent,
    {
        TransformMode { active: false, transparent: false }
    }
}

/// Turns the router branch on or off.
pub fn set_active(mode: &mut TransformMode, active: bool)
    ensures
        *final(mode) == with_active(*old(mode), active),
{
    mode.active = active;
}

/// Tells whether the router branch is on.
pub fn is_active(mode: &TransformMode) -> (r: bool)
    ensures
        r == mode.active,
{
    mode.active
}

/// Turns the force-direct override on or off.
pub fn set_transparent(mode: &mut TransformMode, active: bool)
    ensures
        *final(mode) == with_transparent(*old(mode), active),
{
    mode.transparent = active;
}

/// Tells whether the force-direct override is on.
pub fn is_transparent(mode: &TransformMode) -> (r: bool)
    ensures
        r == mode.transparent,
{
    mode.transparent
}

} // verus!
