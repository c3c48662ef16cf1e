//! The command record: the desired door action held by the remote service and
//! mirrored locally for the duration of one tick.

use vstd::prelude::*;

verus! {

/// Which directional motor output a command energizes.
#[derive(Clone, Copy, Debug, PartialEq, Eq, Structural)]
pub enum Direction {
    Up,
    Down,
}

/// One remote command record.
///
/// `executed` is true once the action has been physically performed and
/// acknowledged; `amount` bounds the actuation time in seconds; the two
/// `override_*` fields are carried through unchanged and never interpreted
/// here.
#[derive(Clone, Copy, Debug, PartialEq, Eq, Structural)]
pub struct DoorCommand {
    pub executed: bool,
    pub direction: Direction,
    pub amount: u8,
    pub override_flag: bool,
    pub override_day: u16,
}

impl DoorCommand {
    /// True when the record still asks for a physical action.
    pub fn requires_action(&self) -> (r: bool)
        ensures
            r == !self.executed,
    {
        !self.executed
    }

    /// Marks the action as performed: only `executed` changes, every other
    /// field is kept as fetched.
    pub fn mark_executed(&mut self)
        ensures
            final (self).executed,
            final (self).direction == old(self).direction,
            final (self).amount == old(self).amount,
            final (self).override_flag == old(self).override_flag,
            final (self).override_day == old(self).override_day,
    {
        self.executed = true;
    }
}

} // verus!
