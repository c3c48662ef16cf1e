//! The door actuator's motor plan.
//!
//! Moving the door energizes exactly one of two directional outputs for a
//! bounded number of seconds and then drives both outputs low.  The plan is
//! a pure description of that timed output sequence; the device-side driver
//! executes it step by step and still drives both outputs low when a
//! hardware write fails, so that no output can stay stuck high.

use vstd::prelude::*;

use crate::command::Direction;

verus! {

/// One step of a motor plan: the level of each directional output, held for
/// `hold_seconds` seconds.
#[derive(Clone, Copy, Debug, PartialEq, Eq, Structural)]
pub struct MotorStep {
    pub up_high: bool,
    pub down_high: bool,
    pub hold_seconds: u8,
}

/// The plan that moves the door: energize the commanded direction for
/// `amount` seconds, then release both outputs.
pub open spec fn spec_move_door_steps(direction: Direction, amount: u8) -> Seq<MotorStep> {
    seq![
        MotorStep {
            up_high: direction == Direction::Up,
            down_high: direction == Direction::Down,
            hold_seconds: amount,
        },
        MotorStep { up_high: false, down_high: false, hold_seconds: 0 },
    ]
}

/// Total seconds during which the plan holds the "up" output high.
pub open spec fn spec_up_seconds(steps: Seq<MotorStep>) -> nat
    decreases steps.len(),
{
    if steps.len() == 0 {
        0
    } else {
        spec_up_seconds(steps.drop_last()) + if steps.last().up_high {
            steps.last().hold_seconds as nat
        } else {
            0
        }
    }
}

/// Total seconds during which the plan holds the "down" output high.
pub open spec fn spec_down_seconds(steps: Seq<MotorStep>) -> nat
    decreases steps.len(),
{
    if steps.len() == 0 {
        0
    } else {
        spec_down_seconds(steps.drop_last()) + if steps.last().down_high {
            steps.last().hold_seconds as nat
        } else {
            0
        }
    }
}

/// The executable plan for one commanded move.
pub fn move_door_steps(direction: Direction, amount: u8) -> (v: Vec<MotorStep>)
    ensures
        v@ == spec_move_door_steps(direction, amount),
{
    let first = MotorStep {
        up_high: match direction {
            Direction::Up => true,
            Direction::Down => false,
        },
        down_high: match direction {
            Direction::Up => false,
            Direction::Down => true,
        },
        hold_seconds: amount,
    };
    let release = MotorStep { up_high: false, down_high: false, hold_seconds: 0 };
    let mut v: Vec<MotorStep> = Vec::new();
    v.push(first);
    v.push(release);
    proof {
        assert(v@ =~= spec_move_door_steps(direction, amount));
    }
    v
}

/// The motor plan is safe and exact: the two outputs are never high at the
/// same time, no step is held longer than the commanded amount, the plan
/// ends with both outputs low, and the commanded direction is energized for
/// exactly `amount` seconds while the other direction is never energized.
pub proof fn lemma_move_door_plan(direction: Direction, amount: u8)
    ensures
        forall|i: int|
            0 <= i < spec_move_door_steps(direction, amount).len() ==> !(
            #[trigger] spec_move_door_steps(direction, amount)[i].up_high
                && spec_move_door_steps(direction, amount)[i].down_high),
        forall|i: int|
            0 <= i < spec_move_door_steps(direction, amount).len()
                ==> #[trigger] spec_move_door_steps(direction, amount)[i].hold_seconds <= amount,
        !spec_move_door_steps(direction, amount).last().up_high,
        !spec_move_door_steps(direction, amount).last().down_high,
        direction == Direction::Up ==> spec_up_seconds(spec_move_door_steps(direction, amount))
            == amount,
        direction == Direction::Down ==> spec_up_seconds(spec_move_door_steps(direction, amount))
            == 0,
        direction == Direction::Up ==> spec_down_seconds(spec_move_door_steps(direction, amount))
            == 0,
        direction == Direction::Down ==> spec_down_seconds(spec_move_door_steps(direction, amount))
            == amount,
{
    let steps = spec_move_door_steps(direction, amount);
    assert(steps.len() == 2);
    assert(steps.drop_last().drop_last() =~= Seq::<MotorStep>::empty());
    assert(spec_up_seconds(Seq::<MotorStep>::empty()) == 0);
    assert(spec_down_seconds(Seq::<MotorStep>::empty()) == 0);
    assert(steps.drop_last().last() == steps[0]);
    assert(spec_up_seconds(steps.drop_last()) == spec_up_seconds(steps.drop_last().drop_last())
        + if steps[0].up_high {
        steps[0].hold_seconds as nat
    } else {
        0
    });
    assert(spec_down_seconds(steps.drop_last()) == spec_down_seconds(
        steps.drop_last().drop_last(),
    ) + if steps[0].down_high {
        steps[0].hold_seconds as nat
    } else {
        0
    });
}

} // verus!
