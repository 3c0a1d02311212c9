//! The motion controller: holds the current angle and the latest commanded
//! target, latches commands polled from the single-slot channel, and steps
//! the current angle one degree at a time toward the target, yielding the
//! duty value to write at each step.

use vstd::prelude::*;
use crate::duty::ANGLE_MAX;
use crate::duty::ANGLE_MIN;
use crate::duty::DutyRange;
use crate::duty::compute_duty;
use crate::duty::spec_duty;
use crate::channel::poll_command;

verus! {

/// Delay after moving to the starting position, so the servo can settle
/// before the first command is honoured, in milliseconds.
pub const SETTLE_DELAY_MS: u32 = 500;

/// Delay between two consecutive one-degree steps, in milliseconds; this
/// bounds the sweep rate.
pub const STEP_DELAY_MS: u32 = 12;

/// Delay between two polls of the command channel while the controller is
/// idle, in milliseconds.
pub const IDLE_DELAY_MS: u32 = 1000;

/// Delay between two attempts of a producer to place a command into the
/// full single-slot channel, in milliseconds.
pub const SEND_RETRY_DELAY_MS: u32 = 100;

/// The motion controller's state: where the servo is, where it was last
/// told to go, and the duty limits it maps angles into.
#[derive(Clone, Copy)]
pub struct Controller {
    pub current_angle: u32,
    pub target: u32,
    pub range: DutyRange,
}

/// The duty value for `angle` under this controller's fixed angle domain.
pub open spec fn spec_duty_for(range: DutyRange, angle: int) -> int {
    spec_duty(angle, ANGLE_MIN as int, ANGLE_MAX as int, range.min_limit as int, range.max_limit as int)
}

/// How a polled command changes the controller: an in-range angle becomes
/// the new target (last write wins), anything else is rejected and the old
/// target kept.
pub open spec fn spec_latch(c: Controller, cmd: Option<u32>) -> Controller {
    match cmd {
        Some(angle) => if angle <= ANGLE_MAX {
            Controller { current_angle: c.current_angle, target: angle, range: c.range }
        } else {
            c
        },
        None => c,
    }
}

/// The current angle after one step: one degree toward the target, or
/// unchanged once the target is reached.
pub open spec fn spec_step_angle(c: Controller) -> u32 {
    if c.current_angle < c.target {
        (c.current_angle + 1) as u32
    } else if c.current_angle > c.target {
        (c.current_angle - 1) as u32
    } else {
        c.current_angle
    }
}

/// The duty value one step writes: the mapped duty of the stepped angle, or
/// nothing once the target is reached.
pub open spec fn spec_step_duty(c: Controller) -> Option<u32> {
    if c.current_angle == c.target {
        None
    } else {
        Some(spec_duty_for(c.range, spec_step_angle(c) as int) as u32)
    }
}

/// How many one-degree steps a full sweep from the current angle to the
/// target takes.
pub open spec fn spec_sweep_len(c: Controller) -> int {
    if c.target >= c.current_angle {
        c.target - c.current_angle
    } else {
        c.current_angle - c.target
    }
}

/// The angle the sweep passes through on its `i`-th step.
pub open spec fn spec_sweep_angle(c: Controller, i: int) -> int {
    if c.target >= c.current_angle {
        c.current_angle + 1 + i
    } else {
        c.current_angle - 1 - i
    }
}

impl Controller {
    /// Both angles within the servo's domain, and a usable duty range.
    pub open spec fn wf(self) -> bool {
        &&& self.current_angle <= ANGLE_MAX
        &&& self.target <= ANGLE_MAX
        &&& self.range.wf()
    }

    /// A controller at the starting position with no pending motion.
    pub fn new(range: DutyRange) -> (c: Controller)
        requires
            range.wf(),
        ensures
            c.wf(),
            c.current_angle == ANGLE_MIN,
            c.target == ANGLE_MIN,
            c.range == range,
    {
        Controller { current_angle: ANGLE_MIN, target: ANGLE_MIN, range }
    }

    /// The duty value for the angle the servo currently stands at; written
    /// once at startup to move the servo to its starting position.
    pub fn current_duty(&self) -> (duty: u32)
        requires
            self.wf(),
        ensures
            duty == spec_duty_for(self.range, self.current_angle as int),
            self.range.min_limit <= duty <= self.range.max_limit,
    {
        compute_duty(self.current_angle, ANGLE_MIN, ANGLE_MAX, self.range.min_limit, self.range.max_limit)
    }

    /// Latches a polled command: an angle within the servo's domain becomes
    /// the new target, a command outside it is rejected, and no command
    /// leaves the controller unchanged.
    pub fn latch(&mut self, cmd: Option<u32>)
        ensures
            *final(self) == spec_latch(*old(self), cmd),
            final(self).current_angle == old(self).current_angle,
            final(self).range == old(self).range,
            old(self).wf() ==> final(self).wf(),
    {
        match cmd {
            Some(angle) => {
                if angle <= ANGLE_MAX {
                    self.target = angle;
                }
            }
            None => {}
        }
    }

    /// Polls the command channel without blocking and latches whatever was
    /// buffered: afterwards the controller is the result of latching some
    /// command, whatever the producer did meanwhile.
    pub fn poll_and_latch(&mut self, rx: &crossbeam_channel::Receiver<u32>)
        requires
            old(self).wf(),
        ensures
            final(self).wf(),
            final(self).current_angle == old(self).current_angle,
            final(self).range == old(self).range,
            exists|cmd: Option<u32>| *final(self) == spec_latch(*old(self), cmd),
    {
        let cmd = poll_command(rx);
        self.latch(cmd);
    }

    /// Moves one degree toward the target and returns the duty value to
    /// write, or returns nothing once the target is reached.
    pub fn step(&mut self) -> (duty: Option<u32>)
        requires
            old(self).wf(),
        ensures
            final(self).wf(),
            final(self).target == old(self).target,
            final(self).range == old(self).range,
            final(self).current_angle == spec_step_angle(*old(self)),
            duty == spec_step_duty(*old(self)),
    {
        if self.current_angle == self.target {
            return None;
        }
        if self.current_angle < self.target {
            self.current_angle = self.current_angle + 1;
        } else {
            self.current_angle = self.current_angle - 1;
        }
        let d = compute_duty(self.current_angle, ANGLE_MIN, ANGLE_MAX, self.range.min_limit, self.range.max_limit);
        Some(d)
    }

    /// Sweeps all the way to the target, one degree at a time, and returns
    /// the duty values written along the way, in the order they were
    /// written: one per degree between the old angle and the target.
    pub fn sweep_duties(&mut self) -> (duties: Vec<u32>)
        requires
            old(self).wf(),
        ensures
            final(self).wf(),
            final(self).current_angle == old(self).target,
            final(self).target == old(self).target,
            final(self).range == old(self).range,
            duties@.len() == spec_sweep_len(*old(self)),
            forall|i: int| 0 <= i < duties@.len() ==>
                duties@[i] == spec_duty_for(old(self).range, spec_sweep_angle(*old(self), i)) as u32,
    {
        let ghost start = *self;
        let mut duties: Vec<u32> = Vec::new();
        while self.current_angle != self.target
            invariant
                self.wf(),
                start.wf(),
                self.target == start.target,
                self.range == start.range,
                start.current_angle <= start.target ==>
                    start.current_angle <= self.current_angle <= start.target
                    && duties@.len() == self.current_angle - start.current_angle,
                start.current_angle > start.target ==>
                    start.target <= self.current_angle <= start.current_angle
                    && duties@.len() == start.current_angle - self.current_angle,
                forall|i: int| 0 <= i < duties@.len() ==>
                    duties@[i] == spec_duty_for(start.range, spec_sweep_angle(start, i)) as u32,
            decreases
                (if self.current_angle >= self.target {
                    self.current_angle - self.target
                } else {
                    self.target - self.current_angle
                }),
        {
            let d = self.step();
            match d {
                Some(v) => duties.push(v),
                None => {}
            }
        }
        duties
    }
}

/// Idempotence at idle: latching the same in-range target twice is no
/// different from latching it once, and once the current angle stands at
/// that target a further step moves nothing and writes no duty value.
pub proof fn lemma_idle_idempotent(c: Controller, t: u32)
    requires
        t <= ANGLE_MAX,
    ensures
        spec_latch(spec_latch(c, Some(t)), Some(t)) == spec_latch(c, Some(t)),
        c.current_angle == t ==> spec_step_duty(spec_latch(c, Some(t))) is None,
        c.current_angle == t ==> spec_step_angle(spec_latch(c, Some(t))) == c.current_angle,
{
}

} // verus!
