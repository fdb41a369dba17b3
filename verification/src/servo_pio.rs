//! Actuator controller for the two rotation axes.
//!
//! The controller owns one angle per axis — `body` (pan) and `head` (tilt) —
//! each an integer held in the closed range [0, 180] degrees.  Motion
//! commands carry a signed increment; applying one moves exactly one axis and
//! saturates at the mechanical limits (no wrapping).  The resulting angles
//! are what the pulse-width collaborator is told to drive; mapping an angle
//! onto a pulse width is that collaborator's contract, not this module's.

use vstd::prelude::*;
use crate::mailbox::Mailbox;

verus! {

/// Pulse refresh period of the servo drivers, in microseconds.
pub const REFRESH_INTERVAL: u64 = 20000;

/// Shortest commanded pulse, in microseconds (angle 0).
pub const MIN_PULSE_WIDTH: u64 = 1000;

/// Longest commanded pulse, in microseconds (angle 180).
pub const MAX_PULSE_WIDTH: u64 = 2000;

/// Mechanical limit of either axis, in degrees.
pub const MAX_DEGREE_ROTATION: i16 = 180;

/// Neutral centre angle both axes are initialised to, in degrees.
pub const NEUTRAL_ANGLE: i16 = 90;

/// Settle delay after starting the drivers, in milliseconds.
pub const SETTLE_DELAY_MS: u64 = 1000;

/// One motion command: which axis, which direction, and by how much.
/// `Left`/`Right` move the body (pan) axis, `Up`/`Down` the head (tilt)
/// axis; the increment is in degrees.  Commands exist only as mailbox
/// payloads and are never persisted.
#[derive(Clone, Copy, Debug, PartialEq, Eq, Structural)]
pub enum Command {
    Left(i16),
    Right(i16),
    Up(i16),
    Down(i16),
}

/// Saturate an angle into the mechanical range [0, 180].
pub open spec fn clamp_angle(angle: int) -> int {
    if angle < 0 {
        0
    } else if angle > 180 {
        180
    } else {
        angle
    }
}

/// The pair of axis angles `(body, head)` after one command: the addressed
/// axis moves by the signed increment and is clamped, the other axis is
/// untouched.
pub open spec fn next_angles(body: int, head: int, command: Command) -> (int, int) {
    match command {
        Command::Left(inc) => (clamp_angle(body + inc), head),
        Command::Right(inc) => (clamp_angle(body - inc), head),
        Command::Up(inc) => (body, clamp_angle(head + inc)),
        Command::Down(inc) => (body, clamp_angle(head - inc)),
    }
}

/// The axis angles after a whole sequence of commands, applied in order.
pub open spec fn apply_all(body: int, head: int, commands: Seq<Command>) -> (int, int)
    decreases commands.len(),
{
    if commands.len() == 0 {
        (body, head)
    } else {
        let moved = next_angles(body, head, commands[0]);
        apply_all(moved.0, moved.1, commands.drop_first())
    }
}

/// The angle state of the two axes, owned exclusively by the actuator task.
pub struct AxisState {
    body_degree: i16,
    head_degree: i16,
}

impl AxisState {
    /// Current pan angle, in degrees.
    pub closed spec fn body(&self) -> int {
        self.body_degree as int
    }

    /// Current tilt angle, in degrees.
    pub closed spec fn head(&self) -> int {
        self.head_degree as int
    }

    /// Both axes within the mechanical range.  Established at construction
    /// and preserved by every update.
    pub open spec fn inv(&self) -> bool {
        0 <= self.body() <= 180 && 0 <= self.head() <= 180
    }

    /// Both axes at the neutral centre, ready for the control loop.
    pub fn new() -> (state: AxisState)
        ensures
            state.body() == NEUTRAL_ANGLE as int,
            state.head() == NEUTRAL_ANGLE as int,
            state.inv(),
    {
        AxisState { body_degree: NEUTRAL_ANGLE, head_degree: NEUTRAL_ANGLE }
    }

    /// Apply one motion command: move the addressed axis by the signed
    /// increment, saturating into [0, 180], and report the resulting pair
    /// of angles `(body, head)` to hand to the pulse-width collaborator.
    pub fn apply_command(&mut self, command: Command) -> (angles: (u64, u64))
        requires
            old(self).inv(),
        ensures
            (final(self).body(), final(self).head()) == next_angles(
                old(self).body(),
                old(self).head(),
                command,
            ),
            final(self).inv(),
            angles.0 == final(self).body(),
            angles.1 == final(self).head(),
    {
        let mut body: i32 = self.body_degree as i32;
        let mut head: i32 = self.head_degree as i32;
        match command {
            Command::Left(inc) => {
                body = body + inc as i32;
            },
            Command::Right(inc) => {
                body = body - inc as i32;
            },
            Command::Up(inc) => {
                head = head + inc as i32;
            },
            Command::Down(inc) => {
                head = head - inc as i32;
            },
        }
        if body < 0 {
            body = 0;
        } else if body > 180 {
            body = 180;
        }
        if head < 0 {
            head = 0;
        } else if head > 180 {
            head = 180;
        }
        self.body_degree = body as i16;
        self.head_degree = head as i16;
        (self.body_degree as u64, self.head_degree as u64)
    }
}

/// Publish a motion command towards the actuator task, overwriting any
/// command it has not consumed yet.
pub fn send_command(control: &mut Mailbox<Command>, command: Command)
    ensures
        final(control)@ == Some(command),
{
    control.publish(command);
}

/// Axis clamping law: from any in-range pair of angles, every sequence of
/// motion commands with arbitrary signed increments leaves both axes within
/// [0, 180] — saturated, never wrapped.
pub proof fn lemma_axis_clamping(body: int, head: int, commands: Seq<Command>)
    requires
        0 <= body <= 180,
        0 <= head <= 180,
    ensures
        0 <= apply_all(body, head, commands).0 <= 180,
        0 <= apply_all(body, head, commands).1 <= 180,
    decreases commands.len(),
{
    if commands.len() > 0 {
        let moved = next_angles(body, head, commands[0]);
        lemma_axis_clamping(moved.0, moved.1, commands.drop_first());
    }
}

} // verus!
