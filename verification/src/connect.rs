//! Connectivity manager: joining the wireless network with bounded-code,
//! unbounded-retry semantics, then waiting for address assignment.
//!
//! The manager repeatedly attempts to join the configured network.  Every
//! failed attempt carries a reason code in 0 to 15, is reported to the
//! display exactly once, toggles the indicator exactly once as a liveness
//! signal, and is retried unconditionally — there is no retry limit and no
//! backoff, because the device has no fallback connectivity.  After a
//! successful join the manager polls the network stack at a fixed short
//! interval until an address is assigned, then reports the address and turns
//! the indicator off.  The radio and the network stack are collaborators;
//! this module holds the decisions between their answers.

use vstd::prelude::*;
use crate::display;

verus! {

/// Poll interval while waiting for address assignment, in milliseconds.
pub const ADDRESS_POLL_INTERVAL_MS: u64 = 100;

/// Pause after reporting a join outcome to the display, in milliseconds.
pub const REPORT_DELAY_MS: u64 = 100;

/// Outcome of one join attempt as the radio collaborator reports it: success,
/// or a reason code.  Only codes 0 to 15 name defined join-failure reasons;
/// anything else is an internal error and never enters this type's
/// well-formed values.
#[derive(Clone, Copy, Debug, PartialEq, Eq, Structural)]
pub enum JoinResult {
    Success,
    Failure(u8),
}

/// A well-formed join outcome: a failure code lies inside the defined table.
pub open spec fn wf_join_result(result: JoinResult) -> bool {
    match result {
        JoinResult::Success => true,
        JoinResult::Failure(code) => code < 16,
    }
}

/// The connection lifecycle, from power-up to a served client:
/// `Disconnected → Joining → Joined (address pending) → AddressAssigned →
/// Listening → ClientConnected`.  The connectivity manager drives it up to
/// `AddressAssigned`; the session server cycles through the last two stages.
/// No transition is driven from outside the subsystem.
#[derive(Clone, Copy, Debug, PartialEq, Eq, Structural)]
pub enum ConnectionPhase {
    Disconnected,
    Joining,
    Joined,
    AddressAssigned,
    Listening,
    ClientConnected,
}

/// The connectivity manager's own state: its lifecycle phase and the last
/// level it drove the indicator to.
#[derive(Clone, Copy, Debug, PartialEq, Eq, Structural)]
pub struct ConnectState {
    pub phase: ConnectionPhase,
    pub led_on: bool,
}

/// What one join attempt's outcome asks the surrounding task to do: the
/// display event to publish, whether the indicator was toggled, and whether
/// another attempt is needed.
#[derive(Clone, Copy, Debug, PartialEq, Eq, Structural)]
pub struct JoinStep {
    pub display_event: display::Command,
    pub led_toggled: bool,
    pub retry: bool,
}

/// The phase after one join attempt: success leaves the join loop, any
/// failure stays in it.
pub open spec fn phase_after_join(phase: ConnectionPhase, result: JoinResult) -> ConnectionPhase {
    match result {
        JoinResult::Success => ConnectionPhase::Joined,
        JoinResult::Failure(_) => phase,
    }
}

/// The phase after a whole sequence of join attempts, in order.
pub open spec fn phase_after_attempts(phase: ConnectionPhase, results: Seq<JoinResult>)
    -> ConnectionPhase
    decreases results.len(),
{
    if results.len() == 0 {
        phase
    } else {
        phase_after_attempts(phase_after_join(phase, results[0]), results.drop_first())
    }
}

impl ConnectState {
    /// A manager whose radio is not brought up yet.  The indicator is driven
    /// on during bring-up, before any join attempt.
    pub fn new() -> (state: ConnectState)
        ensures
            state.phase is Disconnected,
            state.led_on,
    {
        ConnectState { phase: ConnectionPhase::Disconnected, led_on: true }
    }

    /// The radio is up and configured: the join attempts begin.
    pub fn start_joining(&mut self)
        requires
            old(self).phase is Disconnected,
        ensures
            final(self).phase is Joining,
            final(self).led_on == old(self).led_on,
    {
        self.phase = ConnectionPhase::Joining;
    }

    /// Consume the outcome of one join attempt.
    ///
    /// On success: enter the `Joined` phase and report status code 0; the
    /// indicator is left alone.  On failure with code `c`: stay in the
    /// `Joining` phase (retry unconditionally, without limit), report status
    /// code `c`, and toggle the indicator — exactly one toggle and one
    /// display event per failed attempt.
    pub fn on_join_result(&mut self, result: JoinResult) -> (step: JoinStep)
        requires
            old(self).phase is Joining,
            wf_join_result(result),
        ensures
            final(self).phase == phase_after_join(old(self).phase, result),
            (match result {
                JoinResult::Success => {
                    &&& step.display_event == display::Command::Status(0)
                    &&& !step.led_toggled
                    &&& !step.retry
                    &&& final(self).led_on == old(self).led_on
                },
                JoinResult::Failure(code) => {
                    &&& step.display_event == display::Command::Status(code as usize)
                    &&& step.led_toggled
                    &&& step.retry
                    &&& final(self).led_on == !old(self).led_on
                },
            }),
            display::wf_command(step.display_event),
    {
        match result {
            JoinResult::Success => {
                self.phase = ConnectionPhase::Joined;
                JoinStep {
                    display_event: display::Command::Status(0),
                    led_toggled: false,
                    retry: false,
                }
            },
            JoinResult::Failure(code) => {
                self.led_on = !self.led_on;
                JoinStep {
                    display_event: display::Command::Status(code as usize),
                    led_toggled: true,
                    retry: true,
                }
            },
        }
    }

    /// Consume one poll of the network stack while waiting for address
    /// assignment.  While no address is configured, nothing changes and the
    /// manager polls again after the fixed interval.  Once the address is
    /// there, the manager reports it, turns the indicator off, and the wait
    /// is over.
    pub fn on_address_poll(&mut self, address: Option<display::NetAddress>) -> (event: Option<
        display::Command>)
        requires
            old(self).phase is Joined,
            (match address {
                Some(assigned) => assigned.inv(),
                None => true,
            }),
        ensures
            (match address {
                Some(assigned) => {
                    &&& final(self).phase is AddressAssigned
                    &&& !final(self).led_on
                    &&& event == Some(display::Command::Addr(assigned))
                },
                None => *final(self) == *old(self) && event is None,
            }),
    {
        match address {
            Some(assigned) => {
                self.phase = ConnectionPhase::AddressAssigned;
                self.led_on = false;
                Some(display::Command::Addr(assigned))
            },
            None => None,
        }
    }
}

/// Unbounded-retry law: however long a run of failed join attempts, the
/// manager is still in the `Joining` phase — ready to retry, never given up —
/// and one injected success then moves it to `Joined`.
pub proof fn lemma_join_retry_unbounded(failures: Seq<JoinResult>)
    requires
        forall|i: int| 0 <= i < failures.len() ==> failures[i] is Failure,
    ensures
        phase_after_attempts(ConnectionPhase::Joining, failures) is Joining,
        phase_after_attempts(ConnectionPhase::Joining, failures.push(JoinResult::Success))
            is Joined,
    decreases failures.len(),
{
    if failures.len() == 0 {
        assert(failures.push(JoinResult::Success)[0] == JoinResult::Success);
        assert(failures.push(JoinResult::Success).drop_first() =~= Seq::empty());
        assert(phase_after_attempts(
            ConnectionPhase::Joined,
            failures.push(JoinResult::Success).drop_first(),
        ) is Joined);
    } else {
        assert(failures.push(JoinResult::Success)[0] == failures[0]);
        assert(failures.push(JoinResult::Success).drop_first() =~= failures.drop_first().push(
            JoinResult::Success,
        ));
        assert(forall|i: int|
            0 <= i < failures.drop_first().len() ==> failures.drop_first()[i] == failures[i + 1]);
        lemma_join_retry_unbounded(failures.drop_first());
    }
}

} // verus!
