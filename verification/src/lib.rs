//! Task-orchestration core of a network-addressable two-axis actuator rig.
//!
//! A remote client connects over a byte stream; any inbound data triggers a
//! fixed actuator routine and is echoed back, while a local status display
//! reflects network and connection state.  Independently scheduled tasks share
//! nothing but single-slot, latest-value-wins mailboxes.  This crate holds the
//! verified decision logic of each task: the mailbox semantics, the join-retry
//! state machine, the session server's per-read dispatch and full-write echo,
//! the clamped axis state machine, the status-text table, and the indicator
//! fade wave.  The hardware collaborators (radio, sockets, display panel,
//! pulse-width drivers, timers) live outside and are driven by an unverified
//! shell that calls into these functions.

pub mod connect;
pub mod display;
pub mod fade;
pub mod mailbox;
pub mod servo_pio;
pub mod session;
