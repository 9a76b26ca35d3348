//! Core logic of a factory production-test controller for a device reached
//! over a serial console.
//!
//! The crate holds the verified parts of the controller: the sliding-window
//! activity filter, the bounded send/receive queues, the console pattern
//! engine, the boot/login state machine, the test-result record, and the
//! orchestration state. Real I/O (serial port, SSH, operator dialogs,
//! persistence) lives outside and drives these functions with plain values.

pub mod activity;
pub mod boot;
pub mod camera;
pub mod flow;
pub mod ident;
pub mod protocol;
pub mod queue;
pub mod record;
pub mod retry;
pub mod status;
pub mod text;
pub mod transport;
