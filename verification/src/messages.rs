//! The two closed message enumerations exchanged between the client and the
//! module, the configuration records they carry, the stop-reason taxonomy,
//! and the error taxonomy of the protocol core.

use vstd::prelude::*;

verus! {

/// Campaign-wide configuration the client hands to the module on
/// `Initialize`.
#[derive(Debug, Clone, PartialEq)]
pub struct InputConfig {
    /// Fault codes the detector should classify as crashes when they fire.
    pub faults: Vec<i64>,
    /// Virtual-time budget for one run, in microseconds; when it elapses
    /// without a stop, the run is classified as `TimeOut`.
    pub timeout_micros: u64,
    /// Verbosity of the module-side logger (higher is more verbose).
    pub log_level: u64,
}

/// Memory-layout information the module echoes back to the client on
/// `Initialized`.
#[derive(Debug, Clone, PartialEq, Eq, Structural)]
pub struct OutputConfig {
    /// Guest address of the shared input buffer (zero until the first
    /// harness start marker has been observed).
    pub buffer_address: u64,
    /// Capacity of the shared input buffer in bytes; `run` inputs are
    /// truncated to this size.
    pub buffer_size: u64,
}

/// Code a target executes with a magic marker instruction to signal that the
/// harness entry point was reached.
pub const MAGIC_START_CODE: i64 = 1;

/// Code a target executes with a magic marker instruction to signal that one
/// fuzzing iteration is complete.
pub const MAGIC_STOP_CODE: i64 = 2;

/// A harness-defined marker the target executed.
#[derive(Debug, Clone, Copy, PartialEq, Eq, Structural)]
pub enum Magic {
    /// The harness entry point was reached; carries the raw marker code.
    Start(i64),
    /// One iteration finished; carries the raw marker code and, once the
    /// module has enriched the value, the target's result register.
    Stop(i64, Option<u64>),
}

impl Magic {
    /// Decode the integer parameter of a magic marker instruction; markers
    /// the harness does not define are ignored by the caller.
    pub fn from_code(code: i64) -> (r: Option<Magic>)
        ensures
            code == MAGIC_START_CODE ==> r == Some(Magic::Start(code)),
            code == MAGIC_STOP_CODE ==> r == Some(Magic::Stop(code, None::<u64>)),
            code != MAGIC_START_CODE && code != MAGIC_STOP_CODE ==> r is None,
    {
        if code == MAGIC_START_CODE {
            Some(Magic::Start(code))
        } else if code == MAGIC_STOP_CODE {
            Some(Magic::Stop(code, None))
        } else {
            None
        }
    }
}

/// Why the most recent run of the target concluded; produced only by the
/// module run loop.
#[derive(Debug, Clone, Copy, PartialEq, Eq, Structural)]
pub enum StopReason {
    /// The target executed a harness marker on the given processor.
    Magic(Magic, i32),
    /// The target terminated normally on the given processor.
    SimulationExit(i32),
    /// A registered fault code fired on the given processor.
    Crash(i64, i32),
    /// The configured time budget elapsed without any other stop.
    TimeOut,
    /// An unrecoverable internal condition on the given processor; ends the
    /// session rather than the iteration.
    Error(i64, i32),
}

/// Messages sent from the client to the module.
#[derive(Debug, Clone, PartialEq)]
pub enum ClientMessage {
    /// Configure the module for the whole campaign.
    Initialize(InputConfig),
    /// Run one test case.
    Run(Vec<u8>),
    /// Rewind the target to the pristine starting snapshot.
    Reset,
    /// Terminate the session.
    Exit,
}

/// Messages sent from the module to the client.
#[derive(Debug, Clone, PartialEq)]
pub enum ModuleMessage {
    /// Initialization finished; carries the layout the client needs.
    Initialized(OutputConfig),
    /// Rewind completed, the target is primed to receive input.
    Ready,
    /// The most recent run has concluded, and why.
    Stopped(StopReason),
}

/// Failures of the protocol core. All of them are fatal to the session:
/// nothing in this core retries.
#[derive(Debug, Clone, Copy, PartialEq, Eq, Structural)]
pub enum ProtocolError {
    /// A message was sent or received that the state machine does not permit
    /// from the current state; carries the state and the offending event.
    ProtocolViolation(crate::state::ProtocolState, crate::state::Event),
    /// A structurally valid message of the wrong variant arrived for the
    /// pending call.
    UnexpectedReply,
    /// The channel to the other side is disconnected.
    TransportFailure,
    /// The simulation stopped with no resolvable reason; an internal
    /// invariant violation.
    MissingStopReason,
    /// A processor id that was never registered was named.
    UnknownProcessor(i32),
}

} // verus!
