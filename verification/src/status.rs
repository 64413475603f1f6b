//! The error taxonomy and per-command results.
//!
//! Parameter errors are reported and never retried; resource exhaustion is
//! reported as busy and may be retried; deadline expiry is a timeout; a
//! non-zero completion status is a device error whose status field is kept
//! verbatim in the diagnostic; controller failure, a corrupted completion or
//! exhausted retries are fatal.

use vstd::prelude::*;

verus! {

/// The kind of a per-command or per-call outcome.
#[derive(Clone, Copy, Debug, PartialEq, Eq, Structural)]
pub enum IoStatus {
    /// The command (or composite request) completed successfully.
    Success,
    /// A caller-supplied argument violated a documented precondition.
    Parameter,
    /// The ring is full or command ids are exhausted; the caller may retry.
    Busy,
    /// The deadline elapsed before a terminal completion arrived.
    Timeout,
    /// The device posted a non-zero status; the status field is in the
    /// diagnostic.
    DeviceError,
    /// Controller failure, a poisoned queue, or a corrupted completion.
    Fatal,
}

/// The result of an I/O call: a status kind, the number of LBAs actually
/// serviced, and an opaque diagnostic code on error.
#[derive(Clone, Copy, Debug, PartialEq, Eq, Structural)]
pub struct IoResult {
    pub kind: IoStatus,
    pub lbas_done: u64,
    pub diagnostic: u32,
}

impl IoResult {
    /// A fully successful result over `lbas` blocks.
    pub fn ok(lbas: u64) -> (r: IoResult)
        ensures
            r.kind == IoStatus::Success,
            r.lbas_done == lbas,
            r.diagnostic == 0,
    {
        IoResult { kind: IoStatus::Success, lbas_done: lbas, diagnostic: 0 }
    }

    /// A failed result carrying no serviced blocks.
    pub fn fail(kind: IoStatus, diagnostic: u32) -> (r: IoResult)
        ensures
            r.kind == kind,
            r.lbas_done == 0,
            r.diagnostic == diagnostic,
    {
        IoResult { kind, lbas_done: 0, diagnostic }
    }
}

// Status-field values the device model posts (the field sits above the phase
// bit in a completion's status word).
pub const SC_SUCCESS: u16 = 0x00;
pub const SC_INVALID_OPCODE: u16 = 0x01;
pub const SC_INVALID_FIELD: u16 = 0x02;
pub const SC_ABORT_REQUESTED: u16 = 0x07;
pub const SC_INVALID_NAMESPACE: u16 = 0x0b;
pub const SC_LBA_OUT_OF_RANGE: u16 = 0x80;
pub const SC_COMPARE_FAILURE: u16 = 0x85;

/// The do-not-retry bit of a 15-bit status field.
pub open spec fn status_dnr(code: u16) -> bool {
    (code >> 14) & 1 == 1
}

} // verus!
