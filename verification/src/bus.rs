//! Capabilities the driver needs from its environment: a 2-wire addressed
//! bus and a blocking delay.  The embedding application implements these for
//! its concrete transport (e.g. an `embedded-hal` I2C peripheral);
//! [`crate::sim::SimBus`] and [`crate::sim::SimDelay`] are verified
//! in-memory implementations for testing without hardware.
//!
//! Each trait carries a ghost model of the transactions completed so far:
//! the frame log of register writes, the read log of combined
//! write-then-read transactions, and the delay log.  The driver's contracts
//! are stated over these logs, so what a device method sends over the bus,
//! and how its result decodes the bytes the bus returned, is part of its
//! specification.  An implementation must maintain the logs as the
//! contracts state; the verified in-memory buses prove it.

use vstd::prelude::*;

verus! {

/// Bus transport capability: a plain multi-byte write and a combined
/// "write register address, then read N bytes" transaction.
///
/// The combined transaction must be a single bus transaction from the
/// transport's point of view: address and register go out, then the
/// requested bytes are clocked in, with no intervening bus release.
pub trait I2cBus {
    /// Error the transport reports; the driver carries it verbatim and never
    /// inspects it.
    type BusError;

    /// Model: the `(register, value)` pairs of the 2-byte data frames
    /// successfully written so far, in order.  Left unspecified by default;
    /// a verified implementation overrides it with its own log.
    open spec fn spec_frames(&self) -> Seq<(u8, u8)> {
        vstd::pervasive::arbitrary()
    }

    /// Model: the combined write-then-read transactions completed so far,
    /// each as the register address written and the bytes returned, in
    /// order.  Left unspecified by default; a verified implementation
    /// overrides it with its own log.
    open spec fn spec_reads(&self) -> Seq<(u8, Seq<u8>)> {
        vstd::pervasive::arbitrary()
    }

    /// Writes `bytes` to the device at bus address `addr` as one
    /// transaction.  A successful 2-byte frame is appended to the frame
    /// log; a failed write appends nothing.
    fn write(&mut self, addr: u8, bytes: &Vec<u8>) -> (r: Result<(), Self::BusError>)
        ensures
            final(self).spec_reads() == old(self).spec_reads(),
            r is Ok && bytes@.len() == 2 ==> final(self).spec_frames() == old(
                self,
            ).spec_frames().push((bytes@[0], bytes@[1])),
            !(r is Ok && bytes@.len() == 2) ==> final(self).spec_frames() == old(
                self,
            ).spec_frames(),
    ;

    /// One combined transaction: writes the register address `reg` to the
    /// device at bus address `addr`, then reads `len` consecutive bytes.
    /// On success the returned buffer holds exactly `len` bytes and the
    /// transaction is appended to the read log; nothing is promised of the
    /// bytes' values, since the sensor's registers change on their own.
    fn write_read(&mut self, addr: u8, reg: u8, len: usize) -> (r: Result<
        Vec<u8>,
        Self::BusError,
    >)
        ensures
            final(self).spec_frames() == old(self).spec_frames(),
            r matches Ok(buf) ==> buf@.len() == len && final(self).spec_reads() == old(
                self,
            ).spec_reads().push((reg, buf@)),
            r is Err ==> final(self).spec_reads() == old(self).spec_reads(),
    ;
}

/// Blocking delay capability, used for the fixed settling wait during wake
/// and reset.  The wait is not cancellable.
pub trait DelayMs {
    /// Model: the milliseconds of each completed delay call, in order.
    /// Left unspecified by default; a verified implementation overrides it
    /// with its own log.
    open spec fn spec_delays(&self) -> Seq<u8> {
        vstd::pervasive::arbitrary()
    }

    /// Blocks the caller for `ms` milliseconds.
    fn delay_ms(&mut self, ms: u8)
        ensures
            final(self).spec_delays() == old(self).spec_delays().push(ms),
    ;
}

} // verus!
