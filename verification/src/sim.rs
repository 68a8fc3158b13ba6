//! A verified in-memory bus: a byte-wide register file behind the
//! [`I2cBus`] trait, with a log of every register write.  It lets the
//! driver's whole protocol run and be inspected without hardware.

use vstd::prelude::*;

use crate::bus::{DelayMs, I2cBus};

verus! {

/// Error type of the simulated bus; the simulation never fails, so no value
/// of it is ever produced.
#[derive(Clone, Copy, Debug)]
pub struct SimBusError;

/// In-memory bus: one byte-wide register per address, all starting at zero,
/// and a log of the `(register, value)` pairs of every write frame, in
/// order.  The backing vector grows on demand; an address never written
/// reads as zero.
pub struct SimBus {
    regs: Vec<u8>,
    log: Vec<(u8, u8)>,
    reads: Ghost<Seq<(u8, Seq<u8>)>>,
}

impl SimBus {
    /// Value of register `reg`.
    pub closed spec fn spec_reg(&self, reg: u8) -> u8 {
        if reg < self.regs@.len() {
            self.regs@[reg as int]
        } else {
            0
        }
    }

    /// The `(register, value)` pairs of the write frames seen so far, in
    /// order.
    pub closed spec fn spec_log(&self) -> Seq<(u8, u8)> {
        self.log@
    }

    /// A fresh bus with every register zero and empty logs.
    pub fn new() -> (s: SimBus)
        ensures
            forall|reg: u8| s.spec_reg(reg) == 0,
            s.spec_log() == Seq::<(u8, u8)>::empty(),
            s.spec_frames() == Seq::<(u8, u8)>::empty(),
            s.spec_reads() == Seq::<(u8, Seq<u8>)>::empty(),
    {
        SimBus { regs: Vec::new(), log: Vec::new(), reads: Ghost(Seq::empty()) }
    }

    /// Stores `value` at register index `reg`, growing the file as needed.
    fn store(&mut self, reg: u8, value: u8)
        ensures
            final(self).spec_reg(reg) == value,
            forall|other: u8|
                other != reg ==> final(self).spec_reg(other) == old(self).spec_reg(other),
            final(self).log == old(self).log,
            final(self).reads == old(self).reads,
    {
        while self.regs.len() <= reg as usize
            invariant
                forall|other: u8| old(self).spec_reg(other) == self.spec_reg(other),
                self.log == old(self).log,
                self.reads == old(self).reads,
            decreases reg as int + 1 - self.regs@.len(),
        {
            self.regs.push(0);
        }
        self.regs.set(reg as usize, value);
    }

    /// Presets register `reg` to `value` without logging a write frame, as
    /// if the hardware held that value.
    pub fn set_register(&mut self, reg: u8, value: u8)
        ensures
            final(self).spec_reg(reg) == value,
            forall|other: u8|
                other != reg ==> final(self).spec_reg(other) == old(self).spec_reg(other),
            final(self).spec_log() == old(self).spec_log(),
            final(self).spec_frames() == old(self).spec_frames(),
            final(self).spec_reads() == old(self).spec_reads(),
    {
        self.store(reg, value);
    }

    /// Value of register `reg`.
    pub fn register(&self, reg: u8) -> (r: u8)
        ensures
            r == self.spec_reg(reg),
    {
        if (reg as usize) < self.regs.len() {
            self.regs[reg as usize]
        } else {
            0
        }
    }

    /// Number of write frames seen so far.
    pub fn log_len(&self) -> (r: usize)
        ensures
            r == self.spec_log().len(),
    {
        self.log.len()
    }

    /// The `i`-th write frame, as its `(register, value)` pair.
    pub fn log_at(&self, i: usize) -> (r: (u8, u8))
        requires
            i < self.spec_log().len(),
        ensures
            r == self.spec_log()[i as int],
    {
        self.log[i]
    }
}

impl I2cBus for SimBus {
    type BusError = SimBusError;

    /// The frame model of the simulated bus is its write log.
    open spec fn spec_frames(&self) -> Seq<(u8, u8)> {
        self.spec_log()
    }

    closed spec fn spec_reads(&self) -> Seq<(u8, Seq<u8>)> {
        self.reads@
    }

    fn write(&mut self, addr: u8, bytes: &Vec<u8>) -> (r: Result<(), SimBusError>) {
        if bytes.len() == 2 {
            let reg = bytes[0];
            let value = bytes[1];
            self.store(reg, value);
            self.log.push((reg, value));
        }
        Ok(())
    }

    fn write_read(&mut self, addr: u8, reg: u8, len: usize) -> (r: Result<Vec<u8>, SimBusError>) {
        let mut buf: Vec<u8> = Vec::new();
        let mut i: usize = 0;
        while i < len
            invariant
                buf@.len() == i,
                i <= len,
                self.log == old(self).log,
                self.reads == old(self).reads,
                forall|other: u8| old(self).spec_reg(other) == self.spec_reg(other),
            decreases len - i,
        {
            let value: u8 = if i < 256 && reg as usize + i < self.regs.len() {
                self.regs[reg as usize + i]
            } else {
                0
            };
            buf.push(value);
            i += 1;
        }
        self.reads = Ghost(self.reads@.push((reg, buf@)));
        Ok(buf)
    }
}

/// A bus whose every transaction fails, for exercising the driver's error
/// propagation.  Its logs stay empty forever.
pub struct FailBus;

impl I2cBus for FailBus {
    type BusError = SimBusError;

    open spec fn spec_frames(&self) -> Seq<(u8, u8)> {
        Seq::empty()
    }

    open spec fn spec_reads(&self) -> Seq<(u8, Seq<u8>)> {
        Seq::empty()
    }

    fn write(&mut self, addr: u8, bytes: &Vec<u8>) -> (r: Result<(), SimBusError>) {
        Err(SimBusError)
    }

    fn write_read(&mut self, addr: u8, reg: u8, len: usize) -> (r: Result<Vec<u8>, SimBusError>) {
        Err(SimBusError)
    }
}

/// Delay capability that does not wait: the simulation has no hardware to
/// settle.  It keeps the ghost log of the delays asked for.
pub struct SimDelay {
    delays: Ghost<Seq<u8>>,
}

impl SimDelay {
    /// A fresh delay provider with an empty log.
    pub fn new() -> (s: SimDelay)
        ensures
            s.spec_delays() == Seq::<u8>::empty(),
    {
        SimDelay { delays: Ghost(Seq::empty()) }
    }
}

impl DelayMs for SimDelay {
    closed spec fn spec_delays(&self) -> Seq<u8> {
        self.delays@
    }

    fn delay_ms(&mut self, ms: u8) {
        self.delays = Ghost(self.delays@.push(ms));
    }
}

} // verus!
