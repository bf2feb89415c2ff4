//! Timer collaborator, modelled at the bus boundary: its four registers
//! (divider, counter, modulo, control) are kept as plain storage and its
//! one-shot interrupt-request line is a byte the scheduler reads and clears.
//! The counting behaviour itself belongs to the external timer unit and is
//! out of scope here.

use vstd::prelude::*;

verus! {

pub struct Timer {
    pub div: u8,
    pub tima: u8,
    pub tma: u8,
    pub tac: u8,
    pub interrupt: u8,
}

impl Timer {
    pub open spec fn spec_rb(self, address: u16) -> u8 {
        if address == 0xFF04 {
            self.div
        } else if address == 0xFF05 {
            self.tima
        } else if address == 0xFF06 {
            self.tma
        } else {
            self.tac
        }
    }

    pub open spec fn spec_wb(self, address: u16, value: u8) -> Timer {
        if address == 0xFF04 {
            Timer { div: value, ..self }
        } else if address == 0xFF05 {
            Timer { tima: value, ..self }
        } else if address == 0xFF06 {
            Timer { tma: value, ..self }
        } else {
            Timer { tac: value, ..self }
        }
    }

    pub fn new() -> (r: Timer)
        ensures
            r == (Timer { div: 0, tima: 0, tma: 0, tac: 0, interrupt: 0 }),
    {
        Timer { div: 0, tima: 0, tma: 0, tac: 0, interrupt: 0 }
    }

    pub fn rb(&self, address: u16) -> (r: u8)
        requires
            0xFF04 <= address <= 0xFF07,
        ensures
            r == self.spec_rb(address),
    {
        if address == 0xFF04 {
            self.div
        } else if address == 0xFF05 {
            self.tima
        } else if address == 0xFF06 {
            self.tma
        } else {
            self.tac
        }
    }

    pub fn wb(&mut self, address: u16, value: u8)
        requires
            0xFF04 <= address <= 0xFF07,
        ensures
            *final(self) == old(self).spec_wb(address, value),
    {
        if address == 0xFF04 {
            self.div = value;
        } else if address == 0xFF05 {
            self.tima = value;
        } else if address == 0xFF06 {
            self.tma = value;
        } else {
            self.tac = value;
        }
    }

    /// Advance by a tick count.  The register file is a boundary model, so
    /// the externally owned counting logic leaves no trace here.
    pub fn do_cycle(&mut self, _ticks: u32)
        ensures
            *final(self) == *old(self),
    {
    }
}

} // verus!
