//! Audio collaborator, modelled at the bus boundary: the sound register
//! block is plain storage.  Synthesis and output are out of scope; the bus
//! only needs the block to be present (absent means open-bus reads and
//! dropped writes, which the bus itself provides).

use vstd::prelude::*;

verus! {

pub struct Sound {
    pub regs: Vec<u8>,
    pub on: bool,
}

#[verifier::ext_equal]
pub struct SoundView {
    pub regs: Seq<u8>,
    pub on: bool,
}

impl View for Sound {
    type V = SoundView;

    open spec fn view(&self) -> SoundView {
        SoundView { regs: self.regs@, on: self.on }
    }
}

impl SoundView {
    pub open spec fn wf(self) -> bool {
        self.regs.len() == 0x30
    }

    pub open spec fn spec_rb(self, address: u16) -> u8 {
        self.regs[address - 0xFF10]
    }

    pub open spec fn spec_wb(self, address: u16, value: u8) -> SoundView {
        SoundView { regs: self.regs.update(address - 0xFF10, value), ..self }
    }
}

impl Sound {
    pub fn new_dmg() -> (r: Sound)
        ensures
            r@.wf(),
            !r.on,
            forall|i: int| 0 <= i < 0x30 ==> r@.regs[i] == 0,
    {
        Sound { regs: crate::zero_vec(0x30), on: false }
    }

    pub fn new_cgb() -> (r: Sound)
        ensures
            r@.wf(),
            !r.on,
            forall|i: int| 0 <= i < 0x30 ==> r@.regs[i] == 0,
    {
        Sound { regs: crate::zero_vec(0x30), on: false }
    }

    pub fn set_on(&mut self)
        ensures
            final(self)@.regs == old(self)@.regs,
            final(self).on,
    {
        self.on = true;
    }

    pub fn rb(&self, address: u16) -> (r: u8)
        requires
            self@.wf(),
            0xFF10 <= address <= 0xFF3F,
        ensures
            r == self@.spec_rb(address),
    {
        self.regs[(address - 0xFF10) as usize]
    }

    pub fn wb(&mut self, address: u16, value: u8)
        requires
            old(self)@.wf(),
            0xFF10 <= address <= 0xFF3F,
        ensures
            final(self)@ == old(self)@.spec_wb(address, value),
            final(self)@.wf(),
    {
        self.regs.set((address - 0xFF10) as usize, value);
    }

    /// Advance by a tick count.  Synthesis is out of scope, so the register
    /// block is left as it stands.
    pub fn do_cycle(&mut self, _ticks: u32)
        ensures
            *final(self) == *old(self),
    {
    }

    /// Flush point for an output backend; nothing is buffered in this model.
    pub fn sync(&mut self)
        ensures
            *final(self) == *old(self),
    {
    }
}

} // verus!
