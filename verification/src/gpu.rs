//! Video unit at the bus boundary: video RAM (two banks), object attribute
//! memory, the control register block and the color palette ports as plain
//! storage, plus the scanline counter that gives the core its blanking
//! cadence.  A scanline lasts 456 ticks; 154 lines make a frame; lines 144
//! and up are the vertical blanking phase.  Pixel rendering is out of scope:
//! the frame image buffer exists only to be handed out.

use vstd::prelude::*;

use crate::gbmode::GbMode;

verus! {

pub struct GPU {
    pub vram: Vec<u8>,
    pub oam: Vec<u8>,
    pub regs: Vec<u8>,
    pub cpal: Vec<u8>,
    pub clock: u32,
    pub line: u8,
    pub interrupt: u8,
    pub updated: bool,
    pub vblank_edge: bool,
    pub data: Vec<u8>,
    pub gbmode: GbMode,
}

#[verifier::ext_equal]
pub struct GpuView {
    pub vram: Seq<u8>,
    pub oam: Seq<u8>,
    pub regs: Seq<u8>,
    pub cpal: Seq<u8>,
    pub clock: u32,
    pub line: u8,
    pub interrupt: u8,
    pub updated: bool,
    pub vblank_edge: bool,
    pub data: Seq<u8>,
    pub gbmode: GbMode,
}

impl View for GPU {
    type V = GpuView;

    open spec fn view(&self) -> GpuView {
        GpuView {
            vram: self.vram@,
            oam: self.oam@,
            regs: self.regs@,
            cpal: self.cpal@,
            clock: self.clock,
            line: self.line,
            interrupt: self.interrupt,
            updated: self.updated,
            vblank_edge: self.vblank_edge,
            data: self.data@,
            gbmode: self.gbmode,
        }
    }
}

/// Ticks in one scanline.
pub const LINE_TICKS: u32 = 456;

/// Scanlines in one frame, blanking lines included.
pub const FRAME_LINES: u8 = 154;

/// First scanline of the vertical blanking phase.
pub const VBLANK_LINE: u8 = 144;

/// Tick within a visible line at which its horizontal blanking begins.
pub const HBLANK_TICK: u32 = 252;

impl GpuView {
    pub open spec fn wf(self) -> bool {
        &&& self.vram.len() == 0x4000
        &&& self.oam.len() == 0xA0
        &&& self.regs.len() == 0x10
        &&& self.cpal.len() == 4
        &&& self.data.len() == 160 * 144 * 3
        &&& self.clock < 456
        &&& self.line < 154
    }

    /// Index into video RAM: the bank-select register's low bit picks the
    /// 8 KiB bank (always bank 0 outside color mode, where the bus gates
    /// writes to the select register away).
    pub open spec fn spec_vram_index(self, address: u16) -> int {
        (self.regs[0xF] & 1) * 0x2000 + (address - 0x8000)
    }

    pub open spec fn spec_rb(self, address: u16) -> u8 {
        if 0x8000 <= address <= 0x9FFF {
            self.vram[self.spec_vram_index(address)]
        } else if 0xFE00 <= address <= 0xFE9F {
            self.oam[address - 0xFE00]
        } else if address == 0xFF44 {
            self.line
        } else if 0xFF40 <= address <= 0xFF4F {
            self.regs[address - 0xFF40]
        } else if 0xFF68 <= address <= 0xFF6B {
            self.cpal[address - 0xFF68]
        } else {
            0xFF
        }
    }

    pub open spec fn spec_wb(self, address: u16, value: u8) -> GpuView {
        if 0x8000 <= address <= 0x9FFF {
            GpuView { vram: self.vram.update(self.spec_vram_index(address), value), ..self }
        } else if 0xFE00 <= address <= 0xFE9F {
            GpuView { oam: self.oam.update(address - 0xFE00, value), ..self }
        } else if address == 0xFF44 {
            // the scanline counter is owned by the advance logic
            self
        } else if 0xFF40 <= address <= 0xFF4F {
            GpuView { regs: self.regs.update(address - 0xFF40, value), ..self }
        } else if 0xFF68 <= address <= 0xFF6B {
            GpuView { cpal: self.cpal.update(address - 0xFF68, value), ..self }
        } else {
            self
        }
    }

    /// End of a scanline: step the line counter, wrapping after the last
    /// line; on entering the first blanking line, flag the frame as ready,
    /// mark the consumed-once blanking edge and raise the video
    /// interrupt-request bit.
    pub open spec fn spec_line_step(self) -> GpuView {
        let next = self.line + 1;
        if next == 144 {
            GpuView {
                line: 144,
                vblank_edge: true,
                updated: true,
                interrupt: self.interrupt | 0x01,
                ..self
            }
        } else if next >= 154 {
            GpuView { line: 0, ..self }
        } else {
            GpuView { line: next as u8, ..self }
        }
    }

    /// Advance the scanline clock by a tick count, one line at a time.
    pub open spec fn spec_advance(self, ticks: nat) -> GpuView
        decreases ticks,
    {
        if ticks == 0 || self.clock >= 456 {
            self
        } else {
            let room = (456 - self.clock) as nat;
            if ticks < room {
                GpuView { clock: (self.clock + ticks) as u32, ..self }
            } else {
                (GpuView { clock: 0, ..self }).spec_line_step().spec_advance((ticks - room) as nat)
            }
        }
    }

    /// The unit accepts a blanking-row transfer during the horizontal
    /// blanking part of a visible line.
    pub open spec fn spec_may_hdma(self) -> bool {
        self.line < 144 && self.clock >= 252
    }

    /// The whole unit at power-on: all storage zeroed, counters at the top
    /// of the first line, no frame pending.
    pub open spec fn spec_power_on(gbmode: GbMode) -> GpuView {
        GpuView {
            vram: Seq::new(0x4000, |i: int| 0u8),
            oam: Seq::new(0xA0, |i: int| 0u8),
            regs: Seq::new(0x10, |i: int| 0u8),
            cpal: Seq::new(4, |i: int| 0u8),
            clock: 0,
            line: 0,
            interrupt: 0,
            updated: false,
            vblank_edge: false,
            data: Seq::new(160 * 144 * 3, |i: int| 0u8),
            gbmode,
        }
    }
}

impl GPU {
    fn make(gbmode: GbMode) -> (r: GPU)
        ensures
            r@ == GpuView::spec_power_on(gbmode),
            r@.wf(),
    {
        let g = GPU {
            vram: crate::zero_vec(0x4000),
            oam: crate::zero_vec(0xA0),
            regs: crate::zero_vec(0x10),
            cpal: crate::zero_vec(4),
            clock: 0,
            line: 0,
            interrupt: 0,
            updated: false,
            vblank_edge: false,
            data: crate::zero_vec(160 * 144 * 3),
            gbmode,
        };
        proof {
            assert(g@ =~= GpuView::spec_power_on(gbmode));
        }
        g
    }

    pub fn new() -> (r: GPU)
        ensures
            r@ == GpuView::spec_power_on(GbMode::Classic),
            r@.wf(),
    {
        Self::make(GbMode::Classic)
    }

    pub fn new_cgb() -> (r: GPU)
        ensures
            r@ == GpuView::spec_power_on(GbMode::Color),
            r@.wf(),
    {
        Self::make(GbMode::Color)
    }

    pub fn rb(&self, address: u16) -> (r: u8)
        requires
            self@.wf(),
        ensures
            r == self@.spec_rb(address),
    {
        if 0x8000 <= address && address <= 0x9FFF {
            let sel = self.regs[0xF];
            assert(sel & 1 < 2) by (bit_vector);
            let bank = (sel & 1) as usize;
            self.vram[bank * 0x2000 + (address - 0x8000) as usize]
        } else if 0xFE00 <= address && address <= 0xFE9F {
            self.oam[(address - 0xFE00) as usize]
        } else if address == 0xFF44 {
            self.line
        } else if 0xFF40 <= address && address <= 0xFF4F {
            self.regs[(address - 0xFF40) as usize]
        } else if 0xFF68 <= address && address <= 0xFF6B {
            self.cpal[(address - 0xFF68) as usize]
        } else {
            0xFF
        }
    }

    pub fn wb(&mut self, address: u16, value: u8)
        requires
            old(self)@.wf(),
        ensures
            final(self)@ == old(self)@.spec_wb(address, value),
            final(self)@.wf(),
    {
        if 0x8000 <= address && address <= 0x9FFF {
            let sel = self.regs[0xF];
            assert(sel & 1 < 2) by (bit_vector);
            let bank = (sel & 1) as usize;
            self.vram.set(bank * 0x2000 + (address - 0x8000) as usize, value);
        } else if 0xFE00 <= address && address <= 0xFE9F {
            self.oam.set((address - 0xFE00) as usize, value);
        } else if address == 0xFF44 {
        } else if 0xFF40 <= address && address <= 0xFF4F {
            self.regs.set((address - 0xFF40) as usize, value);
        } else if 0xFF68 <= address && address <= 0xFF6B {
            self.cpal.set((address - 0xFF68) as usize, value);
        }
    }

    fn line_step(&mut self)
        requires
            old(self)@.wf(),
        ensures
            final(self)@ == old(self)@.spec_line_step(),
            final(self)@.wf(),
            final(self)@.clock == old(self)@.clock,
    {
        let next = self.line + 1;
        if next == 144 {
            self.line = 144;
            self.vblank_edge = true;
            self.updated = true;
            self.interrupt |= 0x01;
        } else if next >= 154 {
            self.line = 0;
        } else {
            self.line = next;
        }
    }

    /// Advance by a tick count, stepping the scanline counter and raising
    /// the blanking flags at the line boundaries the ticks cross.
    pub fn do_cycle(&mut self, ticks: u32)
        requires
            old(self)@.wf(),
            ticks <= 0x7FFF_FFFF,
        ensures
            final(self)@ == old(self)@.spec_advance(ticks as nat),
            final(self)@.wf(),
    {
        let mut t = ticks;
        while t > 0
            invariant
                self@.wf(),
                t <= ticks,
                old(self)@.spec_advance(ticks as nat) == self@.spec_advance(t as nat),
            decreases t,
        {
            let room = LINE_TICKS - self.clock;
            if t < room {
                let ghost pre = self@;
                self.clock = self.clock + t;
                assert(pre.spec_advance(t as nat) == self@.spec_advance(0));
                t = 0;
            } else {
                let ghost pre = self@;
                let consumed = room;
                self.clock = 0;
                self.line_step();
                t = t - consumed;
                assert(pre.spec_advance((t + consumed) as nat) == self@.spec_advance(t as nat));
            }
        }
    }

    pub fn may_hdma(&self) -> (r: bool)
        ensures
            r == self@.spec_may_hdma(),
    {
        self.line < VBLANK_LINE && self.clock >= HBLANK_TICK
    }

    /// Report and consume the "just entered the blanking phase" edge.
    pub fn take_vblank(&mut self) -> (r: bool)
        ensures
            r == old(self)@.vblank_edge,
            final(self)@ == (GpuView { vblank_edge: false, ..old(self)@ }),
    {
        let r = self.vblank_edge;
        self.vblank_edge = false;
        r
    }
}

} // verus!
