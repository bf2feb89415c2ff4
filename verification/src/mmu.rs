//! The address bus: decodes every 16-bit address into its owning region —
//! cartridge ROM and RAM windows, video RAM and object memory, the fixed
//! and the banked work-RAM window with their echoes, and the I/O register
//! page — and routes byte reads and writes there.  It also owns the two
//! video-RAM DMA protocols, the interrupt aggregation, the speed switch and
//! the per-frame mirror snapshot.
//!
//! Unmapped reads return the open-bus value 0xFF and unmapped writes are
//! dropped.  Registers of color-only hardware read 0xFF and drop writes
//! while the session is not in color mode.

use vstd::prelude::*;

use crate::gbmode::{GbMode, GbSpeed};
use crate::gpu::{GpuView, GPU};
use crate::keypad::Keypad;
use crate::mbc::{Cartridge, CartridgeView};
use crate::serial::{Serial, SerialCallback, SerialView};
use crate::sound::{Sound, SoundView};
use crate::timer::Timer;
use crate::StrResult;

verus! {

/// Which video-RAM transfer protocol is pending: none, the one-shot
/// general-purpose transfer, or the per-blanking-row transfer.
#[derive(Clone, Copy, PartialEq, Eq, Structural, Debug)]
pub enum DMAType {
    NoDMA,
    GDMA,
    HDMA,
}

pub struct MMU {
    pub wram: Vec<u8>,
    pub zram: Vec<u8>,
    pub hdma: Vec<u8>,
    pub inte: u8,
    pub intf: u8,
    pub serial: Serial,
    pub timer: Timer,
    pub keypad: Keypad,
    pub gpu: GPU,
    pub sound: Option<Sound>,
    pub hdma_status: DMAType,
    pub hdma_src: u16,
    pub hdma_dst: u16,
    pub hdma_len: u8,
    pub wrambank: usize,
    pub mbc: Cartridge,
    pub gbmode: GbMode,
    pub gbspeed: GbSpeed,
    pub speed_switch_req: bool,
    pub undocumented_cgb_regs: Vec<u8>,
    pub wram_mirror: Vec<u8>,
    pub frame_counter: u32,
}

#[verifier::ext_equal]
pub struct MmuView {
    pub wram: Seq<u8>,
    pub zram: Seq<u8>,
    pub hdma: Seq<u8>,
    pub inte: u8,
    pub intf: u8,
    pub serial: SerialView,
    pub timer: Timer,
    pub keypad: Keypad,
    pub gpu: GpuView,
    pub sound: Option<SoundView>,
    pub hdma_status: DMAType,
    pub hdma_src: u16,
    pub hdma_dst: u16,
    pub hdma_len: u8,
    pub wrambank: usize,
    pub mbc: CartridgeView,
    pub gbmode: GbMode,
    pub gbspeed: GbSpeed,
    pub speed_switch_req: bool,
    pub undoc: Seq<u8>,
    pub mirror: Seq<u8>,
    pub frame_counter: u32,
}

impl View for MMU {
    type V = MmuView;

    open spec fn view(&self) -> MmuView {
        MmuView {
            wram: self.wram@,
            zram: self.zram@,
            hdma: self.hdma@,
            inte: self.inte,
            intf: self.intf,
            serial: self.serial@,
            timer: self.timer,
            keypad: self.keypad,
            gpu: self.gpu@,
            sound: match &self.sound {
                Some(s) => Some(s@),
                None => None,
            },
            hdma_status: self.hdma_status,
            hdma_src: self.hdma_src,
            hdma_dst: self.hdma_dst,
            hdma_len: self.hdma_len,
            wrambank: self.wrambank,
            mbc: self.mbc@,
            gbmode: self.gbmode,
            gbspeed: self.gbspeed,
            speed_switch_req: self.speed_switch_req,
            undoc: self.undocumented_cgb_regs@,
            mirror: self.wram_mirror@,
            frame_counter: self.frame_counter,
        }
    }
}

impl MmuView {
    /// Storage sizes and the banked-window invariant (bank in 1..=7).
    pub open spec fn sizes_ok(self) -> bool {
        &&& self.wram.len() == 0x8000
        &&& self.zram.len() == 0x7F
        &&& self.hdma.len() == 4
        &&& self.undoc.len() == 3
        &&& self.mirror.len() == 0x68
        &&& 1 <= self.wrambank <= 7
        &&& self.gpu.wf()
        &&& self.mbc.wf()
        &&& (self.sound matches Some(s) ==> s.wf())
        &&& self.hdma[2] <= 0x1F
    }

    /// While a transfer is pending, its pointers stay clear of the top of
    /// the address space for the whole remaining run.
    pub open spec fn dma_bounds(self) -> bool {
        self.hdma_status != DMAType::NoDMA ==> {
            &&& self.hdma_len <= 0x7F
            &&& self.hdma_src + 16 * (self.hdma_len + 1) <= 0xE7F0
            &&& self.hdma_dst + 16 * (self.hdma_len + 1) <= 0xB000
        }
    }

    pub open spec fn wf(self) -> bool {
        self.sizes_ok() && self.dma_bounds()
    }

    /// The transfer-control block: the four pointer registers read back as
    /// stored; the length register reports the remaining length, with bit 7
    /// set exactly when no transfer is pending.
    pub open spec fn spec_hdma_read(self, address: u16) -> u8 {
        if address <= 0xFF54 {
            self.hdma[address - 0xFF51]
        } else {
            self.hdma_len | (if self.hdma_status == DMAType::NoDMA {
                0x80
            } else {
                0
            })
        }
    }

    /// The speed register: bit 7 reports double speed, bit 0 a pending
    /// switch request, the middle bits read back set.
    pub open spec fn spec_speed_byte(self) -> u8 {
        0x7E | (if self.gbspeed == GbSpeed::Double {
            0x80u8
        } else {
            0u8
        }) | (if self.speed_switch_req {
            1u8
        } else {
            0u8
        })
    }

    /// Full address decode for a byte read.
    pub open spec fn spec_read(self, a: u16) -> u8 {
        if a <= 0x7FFF {
            self.mbc.spec_readrom(a)
        } else if a <= 0x9FFF {
            self.gpu.spec_rb(a)
        } else if a <= 0xBFFF {
            self.mbc.spec_readram(a)
        } else if a <= 0xCFFF || (0xE000 <= a && a <= 0xEFFF) {
            self.wram[(a & 0x0FFF) as int]
        } else if a <= 0xDFFF || (0xF000 <= a && a <= 0xFDFF) {
            self.wram[self.wrambank * 0x1000 + (a & 0x0FFF)]
        } else if 0xFE00 <= a && a <= 0xFE9F {
            self.gpu.spec_rb(a)
        } else if a == 0xFF00 {
            self.keypad.data
        } else if 0xFF01 <= a && a <= 0xFF02 {
            self.serial.spec_rb(a)
        } else if 0xFF04 <= a && a <= 0xFF07 {
            self.timer.spec_rb(a)
        } else if a == 0xFF0F {
            self.intf | 0xE0
        } else if 0xFF10 <= a && a <= 0xFF3F {
            match self.sound {
                Some(s) => s.spec_rb(a),
                None => 0xFF,
            }
        } else if (a == 0xFF4D || a == 0xFF4F || (0xFF51 <= a && a <= 0xFF55) || a == 0xFF6C
            || a == 0xFF70) && self.gbmode != GbMode::Color {
            0xFF
        } else if ((0xFF72 <= a && a <= 0xFF73) || (0xFF75 <= a && a <= 0xFF77))
            && self.gbmode == GbMode::Classic {
            0xFF
        } else if a == 0xFF4D {
            self.spec_speed_byte()
        } else if 0xFF40 <= a && a <= 0xFF4F {
            self.gpu.spec_rb(a)
        } else if 0xFF51 <= a && a <= 0xFF55 {
            self.spec_hdma_read(a)
        } else if 0xFF68 <= a && a <= 0xFF6B {
            self.gpu.spec_rb(a)
        } else if a == 0xFF70 {
            self.wrambank as u8
        } else if 0xFF72 <= a && a <= 0xFF73 {
            self.undoc[a - 0xFF72]
        } else if a == 0xFF75 {
            self.undoc[2] | 0x8F
        } else if 0xFF76 <= a && a <= 0xFF77 {
            0x00
        } else if 0xFF80 <= a && a <= 0xFFFE {
            self.zram[(a & 0x007F) as int]
        } else if a == 0xFFFF {
            self.inte
        } else {
            0xFF
        }
    }

    /// A 16-bit read is two byte reads composed little-endian.
    pub open spec fn spec_read_wide(self, a: u16) -> u16 {
        (self.spec_read(a) + 0x100 * self.spec_read((a + 1) as u16)) as u16
    }
}

impl MMU {
    /// Read one byte.  The decode is total: every address yields a value,
    /// unmapped ones the open-bus 0xFF.
    pub fn rb(&self, address: u16) -> (r: u8)
        requires
            self@.sizes_ok(),
        ensures
            r == self@.spec_read(address),
    {
        proof {
            assert(address & 0x0FFF < 0x1000) by (bit_vector);
            assert(address & 0x007F < 0x80) by (bit_vector);
        }
        if address <= 0x7FFF {
            self.mbc.readrom(address)
        } else if address <= 0x9FFF {
            self.gpu.rb(address)
        } else if address <= 0xBFFF {
            self.mbc.readram(address)
        } else if address <= 0xCFFF || (0xE000 <= address && address <= 0xEFFF) {
            self.wram[(address & 0x0FFF) as usize]
        } else if address <= 0xDFFF || (0xF000 <= address && address <= 0xFDFF) {
            self.wram[self.wrambank * 0x1000 + (address & 0x0FFF) as usize]
        } else if 0xFE00 <= address && address <= 0xFE9F {
            self.gpu.rb(address)
        } else if address == 0xFF00 {
            self.keypad.rb()
        } else if 0xFF01 <= address && address <= 0xFF02 {
            self.serial.rb(address)
        } else if 0xFF04 <= address && address <= 0xFF07 {
            self.timer.rb(address)
        } else if address == 0xFF0F {
            self.intf | 0xE0
        } else if 0xFF10 <= address && address <= 0xFF3F {
            match &self.sound {
                Some(s) => s.rb(address),
                None => 0xFF,
            }
        } else if (address == 0xFF4D || address == 0xFF4F || (0xFF51 <= address && address
            <= 0xFF55) || address == 0xFF6C || address == 0xFF70) && self.gbmode != GbMode::Color {
            0xFF
        } else if ((0xFF72 <= address && address <= 0xFF73) || (0xFF75 <= address && address
            <= 0xFF77)) && self.gbmode == GbMode::Classic {
            0xFF
        } else if address == 0xFF4D {
            0x7E | (if self.gbspeed == GbSpeed::Double {
                0x80u8
            } else {
                0u8
            }) | (if self.speed_switch_req {
                1u8
            } else {
                0u8
            })
        } else if 0xFF40 <= address && address <= 0xFF4F {
            self.gpu.rb(address)
        } else if 0xFF51 <= address && address <= 0xFF55 {
            self.hdma_read(address)
        } else if 0xFF68 <= address && address <= 0xFF6B {
            self.gpu.rb(address)
        } else if address == 0xFF70 {
            self.wrambank as u8
        } else if 0xFF72 <= address && address <= 0xFF73 {
            self.undocumented_cgb_regs[(address - 0xFF72) as usize]
        } else if address == 0xFF75 {
            self.undocumented_cgb_regs[2] | 0x8F
        } else if 0xFF76 <= address && address <= 0xFF77 {
            0x00
        } else if 0xFF80 <= address && address <= 0xFFFE {
            proof {
                assert(address & 0x007F < 0x7F) by (bit_vector)
                    requires
                        0xFF80 <= address && address <= 0xFFFE,
                ;
            }
            self.zram[(address & 0x007F) as usize]
        } else if address == 0xFFFF {
            self.inte
        } else {
            0xFF
        }
    }

    fn hdma_read(&self, address: u16) -> (r: u8)
        requires
            self@.sizes_ok(),
            0xFF51 <= address <= 0xFF55,
        ensures
            r == self@.spec_hdma_read(address),
    {
        if address <= 0xFF54 {
            self.hdma[(address - 0xFF51) as usize]
        } else {
            self.hdma_len | (if self.hdma_status == DMAType::NoDMA {
                0x80
            } else {
                0
            })
        }
    }

    /// Read a 16-bit value as two little-endian byte reads.
    pub fn rw(&self, address: u16) -> (r: u16)
        requires
            self@.sizes_ok(),
            address < 0xFFFF,
        ensures
            r == self@.spec_read_wide(address),
    {
        let lo = self.rb(address) as u16;
        let hi = self.rb(address + 1) as u16;
        proof {
            let l = self@.spec_read(address) as u16;
            let h = self@.spec_read((address + 1) as u16) as u16;
            assert(l | (h << 8) == (l + 0x100 * h) as u16) by (bit_vector)
                requires
                    l < 0x100 && h < 0x100,
            ;
        }
        lo | (hi << 8)
    }
}


impl MmuView {
    /// The source pointer a transfer-trigger write would use, from the two
    /// high control registers.
    pub open spec fn spec_hdma_src_ptr(self) -> u16 {
        ((self.hdma[0] as u16) << 8) | (self.hdma[1] as u16)
    }

    /// The destination pointer a transfer-trigger write would use: always
    /// inside video memory.
    pub open spec fn spec_hdma_dst_ptr(self) -> u16 {
        ((self.hdma[2] as u16) << 8) | (self.hdma[3] as u16) | 0x8000
    }

    /// A transfer may legally start from cartridge ROM or from external or
    /// work RAM, never from video memory or the top pages.
    pub open spec fn spec_hdma_src_legal(self) -> bool {
        self.spec_hdma_src_ptr() <= 0x7FF0 || (0xA000 <= self.spec_hdma_src_ptr()
            && self.spec_hdma_src_ptr() <= 0xDFF0)
    }

    /// A write is admitted unless it would trigger a transfer from an
    /// illegal source address, which locks up the real hardware and is a
    /// fatal condition here as well.
    pub open spec fn spec_write_ok(self, a: u16, v: u8) -> bool {
        !(a == 0xFF55 && self.gbmode == GbMode::Color && self.hdma_status != DMAType::HDMA
            && !self.spec_hdma_src_legal())
    }

    /// Writes to the transfer-control block: the pointer registers store
    /// masked values; a write to the trigger register cancels a pending
    /// blanking transfer (high bit clear), or latches pointers, length and
    /// protocol for a new transfer.
    pub open spec fn spec_hdma_write(self, a: u16, v: u8) -> MmuView {
        if a == 0xFF51 {
            MmuView { hdma: self.hdma.update(0, v), ..self }
        } else if a == 0xFF52 {
            MmuView { hdma: self.hdma.update(1, v & 0xF0), ..self }
        } else if a == 0xFF53 {
            MmuView { hdma: self.hdma.update(2, v & 0x1F), ..self }
        } else if a == 0xFF54 {
            MmuView { hdma: self.hdma.update(3, v & 0xF0), ..self }
        } else {
            if self.hdma_status == DMAType::HDMA {
                if v & 0x80 == 0 {
                    MmuView { hdma_status: DMAType::NoDMA, ..self }
                } else {
                    self
                }
            } else {
                MmuView {
                    hdma_src: self.spec_hdma_src_ptr(),
                    hdma_dst: self.spec_hdma_dst_ptr(),
                    hdma_len: v & 0x7F,
                    hdma_status: if v & 0x80 == 0x80 {
                        DMAType::HDMA
                    } else {
                        DMAType::GDMA
                    },
                    ..self
                }
            }
        }
    }

    /// One step of the synchronous object-memory copy: the byte at
    /// `base + n - 1` is read through the bus (against the state the first
    /// `n - 1` steps produced) and stored at object-memory slot `n - 1`.
    pub open spec fn spec_oamdma_upto(self, base: u16, n: int) -> MmuView
        decreases n,
    {
        if n <= 0 {
            self
        } else {
            let prev = self.spec_oamdma_upto(base, n - 1);
            let b = prev.spec_read((base + n - 1) as u16);
            MmuView { gpu: GpuView { oam: prev.gpu.oam.update(n - 1, b), ..prev.gpu }, ..prev }
        }
    }

    /// The synchronous 160-byte object-memory copy a write to the trigger
    /// register performs: 160 bus reads from `value << 8` upward, stored in
    /// order.
    pub open spec fn spec_oamdma(self, value: u8) -> MmuView {
        self.spec_oamdma_upto((value as u16) << 8, 0xA0)
    }

    /// Full address decode for a byte write, except that a serial control
    /// write that starts an exchange is pinned down only as far as the
    /// callback's two possible outcomes allow (see `MMU::wb`).
    pub open spec fn spec_write(self, a: u16, v: u8) -> MmuView {
        if a <= 0x7FFF {
            self  // the flat ROM window drops bank-switching control writes
        } else if a <= 0x9FFF {
            MmuView { gpu: self.gpu.spec_wb(a, v), ..self }
        } else if a <= 0xBFFF {
            MmuView { mbc: self.mbc.spec_writeram(a, v), ..self }
        } else if a <= 0xCFFF || (0xE000 <= a && a <= 0xEFFF) {
            MmuView { wram: self.wram.update((a & 0x0FFF) as int, v), ..self }
        } else if a <= 0xDFFF || (0xF000 <= a && a <= 0xFDFF) {
            MmuView { wram: self.wram.update(self.wrambank * 0x1000 + (a & 0x0FFF), v), ..self }
        } else if 0xFE00 <= a && a <= 0xFE9F {
            MmuView { gpu: self.gpu.spec_wb(a, v), ..self }
        } else if a == 0xFF00 {
            MmuView { keypad: self.keypad.spec_wb(v), ..self }
        } else if a == 0xFF01 {
            MmuView { serial: SerialView { data: v, ..self.serial }, ..self }
        } else if a == 0xFF02 {
            MmuView { serial: SerialView { control: v, ..self.serial }, ..self }
        } else if 0xFF04 <= a && a <= 0xFF07 {
            MmuView { timer: self.timer.spec_wb(a, v), ..self }
        } else if 0xFF10 <= a && a <= 0xFF3F {
            match self.sound {
                Some(s) => MmuView { sound: Some(s.spec_wb(a, v)), ..self },
                None => self,
            }
        } else if a == 0xFF46 {
            self.spec_oamdma(v)
        } else if (a == 0xFF4D || a == 0xFF4F || (0xFF51 <= a && a <= 0xFF55) || a == 0xFF6C
            || a == 0xFF70 || (0xFF76 <= a && a <= 0xFF77)) && self.gbmode != GbMode::Color {
            self
        } else if ((0xFF72 <= a && a <= 0xFF73) || (0xFF75 <= a && a <= 0xFF77))
            && self.gbmode == GbMode::Classic {
            self
        } else if a == 0xFF4D {
            if v & 1 == 1 {
                MmuView { speed_switch_req: true, ..self }
            } else {
                self
            }
        } else if 0xFF40 <= a && a <= 0xFF4F {
            MmuView { gpu: self.gpu.spec_wb(a, v), ..self }
        } else if 0xFF51 <= a && a <= 0xFF55 {
            self.spec_hdma_write(a, v)
        } else if 0xFF68 <= a && a <= 0xFF6B {
            MmuView { gpu: self.gpu.spec_wb(a, v), ..self }
        } else if a == 0xFF0F {
            MmuView { intf: v, ..self }
        } else if a == 0xFF70 {
            MmuView {
                wrambank: if v & 7 == 0 {
                    1
                } else {
                    (v & 7) as usize
                },
                ..self
            }
        } else if 0xFF72 <= a && a <= 0xFF73 {
            MmuView { undoc: self.undoc.update(a - 0xFF72, v), ..self }
        } else if a == 0xFF75 {
            MmuView { undoc: self.undoc.update(2, v), ..self }
        } else if 0xFF80 <= a && a <= 0xFFFE {
            MmuView { zram: self.zram.update((a & 0x007F) as int, v), ..self }
        } else if a == 0xFFFF {
            MmuView { inte: v, ..self }
        } else {
            self
        }
    }
}


impl MMU {
    /// Runtime test of the one fatal write condition, so an unverified
    /// caller (the instruction collaborator issues bus writes for every
    /// memory access) can check a write before making it.
    pub fn write_ok(&self, address: u16, value: u8) -> (r: bool)
        requires
            self@.sizes_ok(),
        ensures
            r == self@.spec_write_ok(address, value),
    {
        if address != 0xFF55 || self.gbmode != GbMode::Color || self.hdma_status
            == DMAType::HDMA {
            true
        } else {
            let src = ((self.hdma[0] as u16) << 8) | (self.hdma[1] as u16);
            src <= 0x7FF0 || (0xA000 <= src && src <= 0xDFF0)
        }
    }

    /// Write one byte.  The decode is total but for one fatal condition:
    /// a trigger write that would start a transfer from an illegal source
    /// locks up the real hardware, so such writes are excluded here.
    /// Every clause of the contract but the serial exchange is exact; a
    /// serial control write that starts an exchange hands the data byte to
    /// the host callback, whose answer is not this crate's to promise.
    #[verifier::rlimit(60)]
    #[verifier::spinoff_prover]
    pub fn wb(&mut self, address: u16, value: u8)
        requires
            old(self)@.wf(),
            old(self)@.spec_write_ok(address, value),
        ensures
            final(self)@.wf(),
            address != 0xFF02 ==> final(self)@ == old(self)@.spec_write(address, value),
            address == 0xFF02 ==> final(self)@ == (MmuView {
                serial: final(self)@.serial,
                ..old(self)@
            }) && final(self)@.serial.control == value && final(self)@.serial.linked == old(
                self,
            )@.serial.linked && (final(self)@.serial.interrupt == old(self)@.serial.interrupt
                || final(self)@.serial.interrupt == 0x08) && (!(value & 0x81 == 0x81 && old(
                self,
            )@.serial.linked) ==> final(self)@ == old(self)@.spec_write(address, value)) && (
            final(self)@.serial.interrupt != 0x08 ==> final(self)@.serial.data == old(
                self,
            )@.serial.data && final(self)@.serial.interrupt == old(self)@.serial.interrupt),
    {
        if address < 0xFE00 {
            proof {
                assert(address & 0x0FFF < 0x1000) by (bit_vector);
            }
            if address <= 0x7FFF {
                self.mbc.writerom(address, value);
            } else if address <= 0x9FFF {
                self.gpu.wb(address, value);
            } else if address <= 0xBFFF {
                self.mbc.writeram(address, value);
            } else if address <= 0xCFFF || (0xE000 <= address && address <= 0xEFFF) {
                self.wram.set((address & 0x0FFF) as usize, value);
            } else if address <= 0xDFFF || 0xF000 <= address {
                self.wram.set(self.wrambank * 0x1000 + (address & 0x0FFF) as usize, value);
            }
        } else if address <= 0xFE9F {
            self.gpu.wb(address, value);
        } else if address < 0xFF00 {
        } else {
            self.wb_io(address, value);
        }
    }

    /// The I/O register page, 0xFF00 and up: each register routed to its
    /// owning collaborator or local storage, color-only ones gated by mode.
    #[verifier::rlimit(100)]
    #[verifier::spinoff_prover]
    fn wb_io(&mut self, address: u16, value: u8)
        requires
            old(self)@.wf(),
            old(self)@.spec_write_ok(address, value),
            0xFF00 <= address,
        ensures
            final(self)@.wf(),
            address != 0xFF02 ==> final(self)@ == old(self)@.spec_write(address, value),
            address == 0xFF02 ==> final(self)@ == (MmuView {
                serial: final(self)@.serial,
                ..old(self)@
            }) && final(self)@.serial.control == value && final(self)@.serial.linked == old(
                self,
            )@.serial.linked && (final(self)@.serial.interrupt == old(self)@.serial.interrupt
                || final(self)@.serial.interrupt == 0x08) && (!(value & 0x81 == 0x81 && old(
                self,
            )@.serial.linked) ==> final(self)@ == old(self)@.spec_write(address, value)) && (
            final(self)@.serial.interrupt != 0x08 ==> final(self)@.serial.data == old(
                self,
            )@.serial.data && final(self)@.serial.interrupt == old(self)@.serial.interrupt),
    {
        proof {
            assert(value & 7 < 8) by (bit_vector);
        }
        if address == 0xFF00 {
            self.keypad.wb(value);
        } else if address == 0xFF01 {
            self.serial.wb(address, value);
        } else if address == 0xFF02 {
            self.serial.wb(address, value);
        } else if 0xFF04 <= address && address <= 0xFF07 {
            self.timer.wb(address, value);
        } else if 0xFF10 <= address && address <= 0xFF3F {
            match &mut self.sound {
                Some(s) => s.wb(address, value),
                None => {},
            }
        } else if address == 0xFF46 {
            self.oamdma(value);
        } else if (address == 0xFF4D || address == 0xFF4F || (0xFF51 <= address && address
            <= 0xFF55) || address == 0xFF6C || address == 0xFF70 || (0xFF76 <= address && address
            <= 0xFF77)) && self.gbmode != GbMode::Color {
        } else if ((0xFF72 <= address && address <= 0xFF73) || (0xFF75 <= address && address
            <= 0xFF77)) && self.gbmode == GbMode::Classic {
        } else if address == 0xFF4D {
            if value & 1 == 1 {
                self.speed_switch_req = true;
            }
        } else if 0xFF40 <= address && address <= 0xFF4F {
            self.gpu.wb(address, value);
        } else if 0xFF51 <= address && address <= 0xFF55 {
            self.hdma_write(address, value);
        } else if 0xFF68 <= address && address <= 0xFF6B {
            self.gpu.wb(address, value);
        } else if address == 0xFF0F {
            self.intf = value;
        } else if address == 0xFF70 {
            self.wrambank = if value & 7 == 0 {
                1
            } else {
                (value & 7) as usize
            };
        } else if 0xFF72 <= address && address <= 0xFF73 {
            self.undocumented_cgb_regs.set((address - 0xFF72) as usize, value);
        } else if address == 0xFF75 {
            self.undocumented_cgb_regs.set(2, value);
        } else if 0xFF80 <= address && address <= 0xFFFE {
            proof {
                assert(address & 0x007F < 0x7F) by (bit_vector)
                    requires
                        0xFF80 <= address && address <= 0xFFFE,
                ;
            }
            self.zram.set((address & 0x007F) as usize, value);
        } else if address == 0xFFFF {
            self.inte = value;
        }
    }

    /// Write a 16-bit value as two little-endian byte writes.  The result
    /// is pinned exactly unless one of the two bytes lands on the serial
    /// control register, whose callback exchange only `wb` can describe.
    pub fn ww(&mut self, address: u16, value: u16)
        requires
            old(self)@.wf(),
            address < 0xFFFF,
            old(self)@.spec_write_ok(address, (value & 0xFF) as u8),
            old(self)@.spec_write(address, (value & 0xFF) as u8).spec_write_ok(
                (address + 1) as u16,
                (value >> 8) as u8,
            ),
        ensures
            final(self)@.wf(),
            address != 0xFF01 && address != 0xFF02 ==> final(self)@ == old(self)@.spec_write(
                address,
                (value & 0xFF) as u8,
            ).spec_write((address + 1) as u16, (value >> 8) as u8),
    {
        self.wb(address, (value & 0xFF) as u8);
        self.wb(address + 1, (value >> 8) as u8);
    }

    fn oamdma(&mut self, value: u8)
        requires
            old(self)@.wf(),
        ensures
            final(self)@ == old(self)@.spec_oamdma(value),
            final(self)@.wf(),
    {
        let base = (value as u16) << 8;
        proof {
            assert((value as u16) << 8 <= 0xFF00) by (bit_vector);
        }
        let mut i: u16 = 0;
        while i < 0xA0
            invariant
                i <= 0xA0,
                base == (value as u16) << 8,
                base <= 0xFF00,
                old(self)@.wf(),
                self@ == old(self)@.spec_oamdma_upto(base, i as int),
                self@.wf(),
            decreases 0xA0 - i,
        {
            let ghost prev = self@;
            let b = self.rb(base + i);
            self.gpu.wb(0xFE00 + i, b);
            proof {
                assert(self@ =~= (MmuView {
                    gpu: GpuView { oam: prev.gpu.oam.update(i as int, b), ..prev.gpu },
                    ..prev
                }));
                assert(self@ =~= old(self)@.spec_oamdma_upto(base, i + 1));
            }
            i += 1;
        }
    }

    fn hdma_write(&mut self, address: u16, value: u8)
        requires
            old(self)@.wf(),
            0xFF51 <= address <= 0xFF55,
            address == 0xFF55 && old(self)@.hdma_status != DMAType::HDMA ==> old(
                self,
            )@.spec_hdma_src_legal(),
        ensures
            final(self)@ == old(self)@.spec_hdma_write(address, value),
            final(self)@.wf(),
    {
        if address == 0xFF51 {
            self.hdma.set(0, value);
        } else if address == 0xFF52 {
            self.hdma.set(1, value & 0xF0);
        } else if address == 0xFF53 {
            proof {
                assert(value & 0x1F <= 0x1F) by (bit_vector);
            }
            self.hdma.set(2, value & 0x1F);
        } else if address == 0xFF54 {
            self.hdma.set(3, value & 0xF0);
        } else {
            if self.hdma_status == DMAType::HDMA {
                if value & 0x80 == 0 {
                    self.hdma_status = DMAType::NoDMA;
                }
                return ;
            }
            let h0 = self.hdma[0];
            let h1 = self.hdma[1];
            let h2 = self.hdma[2];
            let h3 = self.hdma[3];
            let src = ((h0 as u16) << 8) | (h1 as u16);
            let dst = ((h2 as u16) << 8) | (h3 as u16) | 0x8000;
            self.hdma_src = src;
            self.hdma_dst = dst;
            proof {
                assert(value & 0x7F <= 0x7F) by (bit_vector);
                assert(0x8000 <= ((h2 as u16) << 8) | (h3 as u16) | 0x8000) by (bit_vector);
                assert((((h2 as u16) << 8) | (h3 as u16) | 0x8000) <= 0x9FFF) by (bit_vector)
                    requires
                        h2 <= 0x1F,
                ;
            }
            self.hdma_len = value & 0x7F;
            self.hdma_status = if value & 0x80 == 0x80 {
                DMAType::HDMA
            } else {
                DMAType::GDMA
            };
        }
    }
}


impl MmuView {
    /// One step of a 16-byte transfer row: the byte at `src + n - 1` is
    /// read through the bus and written directly into video memory at
    /// `dst + n - 1`, bypassing the bus's mode gating.
    pub open spec fn spec_row_upto(self, src: u16, dst: u16, n: int) -> MmuView
        decreases n,
    {
        if n <= 0 {
            self
        } else {
            let prev = self.spec_row_upto(src, dst, n - 1);
            let b = prev.spec_read((src + n - 1) as u16);
            MmuView { gpu: prev.gpu.spec_wb((dst + n - 1) as u16, b), ..prev }
        }
    }

    /// One full transfer row: 16 bytes copied, both pointers advanced, the
    /// length counter decremented with its wraparound sentinel (0 becomes
    /// 0x7F, signalling that the transfer is over or continues blank by
    /// blank).
    pub open spec fn spec_dma_row(self) -> MmuView {
        let copied = self.spec_row_upto(self.hdma_src, self.hdma_dst, 16);
        MmuView {
            hdma_src: (self.hdma_src + 16) as u16,
            hdma_dst: (self.hdma_dst + 16) as u16,
            hdma_len: if self.hdma_len == 0 {
                0x7F
            } else {
                (self.hdma_len - 1) as u8
            },
            ..copied
        }
    }

    /// A row copy only touches video memory: every other field of the bus
    /// rides along unchanged, and the video unit stays well formed.
    pub proof fn lemma_row_upto_frame(self, src: u16, dst: u16, n: int)
        ensures
            ({
                let r = self.spec_row_upto(src, dst, n);
                &&& r == (MmuView { gpu: r.gpu, ..self })
                &&& r.gpu.clock == self.gpu.clock
                &&& r.gpu.line == self.gpu.line
                &&& r.gpu.interrupt == self.gpu.interrupt
                &&& r.gpu.updated == self.gpu.updated
                &&& r.gpu.vblank_edge == self.gpu.vblank_edge
                &&& r.gpu.gbmode == self.gpu.gbmode
                &&& (self.gpu.wf() ==> r.gpu.wf())
            }),
        decreases n,
    {
        let r = self.spec_row_upto(src, dst, n);
        if n <= 0 {
            assert(r =~= (MmuView { gpu: r.gpu, ..self }));
        } else {
            self.lemma_row_upto_frame(src, dst, n - 1);
            let prev = self.spec_row_upto(src, dst, n - 1);
            let b = prev.spec_read((src + n - 1) as u16);
            assert(r == (MmuView { gpu: prev.gpu.spec_wb((dst + n - 1) as u16, b), ..prev }));
            assert(r =~= (MmuView { gpu: r.gpu, ..self }));
            let sel = prev.gpu.regs[0xF];
            assert(sel & 1 < 2) by (bit_vector);
            assert(self.gpu.wf() ==> r.gpu.wf());
        }
    }

    /// `n` consecutive transfer rows.
    pub open spec fn spec_gdma_rows(self, n: int) -> MmuView
        decreases n,
    {
        if n <= 0 {
            self
        } else {
            self.spec_gdma_rows(n - 1).spec_dma_row()
        }
    }

    /// State after resolving pending transfer work: a one-shot transfer
    /// copies all its `hdma_len + 1` rows at once and clears to "no
    /// transfer"; a blanking transfer copies exactly one row, only if the
    /// video unit accepts one, and ends when the length counter wraps.
    pub open spec fn spec_vramdma_state(self) -> MmuView {
        if self.hdma_status == DMAType::GDMA {
            MmuView {
                hdma_status: DMAType::NoDMA,
                ..self.spec_gdma_rows(self.hdma_len + 1)
            }
        } else if self.hdma_status == DMAType::HDMA {
            if !self.gpu.spec_may_hdma() {
                self
            } else {
                let row = self.spec_dma_row();
                if row.hdma_len == 0x7F {
                    MmuView { hdma_status: DMAType::NoDMA, ..row }
                } else {
                    row
                }
            }
        } else {
            self
        }
    }

    /// Ticks the pending transfer work consumes: 8 per row.
    pub open spec fn spec_vramdma_ticks(self) -> u32 {
        if self.hdma_status == DMAType::GDMA {
            (8 * (self.hdma_len + 1)) as u32
        } else if self.hdma_status == DMAType::HDMA {
            if self.gpu.spec_may_hdma() {
                8
            } else {
                0
            }
        } else {
            0
        }
    }
}

impl MMU {
    fn perform_vramdma_row(&mut self)
        requires
            old(self)@.sizes_ok(),
            old(self)@.hdma_src + 16 <= 0xFFFF,
            old(self)@.hdma_dst + 16 <= 0xFFFF,
        ensures
            final(self)@ == old(self)@.spec_dma_row(),
            final(self)@.sizes_ok(),
    {
        let mmu_src = self.hdma_src;
        let mmu_dst = self.hdma_dst;
        let mut j: u16 = 0;
        while j < 0x10
            invariant
                j <= 0x10,
                mmu_src + 16 <= 0xFFFF,
                mmu_dst + 16 <= 0xFFFF,
                self@ == old(self)@.spec_row_upto(mmu_src, mmu_dst, j as int),
                self@.sizes_ok(),
                self@.hdma_src == mmu_src,
                self@.hdma_dst == mmu_dst,
                self@.hdma_len == old(self)@.hdma_len,
            decreases 0x10 - j,
        {
            let ghost prev = self@;
            let b: u8 = self.rb(mmu_src + j);
            self.gpu.wb(mmu_dst + j, b);
            proof {
                assert(self@ =~= (MmuView { gpu: prev.gpu.spec_wb((mmu_dst + j) as u16, b), ..prev }));
                assert(self@ =~= old(self)@.spec_row_upto(mmu_src, mmu_dst, j + 1));
            }
            j += 1;
        }
        self.hdma_src += 0x10;
        self.hdma_dst += 0x10;
        if self.hdma_len == 0 {
            self.hdma_len = 0x7F;
        } else {
            self.hdma_len -= 1;
        }
        proof {
            assert(self@ =~= old(self)@.spec_dma_row());
        }
    }

    fn perform_gdma(&mut self) -> (r: u32)
        requires
            old(self)@.wf(),
            old(self)@.hdma_status == DMAType::GDMA,
        ensures
            final(self)@ == old(self)@.spec_vramdma_state(),
            r == old(self)@.spec_vramdma_ticks(),
            final(self)@.wf(),
    {
        let len: u32 = self.hdma_len as u32 + 1;
        let mut i: u32 = 0;
        while i < len
            invariant
                i <= len,
                len == old(self)@.hdma_len + 1,
                self@ == old(self)@.spec_gdma_rows(i as int),
                self@.sizes_ok(),
                self@.hdma_status == DMAType::GDMA,
                self@.hdma_src + 16 * (len - i) <= 0xE7F0,
                self@.hdma_dst + 16 * (len - i) <= 0xB000,
            decreases len - i,
        {
            proof {
                self@.lemma_row_upto_frame(self@.hdma_src, self@.hdma_dst, 16);
            }
            self.perform_vramdma_row();
            i += 1;
        }
        self.hdma_status = DMAType::NoDMA;
        proof {
            assert(self@ =~= old(self)@.spec_vramdma_state());
        }
        len * 8
    }

    fn perform_hdma(&mut self) -> (r: u32)
        requires
            old(self)@.wf(),
            old(self)@.hdma_status == DMAType::HDMA,
        ensures
            final(self)@ == old(self)@.spec_vramdma_state(),
            r == old(self)@.spec_vramdma_ticks(),
            final(self)@.wf(),
    {
        if self.gpu.may_hdma() == false {
            return 0;
        }
        proof {
            self@.lemma_row_upto_frame(self@.hdma_src, self@.hdma_dst, 16);
        }
        self.perform_vramdma_row();
        if self.hdma_len == 0x7F {
            self.hdma_status = DMAType::NoDMA;
        }
        8
    }

    /// Resolve pending transfer work, returning the ticks it consumed.
    fn perform_vramdma(&mut self) -> (r: u32)
        requires
            old(self)@.wf(),
        ensures
            final(self)@ == old(self)@.spec_vramdma_state(),
            r == old(self)@.spec_vramdma_ticks(),
            final(self)@.wf(),
    {
        match self.hdma_status {
            DMAType::NoDMA => 0,
            DMAType::GDMA => self.perform_gdma(),
            DMAType::HDMA => self.perform_hdma(),
        }
    }
}


impl MmuView {
    /// State after one scheduler pass: pending transfer work is resolved
    /// first, then the timer, input, video and audio collaborators advance,
    /// each one's momentary interrupt-request bit folded into the shared
    /// pending register and cleared at its source, the serial bit last.
    /// Opaque: callers compose it as one step; `MMU::do_cycle` proves it.
    #[verifier::opaque]
    pub open spec fn spec_do_cycle_state(self, ticks: u32) -> MmuView {
        let s1 = self.spec_vramdma_state();
        let gputicks = self.spec_do_cycle_ticks(ticks);
        let s2 = MmuView {
            intf: s1.intf | s1.timer.interrupt,
            timer: Timer { interrupt: 0, ..s1.timer },
            ..s1
        };
        let s3 = MmuView {
            intf: s2.intf | s2.keypad.interrupt,
            keypad: Keypad { interrupt: 0, ..s2.keypad },
            ..s2
        };
        let g = s3.gpu.spec_advance(gputicks as nat);
        let s4 = MmuView { intf: s3.intf | g.interrupt, gpu: GpuView { interrupt: 0, ..g }, ..s3 };
        MmuView {
            intf: s4.intf | s4.serial.interrupt,
            serial: SerialView { interrupt: 0, ..s4.serial },
            ..s4
        }
    }

    /// The video ticks one scheduler pass consumes: the budget divided by
    /// the speed divider, plus the resolved transfer work.
    pub open spec fn spec_do_cycle_ticks(self, ticks: u32) -> u32 {
        (ticks / self.gbspeed.spec_divider() + self.spec_vramdma_ticks()) as u32
    }

    /// State after a speed-switch commit: the speed flips only if a switch
    /// was requested, and the request is cleared either way.
    pub open spec fn spec_switch_speed(self) -> MmuView {
        MmuView {
            gbspeed: if self.speed_switch_req {
                if self.gbspeed == GbSpeed::Double {
                    GbSpeed::Single
                } else {
                    GbSpeed::Double
                }
            } else {
                self.gbspeed
            },
            speed_switch_req: false,
            ..self
        }
    }
}

impl MMU {
    /// One scheduler pass over a tick budget from the instruction stream.
    /// Returns the video ticks consumed, so the caller can keep budgets in
    /// sync.
    pub fn do_cycle(&mut self, ticks: u32) -> (r: u32)
        requires
            old(self)@.wf(),
            ticks <= 0x4000_0000,
        ensures
            final(self)@ == old(self)@.spec_do_cycle_state(ticks),
            r == old(self)@.spec_do_cycle_ticks(ticks),
            final(self)@.wf(),
    {
        proof {
            reveal(MmuView::spec_do_cycle_state);
        }
        let cpudivider = self.gbspeed.divider();
        let vramticks = self.perform_vramdma();
        let gputicks = ticks / cpudivider + vramticks;
        let cputicks = ticks + vramticks * cpudivider;

        self.timer.do_cycle(cputicks);
        self.intf |= self.timer.interrupt;
        self.timer.interrupt = 0;

        self.intf |= self.keypad.interrupt;
        self.keypad.interrupt = 0;

        self.gpu.do_cycle(gputicks);
        self.intf |= self.gpu.interrupt;
        self.gpu.interrupt = 0;

        match &mut self.sound {
            Some(s) => s.do_cycle(gputicks),
            None => {},
        }

        self.intf |= self.serial.interrupt;
        self.serial.interrupt = 0;

        gputicks
    }

    /// Commit a requested speed switch, invoked by the instruction
    /// collaborator after the relevant opcode.
    pub fn switch_speed(&mut self)
        ensures
            final(self)@ == old(self)@.spec_switch_speed(),
    {
        if self.speed_switch_req {
            if self.gbspeed == GbSpeed::Double {
                self.gbspeed = GbSpeed::Single;
            } else {
                self.gbspeed = GbSpeed::Double;
            }
        }
        self.speed_switch_req = false;
        proof {
            assert(self@ =~= old(self)@.spec_switch_speed());
        }
    }
}


/// Multiplier of the power-on scramble's linear congruential step.
pub const LCG_MUL: u32 = 1103515245;

/// Increment of the power-on scramble's linear congruential step.
pub const LCG_INC: u32 = 12345;

/// One linear congruential step, wrapping in 32 bits.
pub open spec fn spec_lcg_next(x: u32) -> u32 {
    vstd::wrapping::u32_specs::wrapping_add(
        vstd::wrapping::u32_specs::wrapping_mul(x, LCG_MUL),
        LCG_INC,
    )
}

/// The generator state after `n` steps from `seed`.
pub open spec fn spec_lcg_state(seed: u32, n: int) -> u32
    decreases n,
{
    if n <= 0 {
        seed
    } else {
        spec_lcg_next(spec_lcg_state(seed, n - 1))
    }
}

/// The scrambled byte pattern work RAM holds at power-on, from seed 42:
/// byte `i` is bits 23..30 of the generator state after `i + 1` steps.
pub open spec fn spec_wram_power_pattern() -> Seq<u8> {
    Seq::new(0x8000, |i: int| ((spec_lcg_state(42, i + 1) >> 23) & 0xFF) as u8)
}

/// A pseudo-random byte buffer from the linear congruential generator;
/// real hardware leaves work RAM scrambled at power-on.
fn fill_random(len: usize, start: u32) -> (r: Vec<u8>)
    ensures
        r@.len() == len,
        forall|i: int| 0 <= i < len ==> r@[i] == ((spec_lcg_state(start, i + 1) >> 23) & 0xFF) as u8,
{
    let mut v: Vec<u8> = Vec::new();
    let mut x = start;
    let mut i: usize = 0;
    while i < len
        invariant
            i <= len,
            v@.len() == i,
            x == spec_lcg_state(start, i as int),
            forall|j: int|
                0 <= j < i ==> v@[j] == ((spec_lcg_state(start, j + 1) >> 23) & 0xFF) as u8,
        decreases len - i,
    {
        x = x.wrapping_mul(LCG_MUL).wrapping_add(LCG_INC);
        proof {
            assert((x >> 23) & 0xFF < 0x100) by (bit_vector);
        }
        v.push(((x >> 23) & 0xFF) as u8);
        i += 1;
    }
    v
}

impl MmuView {
    /// The bus state at power-on, before the I/O defaults are written:
    /// work RAM scrambled, bank 1 selected, no transfer pending, all
    /// interrupt state clear.
    pub open spec fn spec_power_on(cart: CartridgeView, linked: bool, gpu: GpuView) -> MmuView {
        MmuView {
            wram: spec_wram_power_pattern(),
            zram: Seq::new(0x7F, |i: int| 0u8),
            hdma: Seq::new(4, |i: int| 0u8),
            inte: 0,
            intf: 0,
            serial: SerialView { data: 0, control: 0, interrupt: 0, linked },
            timer: Timer { div: 0, tima: 0, tma: 0, tac: 0, interrupt: 0 },
            keypad: Keypad { row0: 0x0F, row1: 0x0F, data: 0xFF, interrupt: 0 },
            gpu,
            sound: None,
            hdma_status: DMAType::NoDMA,
            hdma_src: 0,
            hdma_dst: 0,
            hdma_len: 0xFF,
            wrambank: 1,
            mbc: cart,
            gbmode: gpu.gbmode,
            gbspeed: GbSpeed::Single,
            speed_switch_req: false,
            undoc: Seq::new(3, |i: int| 0u8),
            mirror: Seq::new(0x68, |i: int| 0u8),
            frame_counter: 0,
        }
    }

    /// The power-on I/O defaults, written through the bus in order.
    pub open spec fn spec_set_initial(self) -> MmuView {
        self.spec_write(0xFF05, 0).spec_write(0xFF06, 0).spec_write(0xFF07, 0).spec_write(
            0xFF10,
            0x80,
        ).spec_write(0xFF11, 0xBF).spec_write(0xFF12, 0xF3).spec_write(0xFF14, 0xBF).spec_write(
            0xFF16,
            0x3F,
        ).spec_write(0xFF16, 0x3F).spec_write(0xFF17, 0).spec_write(0xFF19, 0xBF).spec_write(
            0xFF1A,
            0x7F,
        ).spec_write(0xFF1B, 0xFF).spec_write(0xFF1C, 0x9F).spec_write(0xFF1E, 0xFF).spec_write(
            0xFF20,
            0xFF,
        ).spec_write(0xFF21, 0).spec_write(0xFF22, 0).spec_write(0xFF23, 0xBF).spec_write(
            0xFF24,
            0x77,
        ).spec_write(0xFF25, 0xF3).spec_write(0xFF26, 0xF1).spec_write(0xFF40, 0x91).spec_write(
            0xFF42,
            0,
        ).spec_write(0xFF43, 0).spec_write(0xFF45, 0).spec_write(0xFF47, 0xFC).spec_write(
            0xFF48,
            0xFF,
        ).spec_write(0xFF49, 0xFF).spec_write(0xFF4A, 0).spec_write(0xFF4B, 0)
    }

    /// The mode the cartridge header selects on color hardware: color when
    /// the header requests it, otherwise color hardware behaving classic.
    pub open spec fn spec_determine_mode(self) -> MmuView {
        let mode = if self.mbc.rom[0x0143] & 0x80 == 0x80 {
            GbMode::Color
        } else {
            GbMode::ColorAsClassic
        };
        MmuView { gbmode: mode, gpu: GpuView { gbmode: mode, ..self.gpu }, ..self }
    }

    /// One mirror derivation: the frame counter steps (wrapping in 32
    /// bits) and the buffer is rebuilt from working memory and high RAM.
    /// Opaque: callers compose it as one step; `MMU::write_mirror` proves
    /// it.
    #[verifier::opaque]
    pub open spec fn spec_write_mirror(self) -> MmuView {
        let c = vstd::wrapping::u32_specs::wrapping_add(self.frame_counter, 1);
        MmuView {
            frame_counter: c,
            mirror: crate::mirror::spec_mirror(self.wram, self.zram, c),
            ..self
        }
    }

    /// Reset to power-on storage: work RAM, video RAM and object memory
    /// cleared and the keypad fresh; registers, cartridge and counters keep
    /// their values.
    pub open spec fn spec_reset(self) -> MmuView {
        MmuView {
            wram: Seq::new(0x8000, |i: int| 0u8),
            gpu: GpuView {
                vram: Seq::new(0x4000, |i: int| 0u8),
                oam: Seq::new(0xA0, |i: int| 0u8),
                ..self.gpu
            },
            keypad: Keypad { row0: 0x0F, row1: 0x0F, data: 0xFF, interrupt: 0 },
            ..self
        }
    }
}

impl MMU {
    /// Power on in classic mode.  A cartridge whose header demands color
    /// hardware is rejected; otherwise the I/O defaults are written and
    /// the bus is ready.
    pub fn new(cart: Cartridge, serial_callback: Option<Box<dyn SerialCallback>>) -> (r:
        StrResult<MMU>)
        requires
            cart@.wf(),
        ensures
            cart@.rom[0x0143] == 0xC0 ==> r == StrResult::<MMU>::Err(
                "This game does not work in Classic mode",
            ),
            cart@.rom[0x0143] != 0xC0 ==> (r matches Ok(m) && m@.wf() && m@
                == MmuView::spec_power_on(
                cart@,
                serial_callback is Some,
                GpuView::spec_power_on(GbMode::Classic),
            ).spec_set_initial() && m@.gbmode == GbMode::Classic),
    {
        let serial = match serial_callback {
            Some(cb) => Serial::new_with_callback(cb),
            None => Serial::new(),
        };
        let mut res = MMU {
            wram: fill_random(0x8000, 42),
            zram: crate::zero_vec(0x7F),
            hdma: crate::zero_vec(4),
            wrambank: 1,
            inte: 0,
            intf: 0,
            serial,
            timer: Timer::new(),
            keypad: Keypad::new(),
            gpu: GPU::new(),
            sound: None,
            mbc: cart,
            gbmode: GbMode::Classic,
            gbspeed: GbSpeed::Single,
            speed_switch_req: false,
            hdma_src: 0,
            hdma_dst: 0,
            hdma_status: DMAType::NoDMA,
            hdma_len: 0xFF,
            undocumented_cgb_regs: crate::zero_vec(3),
            wram_mirror: crate::zero_vec(0x68),
            frame_counter: 0,
        };
        proof {
            assert(res@ =~= MmuView::spec_power_on(res@.mbc, res@.serial.linked, res@.gpu));
        }
        if res.rb(0x0143) == 0xC0 {
            return Err("This game does not work in Classic mode");
        }
        res.set_initial();
        Ok(res)
    }

    /// Power on on color hardware; the header picks color or
    /// classic-compatible behaviour.
    pub fn new_cgb(cart: Cartridge, serial_callback: Option<Box<dyn SerialCallback>>) -> (r:
        StrResult<MMU>)
        requires
            cart@.wf(),
        ensures
            (r matches Ok(m) && m@.wf() && m@ == MmuView::spec_power_on(
                cart@,
                serial_callback is Some,
                GpuView::spec_power_on(GbMode::Color),
            ).spec_determine_mode().spec_set_initial()),
    {
        let serial = match serial_callback {
            Some(cb) => Serial::new_with_callback(cb),
            None => Serial::new(),
        };
        let mut res = MMU {
            wram: fill_random(0x8000, 42),
            zram: crate::zero_vec(0x7F),
            hdma: crate::zero_vec(4),
            wrambank: 1,
            inte: 0,
            intf: 0,
            serial,
            timer: Timer::new(),
            keypad: Keypad::new(),
            gpu: GPU::new_cgb(),
            sound: None,
            mbc: cart,
            gbmode: GbMode::Color,
            gbspeed: GbSpeed::Single,
            speed_switch_req: false,
            hdma_src: 0,
            hdma_dst: 0,
            hdma_status: DMAType::NoDMA,
            hdma_len: 0xFF,
            undocumented_cgb_regs: crate::zero_vec(3),
            wram_mirror: crate::zero_vec(0x68),
            frame_counter: 0,
        };
        proof {
            assert(res@ =~= MmuView::spec_power_on(res@.mbc, res@.serial.linked, res@.gpu));
        }
        res.determine_mode();
        res.set_initial();
        Ok(res)
    }

    fn determine_mode(&mut self)
        requires
            old(self)@.wf(),
        ensures
            final(self)@ == old(self)@.spec_determine_mode(),
            final(self)@.wf(),
    {
        let header = self.rb(0x0143);
        let mode = if header & 0x80 == 0x80 {
            GbMode::Color
        } else {
            GbMode::ColorAsClassic
        };
        self.gbmode = mode;
        self.gpu.gbmode = mode;
    }

    #[verifier::rlimit(100)]
    #[verifier::spinoff_prover]
    fn set_initial(&mut self)
        requires
            old(self)@.wf(),
        ensures
            final(self)@ == old(self)@.spec_set_initial(),
            final(self)@.wf(),
    {
        self.wb(0xFF05, 0);
        self.wb(0xFF06, 0);
        self.wb(0xFF07, 0);
        self.wb(0xFF10, 0x80);
        self.wb(0xFF11, 0xBF);
        self.wb(0xFF12, 0xF3);
        self.wb(0xFF14, 0xBF);
        self.wb(0xFF16, 0x3F);
        self.wb(0xFF16, 0x3F);
        self.wb(0xFF17, 0);
        self.wb(0xFF19, 0xBF);
        self.wb(0xFF1A, 0x7F);
        self.wb(0xFF1B, 0xFF);
        self.wb(0xFF1C, 0x9F);
        self.wb(0xFF1E, 0xFF);
        self.wb(0xFF20, 0xFF);
        self.wb(0xFF21, 0);
        self.wb(0xFF22, 0);
        self.wb(0xFF23, 0xBF);
        self.wb(0xFF24, 0x77);
        self.wb(0xFF25, 0xF3);
        self.wb(0xFF26, 0xF1);
        self.wb(0xFF40, 0x91);
        self.wb(0xFF42, 0);
        self.wb(0xFF43, 0);
        self.wb(0xFF45, 0);
        self.wb(0xFF47, 0xFC);
        self.wb(0xFF48, 0xFF);
        self.wb(0xFF49, 0xFF);
        self.wb(0xFF4A, 0);
        self.wb(0xFF4B, 0);
    }

    /// Derive the mirror snapshot for this frame: the counter steps and
    /// the whole buffer is rebuilt in one piece, so a reader positioned
    /// between frames never sees a partial write.
    pub fn write_mirror(&mut self)
        requires
            old(self)@.wf(),
        ensures
            final(self)@ == old(self)@.spec_write_mirror(),
            final(self)@.wf(),
    {
        proof {
            reveal(MmuView::spec_write_mirror);
        }
        self.frame_counter = self.frame_counter.wrapping_add(1);
        let m = crate::mirror::derive(&self.wram, &self.zram, self.frame_counter);
        self.wram_mirror = m;
        proof {
            assert(self@ =~= old(self)@.spec_write_mirror());
        }
    }

    /// The last derived mirror buffer.
    pub fn get_mirror(&self) -> (r: &Vec<u8>)
        ensures
            r@ == self@.mirror,
    {
        &self.wram_mirror
    }

    /// Best-effort reset to power-on storage: memories cleared, keypad
    /// fresh; everything else keeps its value.
    pub fn reset(&mut self)
        requires
            old(self)@.wf(),
        ensures
            final(self)@ == old(self)@.spec_reset(),
            final(self)@.wf(),
    {
        self.wram = crate::zero_vec(0x8000);
        self.gpu.vram = crate::zero_vec(0x4000);
        self.gpu.oam = crate::zero_vec(0xA0);
        self.keypad = Keypad::new();
        proof {
            assert(self@ =~= old(self)@.spec_reset());
        }
    }
}


/// Bank invariant: a bank-select write with value `v` (visible in color
/// mode) makes the effective bank 1 when `v & 7 == 0` and `v & 7`
/// otherwise, and every read through the banked window then resolves to
/// that bank's slice of working memory.
pub proof fn lemma_bank_select(s: MmuView, v: u8, a: u16)
    requires
        s.gbmode == GbMode::Color,
        0xD000 <= a <= 0xDFFF,
    ensures
        ({
            let t = s.spec_write(0xFF70, v);
            &&& t.wrambank == if v & 7 == 0 {
                1int
            } else {
                (v & 7) as int
            }
            &&& t.spec_read(a) == t.wram[t.wrambank * 0x1000 + (a & 0x0FFF)]
            &&& forall|b: u8|
                t.spec_write(a, b).wram == t.wram.update(t.wrambank * 0x1000 + (a & 0x0FFF), b)
        }),
{
    assert(v & 7 < 8) by (bit_vector);
}

/// Echo equivalence: every address in the fixed work-RAM window reads the
/// same byte as its echo 0x2000 above it, and the banked window echoes
/// likewise as far as the echo region reaches (0xFDFF, so banked addresses
/// up to 0xDDFF).
pub proof fn lemma_echo_equivalence(s: MmuView, a: u16)
    ensures
        0xC000 <= a <= 0xCFFF ==> s.spec_read(a) == s.spec_read((a + 0x2000) as u16),
        0xD000 <= a <= 0xDDFF ==> s.spec_read(a) == s.spec_read((a + 0x2000) as u16),
{
    if 0xC000 <= a && a <= 0xDDFF {
        assert(a & 0x0FFF == (a + 0x2000) as u16 & 0x0FFF) by (bit_vector)
            requires
                0xC000 <= a && a <= 0xDDFF,
        ;
    }
}

/// One-shot transfer row count: with length byte `L` latched (already
/// masked to its low seven bits), resolving the transfer copies exactly
/// `L + 1` sixteen-byte rows — the source pointer advances sixteen bytes
/// per row — consumes eight ticks per row, and the control register
/// reports "no transfer active" immediately after.
pub proof fn lemma_gdma_row_count(s: MmuView)
    requires
        s.wf(),
        s.hdma_status == DMAType::GDMA,
    ensures
        s.spec_vramdma_state().hdma_status == DMAType::NoDMA,
        s.spec_vramdma_ticks() == 8 * (s.hdma_len + 1),
        s.spec_vramdma_state().hdma_src == s.hdma_src + 16 * (s.hdma_len + 1),
        s.spec_vramdma_state().spec_hdma_read(0xFF55) == 0xFF,
{
    lemma_gdma_rows_advance(s, s.hdma_len + 1);
    let t = s.spec_vramdma_state();
    let tl = t.hdma_len;
    assert(tl == 0x7F);
    assert(tl | 0x80 == 0xFF) by (bit_vector)
        requires
            tl == 0x7F,
    ;
}

/// Each transfer row moves the source pointer sixteen bytes; `n` rows from
/// remaining length `n - 1` end with the length counter wrapped to its
/// sentinel.
proof fn lemma_gdma_rows_advance(s: MmuView, n: int)
    requires
        0 <= n <= s.hdma_len + 1,
        s.hdma_len <= 0x7F,
        s.hdma_src + 16 * (s.hdma_len + 1) <= 0xE7F0,
        s.hdma_dst + 16 * (s.hdma_len + 1) <= 0xB000,
    ensures
        ({
            let r = s.spec_gdma_rows(n);
            &&& r.hdma_src == s.hdma_src + 16 * n
            &&& r.hdma_dst == s.hdma_dst + 16 * n
            &&& r.hdma_len == if n <= s.hdma_len {
                s.hdma_len - n
            } else {
                0x7F
            }
            &&& r.hdma_status == s.hdma_status
        }),
    decreases n,
{
    if n > 0 {
        lemma_gdma_rows_advance(s, n - 1);
        let prev = s.spec_gdma_rows(n - 1);
        prev.lemma_row_upto_frame(prev.hdma_src, prev.hdma_dst, 16);
    }
}

/// Blanking transfer pacing: while a blanking transfer is pending, one
/// scheduler resolution copies exactly one sixteen-byte row when the video
/// unit accepts one (eight ticks), and nothing otherwise.
pub proof fn lemma_hdma_row_per_blank(s: MmuView)
    requires
        s.wf(),
        s.hdma_status == DMAType::HDMA,
    ensures
        s.gpu.spec_may_hdma() ==> s.spec_vramdma_ticks() == 8 && s.spec_vramdma_state().hdma_src
            == s.hdma_src + 16,
        !s.gpu.spec_may_hdma() ==> s.spec_vramdma_state() == s && s.spec_vramdma_ticks() == 0,
{
    if s.gpu.spec_may_hdma() {
        s.lemma_row_upto_frame(s.hdma_src, s.hdma_dst, 16);
    }
}

/// Blanking transfer pacing at the scheduler: a whole scheduler pass over
/// any tick budget performs exactly one row of a pending blanking transfer
/// when the video unit accepts one, and none otherwise.
pub proof fn lemma_advance_blanking_row(s: MmuView, ticks: u32)
    requires
        s.wf(),
        s.hdma_status == DMAType::HDMA,
        ticks <= 0x4000_0000,
    ensures
        s.gpu.spec_may_hdma() ==> s.spec_do_cycle_state(ticks).hdma_src == s.hdma_src + 16
            && s.spec_do_cycle_ticks(ticks) == ticks / s.gbspeed.spec_divider() + 8,
        !s.gpu.spec_may_hdma() ==> s.spec_do_cycle_state(ticks).hdma_src == s.hdma_src
            && s.spec_do_cycle_ticks(ticks) == ticks / s.gbspeed.spec_divider(),
{
    reveal(MmuView::spec_do_cycle_state);
    lemma_hdma_row_per_blank(s);
}

/// The mirror derivation touches only the frame counter and the buffer:
/// every other field of the bus rides along unchanged.
pub proof fn lemma_write_mirror_frame(s: MmuView)
    ensures
        ({
            let t = s.spec_write_mirror();
            t == (MmuView { frame_counter: t.frame_counter, mirror: t.mirror, ..s })
        }),
{
    reveal(MmuView::spec_write_mirror);
}

/// Mirror determinism: deriving the snapshot twice over unchanged working
/// memory yields identical bytes except in the frame-counter field, which
/// steps by exactly one per derivation (wrapping in 32 bits).
pub proof fn lemma_mirror_determinism(s: MmuView)
    ensures
        ({
            let once = s.spec_write_mirror();
            let twice = once.spec_write_mirror();
            &&& forall|i: int| 0x004 <= i < 0x68 ==> twice.mirror[i] == once.mirror[i]
            &&& once.frame_counter == vstd::wrapping::u32_specs::wrapping_add(s.frame_counter, 1)
            &&& twice.frame_counter == vstd::wrapping::u32_specs::wrapping_add(
                once.frame_counter,
                1,
            )
            &&& twice.wram == once.wram
        }),
{
    reveal(MmuView::spec_write_mirror);
    let once = s.spec_write_mirror();
    let twice = once.spec_write_mirror();
    crate::mirror::lemma_mirror_deterministic(
        s.wram,
        s.zram,
        once.frame_counter,
        twice.frame_counter,
    );
}

/// Mode gating: in classic mode the color-only registers — the video-RAM
/// bank select, the work-RAM bank select, the undocumented block — read
/// 0xFF and drop writes; in color mode the bank-select and undocumented
/// registers round-trip written values.
pub proof fn lemma_mode_gating(s: MmuView, v: u8)
    requires
        s.sizes_ok(),
    ensures
        s.gbmode == GbMode::Classic ==> s.spec_read(0xFF4F) == 0xFF && s.spec_read(0xFF70) == 0xFF
            && s.spec_read(0xFF72) == 0xFF && s.spec_write(0xFF4F, v) == s && s.spec_write(
            0xFF70,
            v,
        ) == s && s.spec_write(0xFF72, v) == s,
        s.gbmode == GbMode::Color ==> s.spec_write(0xFF4F, v).spec_read(0xFF4F) == v
            && s.spec_write(0xFF72, v).spec_read(0xFF72) == v,
{
}

/// Reset idempotence: resetting twice in a row gives exactly the state of
/// one reset, from any prior state.
pub proof fn lemma_reset_idempotent(s: MmuView)
    ensures
        s.spec_reset().spec_reset() == s.spec_reset(),
{
    assert(s.spec_reset().spec_reset() =~~= s.spec_reset());
}

} // verus!
