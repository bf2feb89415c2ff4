//! The top-level session aggregate: it owns the bus with every peripheral
//! and drives whole video frames.  Instruction fetch, decode and execution
//! belong to an external collaborator; the session advances the machine in
//! fixed nominal instruction slots in its place, so the scheduling, DMA and
//! mirror logic below are exercised exactly as a real instruction stream
//! would, one tick budget at a time.

use vstd::prelude::*;

use crate::gbmode::GbMode;
use crate::keypad::KeypadKey;
use crate::mbc;
use crate::mmu::{MmuView, MMU};
use crate::serial::SerialCallback;
use crate::sound::Sound;
use crate::StrResult;

verus! {

/// The tick budget of one nominal instruction slot, in place of the
/// out-of-scope instruction collaborator's per-instruction counts.
pub const STEP_TICKS: u32 = 4;

pub struct Device {
    pub mmu: MMU,
    pub save_state: Option<String>,
}

impl MmuView {
    /// One frame-driving slot, as `Device::step_frame` iterates it: one
    /// scheduler pass over the nominal budget, the blanking edge consumed
    /// (with the mirror derived exactly when the edge was up), and the
    /// frame-ready flag read off and cleared.
    pub open spec fn spec_frame_slot(self) -> MmuView {
        let stepped = self.spec_do_cycle_state(STEP_TICKS);
        let cleared = MmuView {
            gpu: crate::gpu::GpuView { vblank_edge: false, ..stepped.gpu },
            ..stepped
        };
        let mirrored = if stepped.gpu.vblank_edge {
            cleared.spec_write_mirror()
        } else {
            cleared
        };
        MmuView { gpu: crate::gpu::GpuView { updated: false, ..mirrored.gpu }, ..mirrored }
    }

    /// Whether the slot ends with a complete frame on display: the
    /// frame-ready flag as the slot reads it, before consuming it.
    pub open spec fn spec_frame_ready(self) -> bool {
        self.spec_do_cycle_state(STEP_TICKS).gpu.updated
    }

    /// `n` frame-driving slots in sequence.
    pub open spec fn spec_frame_run(self, n: int) -> MmuView
        decreases n,
    {
        if n <= 0 {
            self
        } else {
            self.spec_frame_run(n - 1).spec_frame_slot()
        }
    }
}

impl Device {
    pub open spec fn wf(self) -> bool {
        self.mmu@.wf()
    }

    /// Build a classic-mode session from a ROM image already in memory.
    pub fn new_from_buffer(romdata: Vec<u8>, skip_checksum: bool, save_state: Option<String>) -> (r:
        StrResult<Device>)
        ensures
            (r matches Ok(d) ==> d.wf() && d.mmu@.gbmode == GbMode::Classic && d.mmu@.mbc.rom
                == romdata@ && d.mmu@.mbc.ram.len() == mbc::spec_ram_size(romdata@[0x149])
                && d.mmu@.mbc.battery == mbc::spec_battery_backed(romdata@[0x147]) && d.mmu@
                == MmuView::spec_power_on(
                d.mmu@.mbc,
                false,
                crate::gpu::GpuView::spec_power_on(GbMode::Classic),
            ).spec_set_initial() && d.save_state == save_state),
            romdata@.len() < 0x150 ==> r is Err,
            romdata@.len() >= 0x150 && !skip_checksum && mbc::spec_header_checksum(romdata@)
                != romdata@[0x14D] ==> r is Err,
            romdata@.len() >= 0x150 && (skip_checksum || mbc::spec_header_checksum(romdata@)
                == romdata@[0x14D]) && romdata@[0x0143] == 0xC0 ==> r is Err,
            romdata@.len() >= 0x150 && (skip_checksum || mbc::spec_header_checksum(romdata@)
                == romdata@[0x14D]) && romdata@[0x0143] != 0xC0 ==> r is Ok,
    {
        let cart = match mbc::get_mbc(romdata, skip_checksum) {
            Ok(c) => c,
            Err(e) => {
                return Err(e);
            },
        };
        match MMU::new(cart, None) {
            Ok(mmu) => Ok(Device { mmu, save_state }),
            Err(e) => Err(e),
        }
    }

    /// Build a color-hardware session from a ROM image already in memory.
    pub fn new_cgb_from_buffer(
        romdata: Vec<u8>,
        skip_checksum: bool,
        save_state: Option<String>,
    ) -> (r: StrResult<Device>)
        ensures
            (r matches Ok(d) ==> d.wf() && d.mmu@.mbc.rom == romdata@ && d.mmu@.mbc.ram.len()
                == mbc::spec_ram_size(romdata@[0x149]) && d.mmu@.mbc.battery
                == mbc::spec_battery_backed(romdata@[0x147]) && d.mmu@
                == MmuView::spec_power_on(
                d.mmu@.mbc,
                false,
                crate::gpu::GpuView::spec_power_on(GbMode::Color),
            ).spec_determine_mode().spec_set_initial() && d.save_state == save_state),
            romdata@.len() < 0x150 ==> r is Err,
            romdata@.len() >= 0x150 && !skip_checksum && mbc::spec_header_checksum(romdata@)
                != romdata@[0x14D] ==> r is Err,
            romdata@.len() >= 0x150 && (skip_checksum || mbc::spec_header_checksum(romdata@)
                == romdata@[0x14D]) ==> r is Ok,
    {
        let cart = match mbc::get_mbc(romdata, skip_checksum) {
            Ok(c) => c,
            Err(e) => {
                return Err(e);
            },
        };
        match MMU::new_cgb(cart, None) {
            Ok(mmu) => Ok(Device { mmu, save_state }),
            Err(e) => Err(e),
        }
    }

    /// Advance the machine by one nominal instruction slot, returning the
    /// video ticks consumed.
    pub fn do_cycle(&mut self) -> (r: u32)
        requires
            old(self).wf(),
        ensures
            final(self).wf(),
            final(self).mmu@ == old(self).mmu@.spec_do_cycle_state(STEP_TICKS),
            r == old(self).mmu@.spec_do_cycle_ticks(STEP_TICKS),
            final(self).save_state == old(self).save_state,
    {
        self.mmu.do_cycle(STEP_TICKS)
    }

    /// Attach a byte-exchange callback to the serial link.
    pub fn set_serial_callback(&mut self, cb: Box<dyn SerialCallback>)
        requires
            old(self).wf(),
        ensures
            final(self).wf(),
            final(self).mmu@ == (MmuView { serial: final(self).mmu@.serial, ..old(self).mmu@ }),
            final(self).mmu@.serial.linked,
            final(self).mmu@.serial.data == old(self).mmu@.serial.data,
            final(self).mmu@.serial.control == old(self).mmu@.serial.control,
            final(self).mmu@.serial.interrupt == old(self).mmu@.serial.interrupt,
            final(self).save_state == old(self).save_state,
    {
        self.mmu.serial.set_callback(cb);
        proof {
            assert(self.mmu@ =~= (MmuView { serial: self.mmu@.serial, ..old(self).mmu@ }));
        }
    }

    /// Detach the serial callback.
    pub fn unset_serial_callback(&mut self)
        requires
            old(self).wf(),
        ensures
            final(self).wf(),
            final(self).mmu@ == (MmuView { serial: final(self).mmu@.serial, ..old(self).mmu@ }),
            !final(self).mmu@.serial.linked,
            final(self).mmu@.serial.data == old(self).mmu@.serial.data,
            final(self).mmu@.serial.control == old(self).mmu@.serial.control,
            final(self).mmu@.serial.interrupt == old(self).mmu@.serial.interrupt,
            final(self).save_state == old(self).save_state,
    {
        self.mmu.serial.unset_callback();
        proof {
            assert(self.mmu@ =~= (MmuView { serial: self.mmu@.serial, ..old(self).mmu@ }));
        }
    }

    /// Report and clear the "frame rendered" flag.
    pub fn check_and_reset_gpu_updated(&mut self) -> (r: bool)
        requires
            old(self).wf(),
        ensures
            final(self).wf(),
            r == old(self).mmu@.gpu.updated,
            final(self).mmu@ == (MmuView {
                gpu: crate::gpu::GpuView { updated: false, ..old(self).mmu@.gpu },
                ..old(self).mmu@
            }),
            final(self).save_state == old(self).save_state,
    {
        let result = self.mmu.gpu.updated;
        self.mmu.gpu.updated = false;
        proof {
            assert(self.mmu@ =~= (MmuView {
                gpu: crate::gpu::GpuView { updated: false, ..old(self).mmu@.gpu },
                ..old(self).mmu@
            }));
        }
        result
    }

    /// The rendered frame image buffer (pixel rendering itself is out of
    /// scope; the buffer is the video collaborator's to fill).
    pub fn get_gpu_data(&self) -> (r: &Vec<u8>)
        ensures
            r@ == self.mmu@.gpu.data,
    {
        &self.mmu.gpu.data
    }

    /// Give the session a sound register block, matching the hardware
    /// flavour of the current mode, and switch it on if asked.
    pub fn enable_audio(&mut self, is_on: bool)
        requires
            old(self).wf(),
        ensures
            final(self).wf(),
            final(self).mmu@ == (MmuView { sound: final(self).mmu@.sound, ..old(self).mmu@ }),
            (final(self).mmu@.sound matches Some(s) && s.wf() && s.on == is_on && forall|i: int|
                0 <= i < 0x30 ==> s.regs[i] == 0),
            final(self).save_state == old(self).save_state,
    {
        let ghost pre = self.mmu@;
        match self.mmu.gbmode {
            GbMode::Classic => {
                self.mmu.sound = Some(Sound::new_dmg());
            },
            GbMode::Color | GbMode::ColorAsClassic => {
                self.mmu.sound = Some(Sound::new_cgb());
            },
        }
        if is_on {
            match &mut self.mmu.sound {
                Some(sound) => sound.set_on(),
                None => {},
            }
        }
        proof {
            assert(self.mmu@ =~= (MmuView { sound: self.mmu@.sound, ..pre }));
        }
    }

    /// Flush point for an audio backend; nothing is buffered in this model.
    pub fn sync_audio(&mut self)
        ensures
            *final(self) == *old(self),
    {
        match &mut self.mmu.sound {
            Some(sound) => sound.sync(),
            None => {},
        }
    }

    pub fn keyup(&mut self, key: KeypadKey)
        ensures
            final(self).mmu@ == (MmuView {
                keypad: old(self).mmu@.keypad.spec_keyup(key),
                ..old(self).mmu@
            }),
            old(self).wf() ==> final(self).wf(),
            old(self).mmu@.keypad.wf() ==> final(self).mmu@.keypad.wf(),
            final(self).save_state == old(self).save_state,
    {
        self.mmu.keypad.keyup(key);
        proof {
            assert(self.mmu@ =~= (MmuView {
                keypad: old(self).mmu@.keypad.spec_keyup(key),
                ..old(self).mmu@
            }));
        }
    }

    pub fn keydown(&mut self, key: KeypadKey)
        ensures
            final(self).mmu@ == (MmuView {
                keypad: old(self).mmu@.keypad.spec_keydown(key),
                ..old(self).mmu@
            }),
            old(self).wf() ==> final(self).wf(),
            old(self).mmu@.keypad.wf() ==> final(self).mmu@.keypad.wf(),
            final(self).save_state == old(self).save_state,
    {
        self.mmu.keypad.keydown(key);
        proof {
            assert(self.mmu@ =~= (MmuView {
                keypad: old(self).mmu@.keypad.spec_keydown(key),
                ..old(self).mmu@
            }));
        }
    }

    /// The cartridge title from its header.
    pub fn romname(&self) -> (r: String)
        requires
            self.wf(),
        ensures
            r@ == mbc::spec_romname(self.mmu@.mbc.rom),
    {
        self.mmu.mbc.romname()
    }

    /// Replace the cartridge's external RAM from a saved image.
    pub fn loadram(&mut self, ramdata: &[u8]) -> (r: StrResult<()>)
        requires
            old(self).wf(),
        ensures
            final(self).wf(),
            ramdata@.len() != old(self).mmu@.mbc.ram.len() ==> r is Err && *final(self) == *old(
                self,
            ),
            ramdata@.len() == old(self).mmu@.mbc.ram.len() ==> r is Ok && final(self).mmu@.mbc.ram
                == ramdata@,
            final(self).save_state == old(self).save_state,
    {
        let r = self.mmu.mbc.loadram(ramdata);
        r
    }

    /// A copy of the cartridge's external RAM.
    pub fn dumpram(&self) -> (r: Vec<u8>)
        ensures
            r@ == self.mmu@.mbc.ram,
    {
        self.mmu.mbc.dumpram()
    }

    pub fn ram_is_battery_backed(&self) -> (r: bool)
        ensures
            r == self.mmu@.mbc.battery,
    {
        self.mmu.mbc.is_battery_backed()
    }

    /// Report and clear the cartridge RAM dirty flag.
    pub fn check_and_reset_ram_updated(&mut self) -> (r: bool)
        requires
            old(self).wf(),
        ensures
            final(self).wf(),
            r == old(self).mmu@.mbc.ram_updated,
            final(self).mmu@.mbc.ram == old(self).mmu@.mbc.ram,
            !final(self).mmu@.mbc.ram_updated,
            final(self).save_state == old(self).save_state,
    {
        self.mmu.mbc.check_and_reset_ram_updated()
    }

    /// Read one byte from the bus.
    pub fn read_byte(&self, address: u16) -> (r: u8)
        requires
            self.wf(),
        ensures
            r == self.mmu@.spec_read(address),
    {
        self.mmu.rb(address)
    }

    /// Write one byte to the bus.
    pub fn write_byte(&mut self, address: u16, byte: u8)
        requires
            old(self).wf(),
            old(self).mmu@.spec_write_ok(address, byte),
        ensures
            final(self).wf(),
            address != 0xFF02 ==> final(self).mmu@ == old(self).mmu@.spec_write(address, byte),
            final(self).save_state == old(self).save_state,
    {
        self.mmu.wb(address, byte)
    }

    /// Read a 16-bit value, little-endian.
    pub fn read_wide(&self, address: u16) -> (r: u16)
        requires
            self.wf(),
            address < 0xFFFF,
        ensures
            r == self.mmu@.spec_read_wide(address),
    {
        self.mmu.rw(address)
    }

    /// Write a 16-bit value, little-endian.
    pub fn write_wide(&mut self, address: u16, word: u16)
        requires
            old(self).wf(),
            address < 0xFFFF,
            old(self).mmu@.spec_write_ok(address, (word & 0xFF) as u8),
            old(self).mmu@.spec_write(address, (word & 0xFF) as u8).spec_write_ok(
                (address + 1) as u16,
                (word >> 8) as u8,
            ),
        ensures
            final(self).wf(),
            address != 0xFF01 && address != 0xFF02 ==> final(self).mmu@ == old(
                self,
            ).mmu@.spec_write(address, (word & 0xFF) as u8).spec_write(
                (address + 1) as u16,
                (word >> 8) as u8,
            ),
            final(self).save_state == old(self).save_state,
    {
        self.mmu.ww(address, word)
    }

    /// If the video unit just entered its blanking phase, derive the mirror
    /// snapshot for this frame — exactly once per blanking edge.
    pub fn maybe_write_mirror(&mut self)
        requires
            old(self).wf(),
        ensures
            final(self).wf(),
            ({
                let cleared = MmuView {
                    gpu: crate::gpu::GpuView { vblank_edge: false, ..old(self).mmu@.gpu },
                    ..old(self).mmu@
                };
                final(self).mmu@ == if old(self).mmu@.gpu.vblank_edge {
                    cleared.spec_write_mirror()
                } else {
                    cleared
                }
            }),
            final(self).save_state == old(self).save_state,
    {
        let ghost pre = self.mmu@;
        let edge = self.mmu.gpu.take_vblank();
        proof {
            assert(self.mmu@ =~= (MmuView {
                gpu: crate::gpu::GpuView { vblank_edge: false, ..pre.gpu },
                ..pre
            }));
        }
        if edge {
            self.mmu.write_mirror();
        }
    }

    /// Load the current press mask into the keypad, raising the input
    /// interrupt on a released-to-pressed edge.
    pub fn set_joypad_mask(&mut self, mask: u8)
        ensures
            final(self).mmu@ == (MmuView {
                keypad: old(self).mmu@.keypad.spec_set_mask(mask),
                ..old(self).mmu@
            }),
            old(self).wf() ==> final(self).wf(),
            old(self).mmu@.keypad.wf() ==> final(self).mmu@.keypad.wf(),
            final(self).save_state == old(self).save_state,
    {
        self.mmu.keypad.set_mask(mask);
        proof {
            assert(self.mmu@ =~= (MmuView {
                keypad: old(self).mmu@.keypad.spec_set_mask(mask),
                ..old(self).mmu@
            }));
        }
    }

    /// Reset to a clean power-on state: memories cleared, keypad fresh.
    pub fn reset(&mut self)
        requires
            old(self).wf(),
        ensures
            final(self).wf(),
            final(self).mmu@ == old(self).mmu@.spec_reset(),
            final(self).save_state == old(self).save_state,
    {
        self.mmu.reset();
    }

    /// A copy of the current mirror snapshot.
    pub fn get_mirror(&self) -> (r: Vec<u8>)
        ensures
            r@ == self.mmu@.mirror,
    {
        self.mmu.get_mirror().clone()
    }

    /// Run frame-driving slots until the video unit reports a complete
    /// frame, deriving the mirror snapshot at each blanking edge on the
    /// way, and hand back a copy of the frame image.  The contract pins the
    /// loop itself: the final state is the iterate of `spec_frame_slot` at
    /// the first slot that sees the frame-ready flag, with that flag
    /// consumed.  Blanking arrives at a fixed cadence — a frame spans 154
    /// lines of 456 ticks and every slot advances the video clock — so the
    /// generous slot bound below is never the reason this returns; it only
    /// bounds the loop for the prover.
    pub fn step_frame(&mut self) -> (r: Vec<u8>)
        requires
            old(self).wf(),
        ensures
            final(self).wf(),
            final(self).save_state == old(self).save_state,
            r@ == final(self).mmu@.gpu.data,
            !final(self).mmu@.gpu.updated,
            exists|n: int|
                {
                    &&& 0 <= n <= 0x3FFFF
                    &&& (forall|k: int|
                        0 <= k < n ==> !(#[trigger] old(self).mmu@.spec_frame_run(
                            k,
                        )).spec_frame_ready())
                    &&& ((#[trigger] old(self).mmu@.spec_frame_run(n)).spec_frame_ready() || n
                        == 0x3FFFF)
                    &&& final(self).mmu@ == old(self).mmu@.spec_frame_run(n + 1)
                },
    {
        let ghost start = self.mmu@;
        let mut steps: u32 = 0;
        loop
            invariant
                self.wf(),
                self.save_state == old(self).save_state,
                steps <= 0x3FFFF,
                start == old(self).mmu@,
                self.mmu@ == start.spec_frame_run(steps as int),
                forall|k: int|
                    0 <= k < steps ==> !(#[trigger] start.spec_frame_run(k)).spec_frame_ready(),
            decreases 0x40000 - steps,
        {
            let ghost pre = self.mmu@;
            let ready = self.frame_slot();
            proof {
                assert(self.mmu@ == start.spec_frame_run(steps + 1));
            }
            if ready {
                proof {
                    let n = steps as int;
                    assert(start.spec_frame_run(n).spec_frame_ready());
                    assert(self.mmu@ == start.spec_frame_run(n + 1));
                }
                return self.get_gpu_data().clone();
            }
            if steps >= 0x3FFFF {
                proof {
                    let n = steps as int;
                    assert(n == 0x3FFFF);
                    assert(self.mmu@ == start.spec_frame_run(n + 1));
                }
                return self.get_gpu_data().clone();
            }
            steps += 1;
        }
    }

    /// One frame-driving slot: advance, consume the blanking edge (deriving
    /// the mirror when it was up), and read off the frame-ready flag.
    #[verifier::rlimit(100)]
    #[verifier::spinoff_prover]
    fn frame_slot(&mut self) -> (ready: bool)
        requires
            old(self).wf(),
        ensures
            final(self).wf(),
            final(self).save_state == old(self).save_state,
            final(self).mmu@ == old(self).mmu@.spec_frame_slot(),
            ready == old(self).mmu@.spec_frame_ready(),
            !final(self).mmu@.gpu.updated,
    {
        let _cycles = self.do_cycle();
        self.maybe_write_mirror();
        let ready = self.check_and_reset_gpu_updated();
        proof {
            let pre = old(self).mmu@;
            let stepped = pre.spec_do_cycle_state(STEP_TICKS);
            let cleared = MmuView {
                gpu: crate::gpu::GpuView { vblank_edge: false, ..stepped.gpu },
                ..stepped
            };
            let mirrored = if stepped.gpu.vblank_edge {
                cleared.spec_write_mirror()
            } else {
                cleared
            };
            crate::mmu::lemma_write_mirror_frame(cleared);
            assert(mirrored.gpu.updated == stepped.gpu.updated);
            assert(self.mmu@ == (MmuView {
                gpu: crate::gpu::GpuView { updated: false, ..mirrored.gpu },
                ..mirrored
            }));
            assert(self.mmu@ == pre.spec_frame_slot());
        }
        ready
    }
}

} // verus!
