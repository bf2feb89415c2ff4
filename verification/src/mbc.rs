//! Cartridge controller at its fixed byte-level contract: a ROM window, an
//! optional external RAM window sized by the header, a battery flag and a
//! dirty flag for the RAM.  Bank-switching strategies are out of scope, so
//! the windows are flat; reads outside the backing storage are open bus
//! (0xFF) and writes into the ROM window are dropped.

use vstd::prelude::*;

use crate::StrResult;

verus! {

pub struct Cartridge {
    pub rom: Vec<u8>,
    pub ram: Vec<u8>,
    pub battery: bool,
    pub ram_updated: bool,
}

#[verifier::ext_equal]
pub struct CartridgeView {
    pub rom: Seq<u8>,
    pub ram: Seq<u8>,
    pub battery: bool,
    pub ram_updated: bool,
}

impl View for Cartridge {
    type V = CartridgeView;

    open spec fn view(&self) -> CartridgeView {
        CartridgeView {
            rom: self.rom@,
            ram: self.ram@,
            battery: self.battery,
            ram_updated: self.ram_updated,
        }
    }
}

/// Appends a character; the standard library promises exactly this.
pub assume_specification[ String::push ](s: &mut String, ch: char)
    ensures
        final(s)@ == old(s)@.push(ch),
;

/// The header checksum over bytes 0x134..0x14D: starting from zero, each
/// byte and one more are subtracted, wrapping in eight bits.
pub open spec fn spec_checksum_upto(rom: Seq<u8>, n: int) -> u8
    decreases n - 0x134,
{
    if n <= 0x134 {
        0
    } else {
        ((spec_checksum_upto(rom, n - 1) - rom[n - 1] - 1) % 256) as u8
    }
}

pub open spec fn spec_header_checksum(rom: Seq<u8>) -> u8 {
    spec_checksum_upto(rom, 0x14D)
}

/// External RAM size selected by header byte 0x149.
pub open spec fn spec_ram_size(code: u8) -> int {
    if code == 1 {
        0x800
    } else if code == 2 {
        0x2000
    } else if code == 3 {
        0x8000
    } else {
        0
    }
}

/// Battery-backed cartridge types, by header byte 0x147.
pub open spec fn spec_battery_backed(code: u8) -> bool {
    code == 0x03 || code == 0x06 || code == 0x09 || code == 0x0D || code == 0x0F || code == 0x10
        || code == 0x13 || code == 0x1B || code == 0x1E
}

/// Length of the title field at 0x134: up to 16 bytes, ended by a zero.
pub open spec fn spec_name_len(rom: Seq<u8>) -> int {
    if rom[0x134] == 0 {
        0
    } else if rom[0x135] == 0 {
        1
    } else if rom[0x136] == 0 {
        2
    } else if rom[0x137] == 0 {
        3
    } else if rom[0x138] == 0 {
        4
    } else if rom[0x139] == 0 {
        5
    } else if rom[0x13A] == 0 {
        6
    } else if rom[0x13B] == 0 {
        7
    } else if rom[0x13C] == 0 {
        8
    } else if rom[0x13D] == 0 {
        9
    } else if rom[0x13E] == 0 {
        10
    } else if rom[0x13F] == 0 {
        11
    } else if rom[0x140] == 0 {
        12
    } else if rom[0x141] == 0 {
        13
    } else if rom[0x142] == 0 {
        14
    } else if rom[0x143] == 0 {
        15
    } else {
        16
    }
}

pub open spec fn spec_romname(rom: Seq<u8>) -> Seq<char> {
    Seq::new(spec_name_len(rom) as nat, |i: int| rom[0x134 + i] as char)
}

impl CartridgeView {
    pub open spec fn wf(self) -> bool {
        self.rom.len() >= 0x150
    }

    pub open spec fn spec_readrom(self, address: u16) -> u8 {
        if address < self.rom.len() {
            self.rom[address as int]
        } else {
            0xFF
        }
    }

    pub open spec fn spec_readram(self, address: u16) -> u8 {
        if address - 0xA000 < self.ram.len() {
            self.ram[address - 0xA000]
        } else {
            0xFF
        }
    }

    pub open spec fn spec_writeram(self, address: u16, value: u8) -> CartridgeView {
        if address - 0xA000 < self.ram.len() {
            CartridgeView {
                ram: self.ram.update(address - 0xA000, value),
                ram_updated: true,
                ..self
            }
        } else {
            self
        }
    }
}

/// Build the cartridge controller from a ROM image: the image must at least
/// cover the header, and its header checksum must match unless checking is
/// skipped.  External RAM comes up zeroed at the header-selected size.
pub fn get_mbc(data: Vec<u8>, skip_checksum: bool) -> (r: StrResult<Cartridge>)
    ensures
        data@.len() < 0x150 ==> r == StrResult::<Cartridge>::Err("Cartridge image is too short"),
        data@.len() >= 0x150 && !skip_checksum && spec_header_checksum(data@) != data@[0x14D]
            ==> r == StrResult::<Cartridge>::Err("Cartridge checksum is invalid"),
        data@.len() >= 0x150 && (skip_checksum || spec_header_checksum(data@) == data@[0x14D])
            ==> r is Ok && {
                let c = r->Ok_0@;
                &&& c.wf()
                &&& c.rom == data@
                &&& c.ram.len() == spec_ram_size(data@[0x149])
                &&& forall|i: int| 0 <= i < c.ram.len() ==> c.ram[i] == 0
                &&& c.battery == spec_battery_backed(data@[0x147])
                &&& !c.ram_updated
            },
{
    if data.len() < 0x150 {
        return Err("Cartridge image is too short");
    }
    if !skip_checksum {
        let sum = header_checksum(&data);
        if sum != data[0x14D] {
            return Err("Cartridge checksum is invalid");
        }
    }
    let ram_code = data[0x149];
    let ram_len: usize = if ram_code == 1 {
        0x800
    } else if ram_code == 2 {
        0x2000
    } else if ram_code == 3 {
        0x8000
    } else {
        0
    };
    let type_code = data[0x147];
    let battery = type_code == 0x03 || type_code == 0x06 || type_code == 0x09 || type_code == 0x0D
        || type_code == 0x0F || type_code == 0x10 || type_code == 0x13 || type_code == 0x1B
        || type_code == 0x1E;
    Ok(Cartridge { rom: data, ram: crate::zero_vec(ram_len), battery, ram_updated: false })
}

fn header_checksum(rom: &Vec<u8>) -> (r: u8)
    requires
        rom@.len() >= 0x150,
    ensures
        r == spec_header_checksum(rom@),
{
    let mut value: u8 = 0;
    let mut i: usize = 0x134;
    while i < 0x14D
        invariant
            0x134 <= i <= 0x14D,
            rom@.len() >= 0x150,
            value == spec_checksum_upto(rom@, i as int),
        decreases 0x14D - i,
    {
        value = value.wrapping_sub(rom[i]).wrapping_sub(1);
        i += 1;
    }
    value
}

impl Cartridge {
    pub fn readrom(&self, address: u16) -> (r: u8)
        ensures
            r == self@.spec_readrom(address),
    {
        if (address as usize) < self.rom.len() {
            self.rom[address as usize]
        } else {
            0xFF
        }
    }

    /// Bank-switching control writes are out of scope for the flat model:
    /// the ROM window is read-only storage.
    pub fn writerom(&mut self, _address: u16, _value: u8)
        ensures
            *final(self) == *old(self),
    {
    }

    pub fn readram(&self, address: u16) -> (r: u8)
        requires
            0xA000 <= address <= 0xBFFF,
        ensures
            r == self@.spec_readram(address),
    {
        let idx = (address - 0xA000) as usize;
        if idx < self.ram.len() {
            self.ram[idx]
        } else {
            0xFF
        }
    }

    pub fn writeram(&mut self, address: u16, value: u8)
        requires
            0xA000 <= address <= 0xBFFF,
        ensures
            final(self)@ == old(self)@.spec_writeram(address, value),
    {
        let idx = (address - 0xA000) as usize;
        if idx < self.ram.len() {
            self.ram.set(idx, value);
            self.ram_updated = true;
        }
    }

    /// The cartridge title from the header, read until its zero terminator.
    pub fn romname(&self) -> (r: String)
        requires
            self@.wf(),
        ensures
            r@ == spec_romname(self@.rom),
    {
        let mut name = String::new();
        let mut i: usize = 0;
        while i < 16
            invariant
                self@.wf(),
                i <= 16,
                i < 16 ==> name@ =~= spec_romname(self@.rom).take(i as int),
                i < 16 ==> forall|j: int| 0x134 <= j < 0x134 + i ==> self@.rom[j] != 0,
                i == 16 ==> name@ =~= spec_romname(self@.rom),
            decreases 16 - i,
        {
            let b = self.rom[0x134 + i];
            if b == 0 {
                proof {
                    assert(spec_name_len(self@.rom) == i);
                    assert(name@ =~= spec_romname(self@.rom));
                }
                return name;
            }
            name.push(b as char);
            proof {
                if i + 1 < 16 {
                    assert(name@ =~= spec_romname(self@.rom).take(i + 1));
                } else {
                    assert(spec_name_len(self@.rom) == 16);
                    assert(name@ =~= spec_romname(self@.rom));
                }
            }
            i += 1;
        }
        name
    }

    pub fn is_battery_backed(&self) -> (r: bool)
        ensures
            r == self@.battery,
    {
        self.battery
    }

    pub fn dumpram(&self) -> (r: Vec<u8>)
        ensures
            r@ == self@.ram,
    {
        self.ram.clone()
    }

    /// Replace the external RAM from a saved image; the image must have
    /// exactly the size the cartridge was built with.
    pub fn loadram(&mut self, ramdata: &[u8]) -> (r: StrResult<()>)
        ensures
            ramdata@.len() != old(self)@.ram.len() ==> r is Err && *final(self) == *old(self),
            ramdata@.len() == old(self)@.ram.len() ==> r is Ok
                && final(self)@ == (CartridgeView { ram: ramdata@, ..old(self)@ }),
    {
        if ramdata.len() != self.ram.len() {
            return Err("Loaded RAM has the wrong size");
        }
        let mut fresh: Vec<u8> = Vec::new();
        let mut i: usize = 0;
        while i < ramdata.len()
            invariant
                i <= ramdata@.len(),
                fresh@.len() == i,
                forall|j: int| 0 <= j < i ==> fresh@[j] == ramdata@[j],
            decreases ramdata@.len() - i,
        {
            fresh.push(ramdata[i]);
            i += 1;
        }
        assert(fresh@ =~= ramdata@);
        self.ram = fresh;
        Ok(())
    }

    pub fn check_and_reset_ram_updated(&mut self) -> (r: bool)
        ensures
            r == old(self)@.ram_updated,
            final(self)@ == (CartridgeView { ram_updated: false, ..old(self)@ }),
    {
        let r = self.ram_updated;
        self.ram_updated = false;
        r
    }
}

} // verus!
