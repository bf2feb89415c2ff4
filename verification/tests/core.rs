use rgirl::device::Device;
use rgirl::mirror;

/// A minimal ROM image: header title, mode byte, RAM-size code and a valid
/// header checksum.
fn make_rom(mode_byte: u8, ram_code: u8) -> Vec<u8> {
    let mut rom = vec![0u8; 0x8000];
    let title = b"TEST";
    for (i, b) in title.iter().enumerate() {
        rom[0x134 + i] = *b;
    }
    rom[0x143] = mode_byte;
    rom[0x147] = 0x03; // battery-backed type
    rom[0x149] = ram_code;
    let mut value: u8 = 0;
    for i in 0x134..0x14D {
        value = value.wrapping_sub(rom[i]).wrapping_sub(1);
    }
    rom[0x14D] = value;
    rom
}

fn classic_device() -> Device {
    Device::new_from_buffer(make_rom(0x00, 0x02), false, None).unwrap()
}

fn color_device() -> Device {
    Device::new_cgb_from_buffer(make_rom(0x80, 0x02), false, None).unwrap()
}

#[test]
fn construction_checks_image() {
    // too short to hold a header
    assert!(Device::new_from_buffer(vec![0u8; 0x100], true, None).is_err());

    // checksum mismatch is rejected unless skipped
    let mut bad = make_rom(0x00, 0x00);
    bad[0x14D] ^= 0xFF;
    assert!(Device::new_from_buffer(bad.clone(), false, None).is_err());
    assert!(Device::new_from_buffer(bad, true, None).is_ok());

    // a color-only cartridge does not start in classic mode
    let color_only = make_rom(0xC0, 0x00);
    assert!(Device::new_from_buffer(color_only.clone(), false, None).is_err());
    assert!(Device::new_cgb_from_buffer(color_only, false, None).is_ok());
}

#[test]
fn romname_reads_header_title() {
    let d = classic_device();
    assert_eq!(d.romname(), "TEST");
}

#[test]
fn open_bus_reads_and_dropped_writes() {
    let mut d = classic_device();
    assert_eq!(d.read_byte(0xFEA0), 0xFF);
    assert_eq!(d.read_byte(0xFF03), 0xFF);
    d.write_byte(0xFEA0, 0x12);
    assert_eq!(d.read_byte(0xFEA0), 0xFF);
}

#[test]
fn echo_equivalence() {
    let mut d = classic_device();
    d.write_byte(0xC123, 0x42);
    assert_eq!(d.read_byte(0xE123), 0x42);
    d.write_byte(0xE456, 0x24);
    assert_eq!(d.read_byte(0xC456), 0x24);

    d.write_byte(0xD234, 0x77);
    assert_eq!(d.read_byte(0xF234), 0x77);
    d.write_byte(0xFABC, 0x55);
    assert_eq!(d.read_byte(0xDABC), 0x55);
}

#[test]
fn wide_access_is_little_endian() {
    let mut d = classic_device();
    d.write_wide(0xC000, 0x1234);
    assert_eq!(d.read_byte(0xC000), 0x34);
    assert_eq!(d.read_byte(0xC001), 0x12);
    assert_eq!(d.read_wide(0xC000), 0x1234);
}

#[test]
fn bank_select_resolves_banked_window() {
    let mut d = color_device();
    // bank select value 0 aliases to bank 1
    d.write_byte(0xFF70, 0x00);
    assert_eq!(d.read_byte(0xFF70), 0x01);
    d.write_byte(0xD000, 0xAA);

    // switch to bank 2: a different byte lives at the same address
    d.write_byte(0xFF70, 0x02);
    assert_eq!(d.read_byte(0xFF70), 0x02);
    d.write_byte(0xD000, 0xBB);
    assert_eq!(d.read_byte(0xD000), 0xBB);

    // the upper select bits are ignored (value & 7)
    d.write_byte(0xFF70, 0xF9);
    assert_eq!(d.read_byte(0xFF70), 0x01);
    assert_eq!(d.read_byte(0xD000), 0xAA);
}

#[test]
fn mode_gating_of_color_registers() {
    let mut classic = classic_device();
    classic.write_byte(0xFF4F, 0x01);
    assert_eq!(classic.read_byte(0xFF4F), 0xFF);
    classic.write_byte(0xFF70, 0x03);
    assert_eq!(classic.read_byte(0xFF70), 0xFF);
    classic.write_byte(0xFF72, 0xAB);
    assert_eq!(classic.read_byte(0xFF72), 0xFF);

    let mut color = color_device();
    color.write_byte(0xFF4F, 0x01);
    assert_eq!(color.read_byte(0xFF4F), 0x01);
    color.write_byte(0xFF72, 0xAB);
    assert_eq!(color.read_byte(0xFF72), 0xAB);
    // the third undocumented register reads its high bits set
    color.write_byte(0xFF75, 0x00);
    assert_eq!(color.read_byte(0xFF75), 0x8F);
}

#[test]
fn oam_dma_copies_synchronously() {
    let mut d = classic_device();
    for i in 0..0xA0u16 {
        d.write_byte(0xC000 + i, i as u8 ^ 0x5A);
    }
    d.write_byte(0xFF46, 0xC0);
    for i in 0..0xA0u16 {
        assert_eq!(d.read_byte(0xFE00 + i), i as u8 ^ 0x5A);
    }
}

#[test]
fn one_shot_transfer_row_count() {
    let mut d = color_device();
    for i in 0..32u16 {
        d.write_byte(0xD000 + i, 0x10 + i as u8);
    }
    // source 0xD000, destination 0x8000, length byte 1 => two rows
    d.write_byte(0xFF51, 0xD0);
    d.write_byte(0xFF52, 0x00);
    d.write_byte(0xFF53, 0x00);
    d.write_byte(0xFF54, 0x00);
    d.write_byte(0xFF55, 0x01);

    let ticks = d.mmu.do_cycle(4);
    // (1 + 1) rows at 8 ticks each, plus the budget itself
    assert_eq!(ticks, 4 + 16);
    // no transfer active immediately after
    assert_eq!(d.read_byte(0xFF55), 0xFF);
    for i in 0..32u16 {
        assert_eq!(d.read_byte(0x8000 + i), 0x10 + i as u8);
    }
    // exactly two rows: the byte after them was never written
    assert_eq!(d.read_byte(0x8000 + 32), 0x00);
}

#[test]
fn blanking_transfer_one_row_per_advance() {
    let mut d = color_device();
    for i in 0..32u16 {
        d.write_byte(0xD000 + i, 0x30 + i as u8);
    }
    d.write_byte(0xFF51, 0xD0);
    d.write_byte(0xFF52, 0x00);
    d.write_byte(0xFF53, 0x00);
    d.write_byte(0xFF54, 0x00);
    // high bit set: blanking-row protocol, length byte 1 => two rows
    d.write_byte(0xFF55, 0x81);

    // outside the blanking phase nothing is copied
    let ticks = d.mmu.do_cycle(4);
    assert_eq!(ticks, 4);
    assert_eq!(d.read_byte(0x8000), 0x00);
    assert_eq!(d.read_byte(0xFF55), 0x01);

    // move the video clock into horizontal blanking: one row per advance
    d.mmu.gpu.do_cycle(260);
    let ticks = d.mmu.do_cycle(4);
    assert_eq!(ticks, 4 + 8);
    assert_eq!(d.read_byte(0x8000 + 15), 0x3F);
    assert_eq!(d.read_byte(0x8000 + 16), 0x00);
    assert_eq!(d.read_byte(0xFF55), 0x00);

    // the second row ends the transfer: remaining length wraps to 0x7F
    let ticks = d.mmu.do_cycle(4);
    assert_eq!(ticks, 4 + 8);
    assert_eq!(d.read_byte(0x8000 + 31), 0x4F);
    assert_eq!(d.read_byte(0xFF55), 0xFF);

    // writing the control register with the high bit clear while a
    // blanking transfer is pending cancels it without copying
    d.write_byte(0xFF55, 0x85);
    d.write_byte(0xFF55, 0x00);
    assert_eq!(d.read_byte(0xFF55) & 0x80, 0x80);
}

#[test]
fn money_decodes_from_bcd() {
    let mut d = classic_device();
    d.write_byte(0xD573, 0x01);
    d.write_byte(0xD574, 0x23);
    d.write_byte(0xD575, 0x45);
    d.mmu.write_mirror();
    let m = d.get_mirror();
    let money = u32::from_le_bytes([m[0x50], m[0x51], m[0x52], m[0x53]]);
    assert_eq!(money, 12345);
}

#[test]
fn mirror_layout_and_endianness() {
    let mut d = classic_device();
    d.write_byte(0xDA00, 5); // map bank
    d.write_byte(0xDA01, 9); // map id
    d.write_byte(0xD20D, 17); // player x
    d.write_byte(0xD20E, 33); // player y
    d.write_byte(0xDA22, 3); // party count
    d.write_byte(0xDA2A, 0x99); // first party byte
    d.write_byte(0xD116, 1); // in battle
    d.write_byte(0xD0ED, 0x2F); // enemy species
    d.write_byte(0xD0FC, 40); // enemy level
    d.write_byte(0xD0FF, 0x01); // enemy current hp, big-endian source
    d.write_byte(0xD100, 0x2C);
    d.write_byte(0xD101, 0x02); // enemy max hp, big-endian source
    d.write_byte(0xD102, 0x58);
    d.write_byte(0xD57C, 0b101); // badges
    d.mmu.write_mirror();

    let m = d.get_mirror();
    assert_eq!(m.len(), mirror::MIRROR_SIZE);
    assert_eq!(m[mirror::MIRROR_MAP_BANK], 5);
    assert_eq!(m[mirror::MIRROR_MAP_ID], 9);
    assert_eq!(m[mirror::MIRROR_PLAYER_X], 17);
    assert_eq!(m[mirror::MIRROR_PLAYER_Y], 33);
    assert_eq!(m[mirror::MIRROR_PARTY_COUNT], 3);
    assert_eq!(m[mirror::MIRROR_PARTY_START], 0x99);
    assert_eq!(m[mirror::MIRROR_IN_BATTLE], 1);
    assert_eq!(m[mirror::MIRROR_ENEMY_SPECIES], 0x2F);
    assert_eq!(m[mirror::MIRROR_ENEMY_LEVEL], 40);
    let cur = u16::from_le_bytes([m[mirror::MIRROR_ENEMY_HP], m[mirror::MIRROR_ENEMY_HP + 1]]);
    assert_eq!(cur, 0x012C);
    let max = u16::from_le_bytes([
        m[mirror::MIRROR_ENEMY_MAX_HP],
        m[mirror::MIRROR_ENEMY_MAX_HP + 1],
    ]);
    assert_eq!(max, 0x0258);
    assert_eq!(m[mirror::MIRROR_BADGES], 0b101);
    // reserved bytes stay zero
    assert_eq!(&m[0x55..0x58], &[0, 0, 0]);
}

#[test]
fn mirror_increments_counter_only() {
    let mut d = classic_device();
    d.write_byte(0xDA22, 4);
    d.mmu.write_mirror();
    let first = d.get_mirror();
    d.mmu.write_mirror();
    let second = d.get_mirror();

    assert_eq!(u32::from_le_bytes([first[0], first[1], first[2], first[3]]), 1);
    assert_eq!(u32::from_le_bytes([second[0], second[1], second[2], second[3]]), 2);
    assert_eq!(&first[4..], &second[4..]);
}

#[test]
fn reset_is_idempotent() {
    let mut d = classic_device();
    d.write_byte(0xC000, 0xAB);
    d.write_byte(0x8000, 0xCD);
    d.write_byte(0xFF80, 0xEF);
    d.set_joypad_mask(0x01);

    d.reset();
    let wram_once = d.read_byte(0xC000);
    let vram_once = d.read_byte(0x8000);
    let hram_once = d.read_byte(0xFF80);
    let pad_once = d.read_byte(0xFF00);

    d.reset();
    assert_eq!(d.read_byte(0xC000), wram_once);
    assert_eq!(d.read_byte(0x8000), vram_once);
    assert_eq!(d.read_byte(0xFF80), hram_once);
    assert_eq!(d.read_byte(0xFF00), pad_once);

    // memories are cleared, high RAM is kept
    assert_eq!(wram_once, 0);
    assert_eq!(vram_once, 0);
    assert_eq!(hram_once, 0xEF);
}

#[test]
fn speed_switch_commits_on_request() {
    let mut d = color_device();
    assert_eq!(d.read_byte(0xFF4D), 0x7E);
    d.write_byte(0xFF4D, 0x01);
    assert_eq!(d.read_byte(0xFF4D), 0x7F);
    d.mmu.switch_speed();
    assert_eq!(d.read_byte(0xFF4D), 0xFE);
    // without a pending request, committing changes nothing
    d.mmu.switch_speed();
    assert_eq!(d.read_byte(0xFF4D), 0xFE);
}

#[test]
fn scheduler_folds_interrupt_bits() {
    let mut d = classic_device();
    assert_eq!(d.read_byte(0xFF0F), 0xE0); // bits 5-7 always read set
    d.mmu.timer.interrupt = 0x04;
    d.mmu.serial.interrupt = 0x08;
    d.do_cycle();
    assert_eq!(d.read_byte(0xFF0F), 0xE0 | 0x04 | 0x08);
    assert_eq!(d.mmu.timer.interrupt, 0);
    assert_eq!(d.mmu.serial.interrupt, 0);

    // keypad edges arrive the same way
    d.write_byte(0xFF0F, 0);
    d.write_byte(0xFF00, 0x00);
    d.set_joypad_mask(0x01);
    d.do_cycle();
    assert_eq!(d.read_byte(0xFF0F) & 0x10, 0x10);
}

struct EchoPlusOne;

impl rgirl::serial::SerialCallback for EchoPlusOne {
    fn call(&mut self, value: u8) -> Option<u8> {
        Some(value.wrapping_add(1))
    }
}

#[test]
fn serial_exchange_through_callback() {
    let mut d = classic_device();
    // without a callback a transfer start leaves the data byte alone
    d.write_byte(0xFF01, 0x41);
    d.write_byte(0xFF02, 0x81);
    assert_eq!(d.read_byte(0xFF01), 0x41);

    d.set_serial_callback(Box::new(EchoPlusOne));
    d.write_byte(0xFF01, 0x41);
    d.write_byte(0xFF02, 0x81);
    assert_eq!(d.read_byte(0xFF01), 0x42);
    assert_eq!(d.read_byte(0xFF02), 0x81);
    d.do_cycle();
    assert_eq!(d.read_byte(0xFF0F) & 0x08, 0x08);

    d.unset_serial_callback();
    d.write_byte(0xFF01, 0x41);
    d.write_byte(0xFF02, 0x81);
    assert_eq!(d.read_byte(0xFF01), 0x41);
}

#[test]
fn cartridge_ram_dump_and_load() {
    let mut d = classic_device();
    assert!(d.ram_is_battery_backed());
    assert!(!d.check_and_reset_ram_updated());
    d.write_byte(0xA000, 0x77);
    assert!(d.check_and_reset_ram_updated());
    assert!(!d.check_and_reset_ram_updated());
    assert_eq!(d.read_byte(0xA000), 0x77);

    let dump = d.dumpram();
    assert_eq!(dump.len(), 0x2000);
    assert_eq!(dump[0], 0x77);

    let mut image = vec![0u8; 0x2000];
    image[5] = 0x99;
    assert!(d.loadram(&image).is_ok());
    assert_eq!(d.read_byte(0xA005), 0x99);

    // an image of the wrong size is rejected
    assert!(d.loadram(&[0u8; 16]).is_err());
    assert_eq!(d.read_byte(0xA005), 0x99);
}

#[test]
fn step_frame_derives_mirror_once_per_frame() {
    let mut d = classic_device();
    d.write_byte(0xDA22, 6);
    let frame = d.step_frame();
    assert_eq!(frame.len(), 160 * 144 * 3);
    let m = d.get_mirror();
    assert_eq!(u32::from_le_bytes([m[0], m[1], m[2], m[3]]), 1);
    assert_eq!(m[mirror::MIRROR_PARTY_COUNT], 6);

    d.step_frame();
    let m = d.get_mirror();
    assert_eq!(u32::from_le_bytes([m[0], m[1], m[2], m[3]]), 2);
}

#[test]
fn color_hardware_in_classic_compatibility_mode() {
    // a header without the color bit on color hardware: undocumented
    // registers stay reachable, but color-only bus registers are gated
    let mut d = Device::new_cgb_from_buffer(make_rom(0x00, 0x00), false, None).unwrap();
    d.write_byte(0xFF72, 0x5A);
    assert_eq!(d.read_byte(0xFF72), 0x5A);
    d.write_byte(0xFF4F, 0x01);
    assert_eq!(d.read_byte(0xFF4F), 0xFF);
    d.write_byte(0xFF70, 0x03);
    assert_eq!(d.read_byte(0xFF70), 0xFF);
}

#[test]
fn scanline_counter_is_readable() {
    let mut d = classic_device();
    assert_eq!(d.read_byte(0xFF44), 0);
    d.mmu.gpu.do_cycle(456 * 2 + 10);
    assert_eq!(d.read_byte(0xFF44), 2);
    // writes to the scanline counter are dropped
    d.write_byte(0xFF44, 99);
    assert_eq!(d.read_byte(0xFF44), 2);
}

#[test]
fn write_ok_flags_illegal_transfer_trigger() {
    let mut d = color_device();
    // a legal source: ROM at 0x0000
    assert!(d.mmu.write_ok(0xFF55, 0x01));
    // a source inside video memory is the fatal condition
    d.write_byte(0xFF51, 0x90);
    assert!(!d.mmu.write_ok(0xFF55, 0x01));
    // any other address is always admitted
    assert!(d.mmu.write_ok(0xFF51, 0x90));
    // outside color mode the trigger register is gated, so the write is safe
    let classic = classic_device();
    assert!(classic.mmu.write_ok(0xFF55, 0x01));
}
