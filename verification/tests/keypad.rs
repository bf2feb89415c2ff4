use rgirl::keypad::{Keypad, KeypadKey};

#[test]
fn keys_buttons() {
    let mut keypad = Keypad::new();
    let keys0: [KeypadKey; 4] = [
        KeypadKey::A,
        KeypadKey::B,
        KeypadKey::Select,
        KeypadKey::Start,
    ];

    for i in 0..keys0.len() {
        keypad.keydown(keys0[i]);

        keypad.wb(0x00);
        assert_eq!(keypad.rb(), 0xCF & !(1 << i));

        keypad.wb(0x10);
        assert_eq!(keypad.rb(), 0xDF & !(1 << i));

        keypad.wb(0x20);
        assert_eq!(keypad.rb(), 0xEF);

        keypad.wb(0x30);
        assert_eq!(keypad.rb(), 0xFF);

        keypad.keyup(keys0[i]);
    }
}

#[test]
fn keys_direction() {
    let mut keypad = Keypad::new();
    let keys1: [KeypadKey; 4] = [
        KeypadKey::Right,
        KeypadKey::Left,
        KeypadKey::Up,
        KeypadKey::Down,
    ];

    for i in 0..keys1.len() {
        keypad.keydown(keys1[i]);

        keypad.wb(0x00);
        assert_eq!(keypad.rb(), 0xCF & !(1 << i));

        keypad.wb(0x10);
        assert_eq!(keypad.rb(), 0xDF);

        keypad.wb(0x20);
        assert_eq!(keypad.rb(), 0xEF & !(1 << i));

        keypad.wb(0x30);
        assert_eq!(keypad.rb(), 0xFF);

        keypad.keyup(keys1[i]);
    }
}

#[test]
fn interrupt_on_first_press_only() {
    let mut keypad = Keypad::new();
    // select both rows so presses are visible
    keypad.wb(0x00);
    assert_eq!(keypad.interrupt, 0);

    // pressing a key while nothing was pressed raises the input bit
    keypad.keydown(KeypadKey::A);
    assert_eq!(keypad.interrupt & 0x10, 0x10);

    // pressing a second key while one is held does not re-raise it
    keypad.interrupt = 0;
    keypad.keydown(KeypadKey::B);
    assert_eq!(keypad.interrupt, 0);

    // releasing everything and pressing again raises it anew
    keypad.keyup(KeypadKey::A);
    keypad.keyup(KeypadKey::B);
    keypad.keydown(KeypadKey::Up);
    assert_eq!(keypad.interrupt & 0x10, 0x10);
}

#[test]
fn set_mask_applies_edge_rule() {
    let mut keypad = Keypad::new();
    keypad.wb(0x00);
    assert_eq!(keypad.interrupt, 0);

    // bit 0 = Right pressed
    keypad.set_mask(0x01);
    assert_eq!(keypad.interrupt & 0x10, 0x10);
    keypad.wb(0x20);
    assert_eq!(keypad.rb() & 0x0F, 0x0E);

    // a second key while one is held: no new edge
    keypad.interrupt = 0;
    keypad.set_mask(0x11);
    assert_eq!(keypad.interrupt, 0);

    // all released, then buttons-row press (bit 4 = A)
    keypad.set_mask(0x00);
    keypad.wb(0x10);
    keypad.set_mask(0x10);
    assert_eq!(keypad.interrupt & 0x10, 0x10);
    assert_eq!(keypad.rb() & 0x0F, 0x0E);
}
