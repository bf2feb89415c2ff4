//! Input unit: two active-low 4-bit key rows behind one selectable I/O byte.
//!
//! Bit 4 (clear = selected) of the visible byte selects the direction row,
//! bit 5 the button row.  The low nibble of the visible byte is the AND of
//! the selected rows; a transition of that nibble from "all released" (0xF)
//! to "something pressed" raises the input interrupt-request bit.

use vstd::prelude::*;

verus! {

pub struct Keypad {
    pub row0: u8,
    pub row1: u8,
    pub data: u8,
    pub interrupt: u8,
}

#[derive(Copy, Clone)]
pub enum KeypadKey {
    Right,
    Left,
    Up,
    Down,
    A,
    B,
    Select,
    Start,
}

impl Keypad {
    /// The low nibble visible at the I/O port: AND of whichever rows the
    /// selector bits (4 and 5, active low) of `data` include.
    pub open spec fn spec_visible(self) -> u8 {
        let with_row0: u8 = if self.data & 0x10 == 0 {
            0x0F & self.row0
        } else {
            0x0F
        };
        if self.data & 0x20 == 0 {
            with_row0 & self.row1
        } else {
            with_row0
        }
    }

    /// The shape of every state the unit's own operations produce: the rows
    /// use only their low nibble, the two always-set top bits of the visible
    /// byte stay set, and the visible nibble agrees with the rows and the
    /// selector bits.
    pub open spec fn wf(self) -> bool {
        &&& self.row0 <= 0x0F
        &&& self.row1 <= 0x0F
        &&& self.data & 0xC0 == 0xC0
        &&& self.data & 0x0F == self.spec_visible()
    }

    /// Refresh the visible byte from the rows and raise the input
    /// interrupt-request bit exactly on a released-to-pressed transition.
    pub open spec fn spec_update(self) -> Keypad {
        let old_values = self.data & 0x0F;
        let new_values = self.spec_visible();
        Keypad {
            data: (self.data & 0xF0) | new_values,
            interrupt: if old_values == 0x0F && new_values != 0x0F {
                self.interrupt | 0x10
            } else {
                self.interrupt
            },
            ..self
        }
    }

    /// The row bit owned by `key`: direction keys sit in row 0,
    /// button keys in row 1, each with its mask within the nibble.
    pub open spec fn spec_key_mask(key: KeypadKey) -> u8 {
        match key {
            KeypadKey::Right => 0x01,
            KeypadKey::Left => 0x02,
            KeypadKey::Up => 0x04,
            KeypadKey::Down => 0x08,
            KeypadKey::A => 0x01,
            KeypadKey::B => 0x02,
            KeypadKey::Select => 0x04,
            KeypadKey::Start => 0x08,
        }
    }

    pub open spec fn spec_key_in_row0(key: KeypadKey) -> bool {
        match key {
            KeypadKey::Right | KeypadKey::Left | KeypadKey::Up | KeypadKey::Down => true,
            _ => false,
        }
    }

    /// State after pressing `key` (0 = pressed within its row).
    pub open spec fn spec_keydown(self, key: KeypadKey) -> Keypad {
        let pressed = if Self::spec_key_in_row0(key) {
            Keypad { row0: self.row0 & !Self::spec_key_mask(key), ..self }
        } else {
            Keypad { row1: self.row1 & !Self::spec_key_mask(key), ..self }
        };
        pressed.spec_update()
    }

    /// State after releasing `key` (1 = released within its row).
    pub open spec fn spec_keyup(self, key: KeypadKey) -> Keypad {
        let released = if Self::spec_key_in_row0(key) {
            Keypad { row0: self.row0 | Self::spec_key_mask(key), ..self }
        } else {
            Keypad { row1: self.row1 | Self::spec_key_mask(key), ..self }
        };
        released.spec_update()
    }

    /// State after overwriting both rows from one press mask
    /// (mask bit = 1 means pressed; bits 0-3 directions, 4-7 buttons).
    pub open spec fn spec_set_mask(self, mask: u8) -> Keypad {
        let loaded = Keypad {
            row0: 0x0F & !(mask & 0x0F),
            row1: 0x0F & !((mask >> 4) & 0x0F),
            ..self
        };
        loaded.spec_update()
    }

    /// State after a selector write: only bits 4 and 5 are taken from the
    /// written value, then the visible nibble is refreshed.
    pub open spec fn spec_wb(self, value: u8) -> Keypad {
        let selected = Keypad { data: (self.data & 0xCF) | (value & 0x30), ..self };
        selected.spec_update()
    }

    pub fn new() -> (r: Keypad)
        ensures
            r.row0 == 0x0F,
            r.row1 == 0x0F,
            r.data == 0xFF,
            r.interrupt == 0,
            r.wf(),
    {
        let r = Keypad { row0: 0x0F, row1: 0x0F, data: 0xFF, interrupt: 0 };
        proof {
            assert(0xFFu8 & 0x10 != 0 && 0xFFu8 & 0x20 != 0 && 0xFFu8 & 0xC0 == 0xC0 && 0xFFu8
                & 0x0F == 0x0F) by (bit_vector);
        }
        r
    }

    pub fn rb(&self) -> (r: u8)
        ensures
            r == self.data,
    {
        self.data
    }

    pub fn wb(&mut self, value: u8)
        ensures
            *final(self) == old(self).spec_wb(value),
            old(self).wf() ==> final(self).wf(),
    {
        proof {
            let d = self.data;
            assert(((d & 0xCF) | (value & 0x30)) & 0xC0 == (d & 0xC0)) by (bit_vector);
            if old(self).wf() {
                Keypad::lemma_update_wf(
                    Keypad { data: (d & 0xCF) | (value & 0x30), ..*old(self) },
                );
            }
        }
        self.data = (self.data & 0xCF) | (value & 0x30);
        self.update();
    }

    /// Load both rows from a single press mask, with the same
    /// interrupt-edge rule as discrete presses and releases.
    pub fn set_mask(&mut self, mask: u8)
        ensures
            *final(self) == old(self).spec_set_mask(mask),
            old(self).wf() ==> final(self).wf(),
    {
        proof {
            assert(0x0Fu8 & !(mask & 0x0F) <= 0x0F && 0x0Fu8 & !((mask >> 4) & 0x0F)
                <= 0x0F) by (bit_vector);
            if old(self).wf() {
                Keypad::lemma_update_wf(
                    Keypad {
                        row0: 0x0F & !(mask & 0x0F),
                        row1: 0x0F & !((mask >> 4) & 0x0F),
                        ..*old(self)
                    },
                );
            }
        }
        let dir_mask = mask & 0x0F;
        let btn_mask = (mask >> 4) & 0x0F;
        self.row0 = 0x0F & !dir_mask;
        self.row1 = 0x0F & !btn_mask;
        self.update();
    }

    fn update(&mut self)
        ensures
            *final(self) == old(self).spec_update(),
    {
        let old_values = self.data & 0x0F;
        let mut new_values: u8 = 0x0F;

        if self.data & 0x10 == 0x00 {
            new_values &= self.row0;
        }
        if self.data & 0x20 == 0x00 {
            new_values &= self.row1;
        }

        if old_values == 0x0F && new_values != 0x0F {
            self.interrupt |= 0x10;
        }

        self.data = (self.data & 0xF0) | new_values;
    }

    fn key_mask(key: KeypadKey) -> (m: u8)
        ensures
            m == Self::spec_key_mask(key),
    {
        match key {
            KeypadKey::Right => 0x01,
            KeypadKey::Left => 0x02,
            KeypadKey::Up => 0x04,
            KeypadKey::Down => 0x08,
            KeypadKey::A => 0x01,
            KeypadKey::B => 0x02,
            KeypadKey::Select => 0x04,
            KeypadKey::Start => 0x08,
        }
    }

    fn key_in_row0(key: KeypadKey) -> (b: bool)
        ensures
            b == Self::spec_key_in_row0(key),
    {
        match key {
            KeypadKey::Right | KeypadKey::Left | KeypadKey::Up | KeypadKey::Down => true,
            _ => false,
        }
    }

    pub fn keydown(&mut self, key: KeypadKey)
        ensures
            *final(self) == old(self).spec_keydown(key),
            old(self).wf() ==> final(self).wf(),
    {
        let mask = Self::key_mask(key);
        proof {
            let r0 = self.row0;
            let r1 = self.row1;
            if old(self).wf() {
                assert(r0 & !mask <= 0x0F && r1 & !mask <= 0x0F) by (bit_vector)
                    requires
                        r0 <= 0x0F && r1 <= 0x0F,
                ;
                if Keypad::spec_key_in_row0(key) {
                    Keypad::lemma_update_wf(Keypad { row0: r0 & !mask, ..*old(self) });
                } else {
                    Keypad::lemma_update_wf(Keypad { row1: r1 & !mask, ..*old(self) });
                }
            }
        }
        if Self::key_in_row0(key) {
            self.row0 &= !mask;
        } else {
            self.row1 &= !mask;
        }
        self.update();
    }

    pub fn keyup(&mut self, key: KeypadKey)
        ensures
            *final(self) == old(self).spec_keyup(key),
            old(self).wf() ==> final(self).wf(),
    {
        let mask = Self::key_mask(key);
        proof {
            let r0 = self.row0;
            let r1 = self.row1;
            if old(self).wf() {
                assert(r0 | mask <= 0x0F && r1 | mask <= 0x0F) by (bit_vector)
                    requires
                        r0 <= 0x0F && r1 <= 0x0F && mask <= 0x0F,
                ;
                if Keypad::spec_key_in_row0(key) {
                    Keypad::lemma_update_wf(Keypad { row0: r0 | mask, ..*old(self) });
                } else {
                    Keypad::lemma_update_wf(Keypad { row1: r1 | mask, ..*old(self) });
                }
            }
        }
        if Self::key_in_row0(key) {
            self.row0 |= mask;
        } else {
            self.row1 |= mask;
        }
        self.update();
    }

    /// The refresh step re-establishes well-formedness from clean rows and
    /// set top bits alone.
    pub proof fn lemma_update_wf(k: Keypad)
        requires
            k.row0 <= 0x0F,
            k.row1 <= 0x0F,
            k.data & 0xC0 == 0xC0,
        ensures
            k.spec_update().wf(),
    {
        let d = k.data;
        let r0 = k.row0;
        let r1 = k.row1;
        let with0: u8 = if d & 0x10 == 0 {
            0x0F & r0
        } else {
            0x0F
        };
        let nv: u8 = if d & 0x20 == 0 {
            with0 & r1
        } else {
            with0
        };
        assert(nv == k.spec_visible());
        assert(nv <= 0x0F && ((d & 0xF0) | nv) & 0xC0 == (d & 0xC0) && ((d & 0xF0) | nv) & 0x0F
            == nv && ((d & 0xF0) | nv) & 0x10 == (d & 0x10) && ((d & 0xF0) | nv) & 0x20 == (d
            & 0x20)) by (bit_vector)
            requires
                with0 == (if d & 0x10 == 0 {
                    0x0Fu8 & r0
                } else {
                    0x0Fu8
                }) && nv == (if d & 0x20 == 0 {
                    with0 & r1
                } else {
                    with0
                }),
        ;
        assert(k.spec_update().spec_visible() == nv);
    }
}


/// The key's row is included in the visible nibble: the selector bit for
/// its row (bit 4 for directions, bit 5 for buttons) is clear.
pub open spec fn spec_key_row_selected(k: Keypad, key: KeypadKey) -> bool {
    if Keypad::spec_key_in_row0(key) {
        k.data & 0x10 == 0
    } else {
        k.data & 0x20 == 0
    }
}

/// Interrupt edge, rising half: pressing any key whose row is selected,
/// while no key is pressed and the visible nibble shows none, raises the
/// input interrupt-request bit.
pub proof fn lemma_interrupt_edge_raises(k: Keypad, key: KeypadKey)
    requires
        k.row0 == 0x0F,
        k.row1 == 0x0F,
        k.data & 0x0F == 0x0F,
        spec_key_row_selected(k, key),
    ensures
        k.spec_keydown(key).interrupt & 0x10 == 0x10,
{
    let d = k.data;
    let m = Keypad::spec_key_mask(key);
    assert(m == 1 || m == 2 || m == 4 || m == 8);
    if Keypad::spec_key_in_row0(key) {
        let r = (0x0Fu8) & !m;
        assert((if d & 0x20 == 0 {
            (if d & 0x10 == 0 {
                0x0Fu8 & r
            } else {
                0x0Fu8
            }) & 0x0Fu8
        } else {
            (if d & 0x10 == 0 {
                0x0Fu8 & r
            } else {
                0x0Fu8
            })
        }) != 0x0F) by (bit_vector)
            requires
                (m == 1 || m == 2 || m == 4 || m == 8) && r == (0x0Fu8) & !m && d & 0x10 == 0,
        ;
        let i = k.interrupt;
        assert((i | 0x10) & 0x10 == 0x10) by (bit_vector);
    } else {
        let r = (0x0Fu8) & !m;
        assert((if d & 0x20 == 0 {
            (if d & 0x10 == 0 {
                0x0Fu8 & 0x0Fu8
            } else {
                0x0Fu8
            }) & r
        } else {
            (if d & 0x10 == 0 {
                0x0Fu8 & 0x0Fu8
            } else {
                0x0Fu8
            })
        }) != 0x0F) by (bit_vector)
            requires
                (m == 1 || m == 2 || m == 4 || m == 8) && r == (0x0Fu8) & !m && d & 0x20 == 0,
        ;
        let i = k.interrupt;
        assert((i | 0x10) & 0x10 == 0x10) by (bit_vector);
    }
}

/// Interrupt edge, flat half: pressing a further key while the visible
/// nibble already shows a pressed key leaves the interrupt-request bits
/// exactly as they were.
pub proof fn lemma_interrupt_edge_no_reraise(k: Keypad, key: KeypadKey)
    requires
        k.data & 0x0F != 0x0F,
    ensures
        k.spec_keydown(key).interrupt == k.interrupt,
{
}

} // verus!
