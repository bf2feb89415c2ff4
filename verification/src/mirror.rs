//! The mirror snapshot: a fixed-layout 104-byte buffer derived once per
//! frame from privileged working-memory addresses, for external, read-only
//! observation.  All multi-byte fields are little-endian; the money field is
//! decoded from a three-byte binary-coded-decimal source.

use vstd::prelude::*;

verus! {

pub const MIRROR_FRAME_COUNTER: usize = 0x000;

pub const MIRROR_MAP_BANK: usize = 0x004;

pub const MIRROR_MAP_ID: usize = 0x005;

pub const MIRROR_PLAYER_X: usize = 0x006;

pub const MIRROR_PLAYER_Y: usize = 0x007;

pub const MIRROR_PARTY_COUNT: usize = 0x008;

pub const MIRROR_PARTY_START: usize = 0x009;

pub const MIRROR_IN_BATTLE: usize = 0x049;

pub const MIRROR_ENEMY_SPECIES: usize = 0x04A;

pub const MIRROR_ENEMY_LEVEL: usize = 0x04B;

pub const MIRROR_ENEMY_HP: usize = 0x04C;

pub const MIRROR_ENEMY_MAX_HP: usize = 0x04E;

pub const MIRROR_MONEY: usize = 0x050;

pub const MIRROR_BADGES: usize = 0x054;

/// The hidden/debug region at the end of the buffer.
pub const MIRROR_HIDDEN: usize = 0x058;

/// Total buffer length.
pub const MIRROR_SIZE: usize = 0x068;

/// Length of the caller-visible prefix a fairness-constrained export may
/// truncate the buffer to.
pub const MIRROR_VISIBLE_SIZE: usize = 0x054;

/// The value of one binary-coded-decimal byte: ten times the high digit
/// plus the low digit.
pub open spec fn spec_bcd(b: u8) -> int {
    (b >> 4) * 10 + (b & 0x0F)
}

/// The money counter: three binary-coded-decimal source bytes, most
/// significant first, decoded as d0 * 10000 + d1 * 100 + d2.
pub open spec fn spec_money(w: Seq<u8>) -> u32 {
    (spec_bcd(w[0xD573 - 0xC000]) * 10000 + spec_bcd(w[0xD574 - 0xC000]) * 100 + spec_bcd(w[0xD575 - 0xC000])) as u32
}

/// Byte `i` of the mirror buffer as a function of working memory `w`, high
/// RAM `z` and the frame counter.  The enemy HP words are converted from
/// big-endian source pairs to little-endian; the last two bytes of the
/// sixth party slot are shadowed by the battle flags that follow them.
pub open spec fn spec_mirror_byte(w: Seq<u8>, z: Seq<u8>, counter: u32, i: int) -> u8 {
    if i == 0x000 {
        (counter & 0xFF) as u8
    } else if i == 0x001 {
        ((counter >> 8) & 0xFF) as u8
    } else if i == 0x002 {
        ((counter >> 16) & 0xFF) as u8
    } else if i == 0x003 {
        ((counter >> 24) & 0xFF) as u8
    } else if i == 0x004 {
        w[0xDA00 - 0xC000]  // map bank
    } else if i == 0x005 {
        w[0xDA01 - 0xC000]  // map id
    } else if i == 0x006 {
        w[0xD20D - 0xC000]  // player x
    } else if i == 0x007 {
        w[0xD20E - 0xC000]  // player y
    } else if i == 0x008 {
        w[0xDA22 - 0xC000]  // party count
    } else if 0x009 <= i && i < 0x049 {
        w[0xDA2A - 0xC000 + (i - 0x009)]  // party slots
    } else if i == 0x049 {
        w[0xD116 - 0xC000]  // in battle
    } else if i == 0x04A {
        w[0xD0ED - 0xC000]  // enemy species
    } else if i == 0x04B {
        w[0xD0FC - 0xC000]  // enemy level
    } else if i == 0x04C {
        w[0xD100 - 0xC000]  // enemy current hp, low
    } else if i == 0x04D {
        w[0xD0FF - 0xC000]  // enemy current hp, high
    } else if i == 0x04E {
        w[0xD102 - 0xC000]  // enemy max hp, low
    } else if i == 0x04F {
        w[0xD101 - 0xC000]  // enemy max hp, high
    } else if i == 0x050 {
        (spec_money(w) & 0xFF) as u8
    } else if i == 0x051 {
        ((spec_money(w) >> 8) & 0xFF) as u8
    } else if i == 0x052 {
        ((spec_money(w) >> 16) & 0xFF) as u8
    } else if i == 0x053 {
        ((spec_money(w) >> 24) & 0xFF) as u8
    } else if i == 0x054 {
        w[0xD57C - 0xC000]  // badges
    } else if i == 0x058 {
        z[0x53]  // random-state debug byte
    } else if i == 0x059 {
        z[0x54]  // random-state debug byte
    } else {
        0  // reserved
    }
}

/// The whole mirror buffer.
pub open spec fn spec_mirror(w: Seq<u8>, z: Seq<u8>, counter: u32) -> Seq<u8> {
    Seq::new(0x68, |i: int| spec_mirror_byte(w, z, counter, i))
}

/// The value of one binary-coded-decimal byte.
pub fn bcd_decode(b: u8) -> (r: u32)
    ensures
        r == spec_bcd(b),
        r <= 165,
{
    proof {
        assert(b >> 4 <= 0x0F && (b & 0x0F) <= 0x0F) by (bit_vector);
    }
    (b >> 4) as u32 * 10 + (b & 0x0F) as u32
}

/// Derive the mirror buffer from working memory, high RAM and the frame
/// counter: a pure function of its arguments.
pub fn derive(wram: &Vec<u8>, zram: &Vec<u8>, counter: u32) -> (r: Vec<u8>)
    requires
        wram@.len() == 0x8000,
        zram@.len() == 0x7F,
    ensures
        r@ == spec_mirror(wram@, zram@, counter),
{
    proof {
        assert((counter & 0xFF) < 0x100 && ((counter >> 8) & 0xFF) < 0x100 && ((counter >> 16)
            & 0xFF) < 0x100 && ((counter >> 24) & 0xFF) < 0x100) by (bit_vector);
    }
    let mut m = crate::zero_vec(0x68);
    m.set(0x000, (counter & 0xFF) as u8);
    m.set(0x001, ((counter >> 8) & 0xFF) as u8);
    m.set(0x002, ((counter >> 16) & 0xFF) as u8);
    m.set(0x003, ((counter >> 24) & 0xFF) as u8);

    m.set(0x004, wram[0xDA00 - 0xC000]);
    m.set(0x005, wram[0xDA01 - 0xC000]);
    m.set(0x006, wram[0xD20D - 0xC000]);
    m.set(0x007, wram[0xD20E - 0xC000]);

    m.set(0x008, wram[0xDA22 - 0xC000]);
    let mut k: usize = 0;
    while k < 0x40
        invariant
            k <= 0x40,
            wram@.len() == 0x8000,
            zram@.len() == 0x7F,
            m@.len() == 0x68,
            forall|j: int| 0 <= j < 0x009 ==> m@[j] == spec_mirror_byte(wram@, zram@, counter, j),
            forall|j: int| 0x009 <= j < 0x009 + k ==> m@[j] == wram@[0xDA2A - 0xC000 + (j - 0x009)],
            forall|j: int| 0x009 + k <= j < 0x68 ==> m@[j] == 0,
        decreases 0x40 - k,
    {
        m.set(0x009 + k, wram[0xDA2A - 0xC000 + k]);
        k += 1;
    }

    m.set(0x049, wram[0xD116 - 0xC000]);
    m.set(0x04A, wram[0xD0ED - 0xC000]);
    m.set(0x04B, wram[0xD0FC - 0xC000]);

    m.set(0x04C, wram[0xD100 - 0xC000]);
    m.set(0x04D, wram[0xD0FF - 0xC000]);
    m.set(0x04E, wram[0xD102 - 0xC000]);
    m.set(0x04F, wram[0xD101 - 0xC000]);

    let money: u32 = bcd_decode(wram[0xD573 - 0xC000]) * 10000 + bcd_decode(wram[0xD574 - 0xC000]) * 100
        + bcd_decode(wram[0xD575 - 0xC000]);
    proof {
        let mv = spec_money(wram@);
        assert((mv & 0xFF) < 0x100 && ((mv >> 8) & 0xFF) < 0x100 && ((mv >> 16) & 0xFF) < 0x100 && (
        (mv >> 24) & 0xFF) < 0x100) by (bit_vector);
    }
    m.set(0x050, (money & 0xFF) as u8);
    m.set(0x051, ((money >> 8) & 0xFF) as u8);
    m.set(0x052, ((money >> 16) & 0xFF) as u8);
    m.set(0x053, ((money >> 24) & 0xFF) as u8);

    m.set(0x054, wram[0xD57C - 0xC000]);

    m.set(0x058, zram[0x53]);
    m.set(0x059, zram[0x54]);

    proof {
        assert(m@ =~= spec_mirror(wram@, zram@, counter));
    }
    m
}

/// The mirror is a pure function of memory and counter: two derivations
/// from the same state agree byte for byte, and two derivations that differ
/// only in the counter agree on every byte past the counter field.
pub proof fn lemma_mirror_deterministic(w: Seq<u8>, z: Seq<u8>, c1: u32, c2: u32)
    ensures
        spec_mirror(w, z, c1) == spec_mirror(w, z, c1),
        forall|i: int|
            0x004 <= i < 0x68 ==> spec_mirror(w, z, c1)[i] == spec_mirror(w, z, c2)[i],
{
    assert forall|i: int| 0x004 <= i < 0x68 implies spec_mirror(w, z, c1)[i] == spec_mirror(
        w,
        z,
        c2,
    )[i] by {
        assert(spec_mirror_byte(w, z, c1, i) == spec_mirror_byte(w, z, c2, i));
    }
}

} // verus!
