//! The register file: eight 8-bit registers, the program counter and the
//! stack pointer, with the register pairs and the flag bits of F.
use vstd::prelude::*;

verus! {

/// The four meaningful bits of the flag register F.
#[derive(Clone, Copy, Debug, PartialEq, Eq, Structural)]
pub enum Flag {
    /// Carry (bit 4).
    C,
    /// Half-carry (bit 5).
    H,
    /// Subtraction (bit 6).
    N,
    /// Zero (bit 7).
    Z,
}

/// The bit of F that holds `flag`.
pub open spec fn flag_mask(flag: Flag) -> u8 {
    match flag {
        Flag::C => 0x10,
        Flag::H => 0x20,
        Flag::N => 0x40,
        Flag::Z => 0x80,
    }
}

/// Whether `flag` is set in the flag byte `f`.
pub open spec fn flag_set(f: u8, flag: Flag) -> bool {
    f & flag_mask(flag) != 0
}

/// The flag byte with exactly the given flags set, low nibble clear.
pub open spec fn flag_bits(z: bool, n: bool, h: bool, c: bool) -> u8 {
    ((if z { 0x80int } else { 0 }) + (if n { 0x40int } else { 0 }) + (if h { 0x20int } else {
        0
    }) + (if c { 0x10int } else { 0 })) as u8
}

/// The flag byte `f` with `flag` set to `value` and the low nibble cleared.
pub open spec fn with_flag(f: u8, flag: Flag, value: bool) -> u8 {
    (if value {
        f | flag_mask(flag)
    } else {
        f & !flag_mask(flag)
    }) & 0xF0
}

/// The 16-bit value of a register pair whose high byte is `hi`.
pub open spec fn pair_value(hi: u8, lo: u8) -> u16 {
    (hi as int * 256 + lo as int) as u16
}

/// High byte of a 16-bit word.
pub open spec fn high_byte(w: u16) -> u8 {
    (w as int / 256) as u8
}

/// Low byte of a 16-bit word.
pub open spec fn low_byte(w: u16) -> u8 {
    (w as int % 256) as u8
}

/// The flag byte with exactly the given flags set.
pub fn flag_byte(z: bool, n: bool, h: bool, c: bool) -> (f: u8)
    ensures
        f == flag_bits(z, n, h, c),
{
    let mut f: u8 = 0;
    if z {
        f = f + 0x80;
    }
    if n {
        f = f + 0x40;
    }
    if h {
        f = f + 0x20;
    }
    if c {
        f = f + 0x10;
    }
    f
}

/// Each flag read back from `flag_bits` is the one it was built from, and
/// the low nibble is clear.
pub proof fn lemma_flag_bits(z: bool, n: bool, h: bool, c: bool)
    ensures
        flag_set(flag_bits(z, n, h, c), Flag::Z) == z,
        flag_set(flag_bits(z, n, h, c), Flag::N) == n,
        flag_set(flag_bits(z, n, h, c), Flag::H) == h,
        flag_set(flag_bits(z, n, h, c), Flag::C) == c,
        flag_bits(z, n, h, c) & 0x0F == 0,
        flag_bits(z, n, h, c) & 0xF0 == flag_bits(z, n, h, c),
{
    let f = flag_bits(z, n, h, c);
    let zb: u8 = if z { 0x80 } else { 0 };
    let nb: u8 = if n { 0x40 } else { 0 };
    let hb: u8 = if h { 0x20 } else { 0 };
    let cb: u8 = if c { 0x10 } else { 0 };
    assert(f == zb + nb + hb + cb);
    assert((zb == 0 || zb == 0x80) && (nb == 0 || nb == 0x40) && (hb == 0 || hb == 0x20) && (cb
        == 0 || cb == 0x10) ==> {
        let s = (zb + nb + hb + cb) as u8;
        &&& (s & 0x80 != 0) == (zb != 0)
        &&& (s & 0x40 != 0) == (nb != 0)
        &&& (s & 0x20 != 0) == (hb != 0)
        &&& (s & 0x10 != 0) == (cb != 0)
        &&& s & 0x0F == 0
        &&& s & 0xF0 == s
    }) by (bit_vector);
}

/// The register file.
#[derive(Clone, Copy, Debug, PartialEq, Eq, Structural)]
pub struct Registers {
    pub a: u8,
    /// Flag register: Z, N, H, C in bits 7 to 4; the low nibble stays clear.
    pub f: u8,
    pub b: u8,
    pub c: u8,
    pub d: u8,
    pub e: u8,
    pub h: u8,
    pub l: u8,
    pub pc: u16,
    pub sp: u16,
}

impl Registers {
    /// The power-on register file: every register zero.
    pub open spec fn zeroed() -> Registers {
        Registers { a: 0, f: 0, b: 0, c: 0, d: 0, e: 0, h: 0, l: 0, pc: 0, sp: 0 }
    }

    pub open spec fn bc(self) -> u16 {
        pair_value(self.b, self.c)
    }

    pub open spec fn de(self) -> u16 {
        pair_value(self.d, self.e)
    }

    pub open spec fn hl(self) -> u16 {
        pair_value(self.h, self.l)
    }

    pub open spec fn af(self) -> u16 {
        pair_value(self.a, self.f)
    }

    /// Whether `flag` is set in F.
    pub open spec fn flag(self, flag: Flag) -> bool {
        flag_set(self.f, flag)
    }

    pub open spec fn with_bc(self, w: u16) -> Registers {
        Registers { b: high_byte(w), c: low_byte(w), ..self }
    }

    pub open spec fn with_de(self, w: u16) -> Registers {
        Registers { d: high_byte(w), e: low_byte(w), ..self }
    }

    pub open spec fn with_hl(self, w: u16) -> Registers {
        Registers { h: high_byte(w), l: low_byte(w), ..self }
    }

    /// AF written with `w`; the low nibble of F stays clear.
    pub open spec fn with_af(self, w: u16) -> Registers {
        Registers { a: high_byte(w), f: low_byte(w) & 0xF0, ..self }
    }

    pub fn new() -> (r: Registers)
        ensures
            r == Registers::zeroed(),
    {
        Registers { a: 0x00, f: 0x00, b: 0x00, c: 0x00, d: 0x00, e: 0x00, h: 0x00, l: 0x00, pc: 0x0000, sp: 0x0000 }
    }

    pub fn get_hl(&self) -> (r: u16)
        ensures
            r == self.hl(),
    {
        (self.h as u16) * 256 + self.l as u16
    }

    pub fn get_bc(&self) -> (r: u16)
        ensures
            r == self.bc(),
    {
        (self.b as u16) * 256 + self.c as u16
    }

    pub fn get_af(&self) -> (r: u16)
        ensures
            r == self.af(),
    {
        (self.a as u16) * 256 + self.f as u16
    }

    pub fn get_de(&self) -> (r: u16)
        ensures
            r == self.de(),
    {
        (self.d as u16) * 256 + self.e as u16
    }

    pub fn set_hl(&mut self, word: u16)
        ensures
            *final(self) == old(self).with_hl(word),
    {
        self.h = (word / 256) as u8;
        self.l = (word % 256) as u8;
    }

    pub fn set_bc(&mut self, word: u16)
        ensures
            *final(self) == old(self).with_bc(word),
    {
        self.b = (word / 256) as u8;
        self.c = (word % 256) as u8;
    }

    pub fn set_af(&mut self, word: u16)
        ensures
            *final(self) == old(self).with_af(word),
    {
        self.a = (word / 256) as u8;
        self.f = ((word % 256) as u8) & 0xF0;
    }

    pub fn set_de(&mut self, word: u16)
        ensures
            *final(self) == old(self).with_de(word),
    {
        self.d = (word / 256) as u8;
        self.e = (word % 256) as u8;
    }

    /// Sets or clears one flag; the low nibble of F is cleared as well.
    pub fn set_flag(&mut self, flag: Flag, value: bool)
        ensures
            *final(self) == (Registers { f: with_flag(old(self).f, flag, value), ..*old(self) }),
            final(self).f & 0x0F == 0,
    {
        let mask = flag_mask_of(flag);
        let g = if value {
            self.f | mask
        } else {
            self.f & !mask
        };
        self.f = g & 0xF0;
        assert(g & 0xF0 & 0x0F == 0) by (bit_vector);
    }

    pub fn get_flag(&self, flag: Flag) -> (r: bool)
        ensures
            r == self.flag(flag),
    {
        let mask = flag_mask_of(flag);
        self.f & mask != 0
    }

    /// Replaces F by `flags` with its low nibble cleared.
    pub fn set_flags(&mut self, flags: u8)
        ensures
            *final(self) == (Registers { f: flags & 0xF0, ..*old(self) }),
    {
        self.f = flags & 0xF0;
    }

    /// Clears every flag.
    pub fn reset_flag(&mut self)
        ensures
            *final(self) == (Registers { f: 0, ..*old(self) }),
    {
        self.f = 0;
    }

    /// Rotates `byte` left through the carry flag: the old carry enters at
    /// bit 0, bit 7 becomes the new carry, Z reflects the result, N and H
    /// are cleared.
    pub fn rl_op(&mut self, byte: u8) -> (r: u8)
        ensures
            r == rotate_left_through(byte, old(self).flag(Flag::C)),
            *final(self) == (Registers {
                f: flag_bits(r == 0, false, false, byte >= 0x80),
                ..*old(self)
            }),
    {
        let carry_in: u8 = if self.get_flag(Flag::C) { 1 } else { 0 };
        let value: u8 = ((byte % 128) * 2) + carry_in;
        let flags = flag_byte(value == 0, false, false, byte >= 0x80);
        proof { lemma_flag_bits(value == 0, false, false, byte >= 0x80); }
        self.set_flags(flags);
        value
    }
}

/// `byte` rotated left by one, with `carry` shifted in at bit 0.
pub open spec fn rotate_left_through(byte: u8, carry: bool) -> u8 {
    ((byte as int % 128) * 2 + (if carry { 1int } else { 0 })) as u8
}

/// The mask of `flag` in F.
pub fn flag_mask_of(flag: Flag) -> (m: u8)
    ensures
        m == flag_mask(flag),
{
    match flag {
        Flag::C => 0x10,
        Flag::H => 0x20,
        Flag::N => 0x40,
        Flag::Z => 0x80,
    }
}

/// Writing a register pair and reading it back gives the word written.
/// For AF this holds of words whose low nibble is clear, since F never
/// holds a low nibble.
pub proof fn lemma_pair_round_trip(r: Registers, w: u16)
    ensures
        r.with_bc(w).bc() == w,
        r.with_de(w).de() == w,
        r.with_hl(w).hl() == w,
        w % 16 == 0 ==> r.with_af(w).af() == w,
{
    let lo = low_byte(w);
    assert(lo == w % 256);
    assert(w % 16 == 0 ==> lo % 16 == 0);
    assert(lo % 16 == 0 ==> lo & 0xF0 == lo) by (bit_vector);
}

/// After any `set_flag`, the low nibble of F is clear.
pub proof fn lemma_set_flag_clears_low_nibble(f: u8, flag: Flag, value: bool)
    ensures
        with_flag(f, flag, value) & 0x0F == 0,
{
    let m = flag_mask(flag);
    assert((f | m) & 0xF0 & 0x0F == 0 && (f & !m) & 0xF0 & 0x0F == 0) by (bit_vector);
}

/// A flag byte built from four flags has its low nibble clear.
pub broadcast proof fn lemma_flag_bits_low_nibble(z: bool, n: bool, h: bool, c: bool)
    ensures
        #[trigger] flag_bits(z, n, h, c) & 0x0F == 0,
{
    lemma_flag_bits(z, n, h, c);
}

/// Setting or clearing a flag leaves the low nibble of F clear.
pub broadcast proof fn lemma_with_flag_low_nibble(f: u8, flag: Flag, value: bool)
    ensures
        #[trigger] with_flag(f, flag, value) & 0x0F == 0,
{
    lemma_set_flag_clears_low_nibble(f, flag, value);
}

/// Writing AF leaves the low nibble of F clear.
pub broadcast proof fn lemma_with_af_low_nibble(r: Registers, w: u16)
    ensures
        #[trigger] r.with_af(w).f & 0x0F == 0,
{
    let lo = low_byte(w);
    assert(lo & 0xF0 & 0x0F == 0) by (bit_vector);
}

/// Every way the engine writes F keeps its low nibble clear.
pub broadcast group group_flag_low_nibble {
    lemma_flag_bits_low_nibble,
    lemma_with_flag_low_nibble,
    lemma_with_af_low_nibble,
}

} // verus!
