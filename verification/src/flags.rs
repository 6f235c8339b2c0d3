use vstd::prelude::*;

verus! {

/// The 6502 processor status register P, one field per flag.
///
/// Bit layout of the register byte: C=0x01, Z=0x02, I=0x04, D=0x08,
/// B=0x10, U=0x20 (unused, reads as 1 when pushed), V=0x40, N=0x80.
#[derive(Clone, Copy)]
pub struct Flags {
    /// Carry.
    pub c: bool,
    /// Zero.
    pub z: bool,
    /// Interrupt disable.
    pub i: bool,
    /// Decimal mode.
    pub d: bool,
    /// Break.
    pub b: bool,
    /// Unused bit 5.
    pub u: bool,
    /// Overflow.
    pub v: bool,
    /// Negative.
    pub n: bool,
}

pub open spec fn bit_value(set: bool, weight: int) -> int {
    if set { weight } else { 0 }
}

/// The register byte that a flag set stands for.
pub open spec fn flags_byte(f: Flags) -> u8 {
    (bit_value(f.c, 1) + bit_value(f.z, 2) + bit_value(f.i, 4) + bit_value(f.d, 8)
        + bit_value(f.b, 16) + bit_value(f.u, 32) + bit_value(f.v, 64) + bit_value(f.n, 128)) as u8
}

/// Whether bit `k` (weight 2^k) of `v` is set.
pub open spec fn bit_at(v: u8, weight: int) -> bool {
    (v as int / weight) % 2 == 1
}

/// The flag set a register byte stands for; every one of the eight bits is a flag.
pub open spec fn flags_from_byte(v: u8) -> Flags {
    Flags {
        c: bit_at(v, 1),
        z: bit_at(v, 2),
        i: bit_at(v, 4),
        d: bit_at(v, 8),
        b: bit_at(v, 16),
        u: bit_at(v, 32),
        v: bit_at(v, 64),
        n: bit_at(v, 128),
    }
}

/// The register value after power-on and reset: I and U set, all others clear.
pub open spec fn reset_flags() -> Flags {
    Flags { c: false, z: false, i: true, d: false, b: false, u: true, v: false, n: false }
}

impl Flags {
    /// Interrupt-disable and the unused bit set, all others clear.
    pub fn reset_value() -> (r: Self)
        ensures
            r == reset_flags(),
    {
        Flags { c: false, z: false, i: true, d: false, b: false, u: true, v: false, n: false }
    }

    /// The register as a byte.
    pub fn bits(&self) -> (r: u8)
        ensures
            r == flags_byte(*self),
    {
        let mut r: u8 = 0;
        if self.c { r = r + 1; }
        if self.z { r = r + 2; }
        if self.i { r = r + 4; }
        if self.d { r = r + 8; }
        if self.b { r = r + 16; }
        if self.u { r = r + 32; }
        if self.v { r = r + 64; }
        if self.n { r = r + 128; }
        r
    }

    /// The flags a register byte stands for (all eight bits are defined flags).
    pub fn from_bits_truncate(v: u8) -> (r: Self)
        ensures
            r == flags_from_byte(v),
    {
        Flags {
            c: v % 2 == 1,
            z: (v / 2) % 2 == 1,
            i: (v / 4) % 2 == 1,
            d: (v / 8) % 2 == 1,
            b: (v / 16) % 2 == 1,
            u: (v / 32) % 2 == 1,
            v: (v / 64) % 2 == 1,
            n: (v / 128) % 2 == 1,
        }
    }
}

/// Writing a flag set as a byte and reading it back gives the same flags.
pub proof fn lemma_flags_from_byte_of_flags(f: Flags)
    ensures
        flags_from_byte(flags_byte(f)) == f,
{
    let lo = bit_value(f.c, 1) + bit_value(f.z, 2) + bit_value(f.i, 4) + bit_value(f.d, 8);
    let hi = bit_value(f.b, 1) + bit_value(f.u, 2) + bit_value(f.v, 4) + bit_value(f.n, 8);
    let x = lo + 16 * hi;
    assert(flags_byte(f) as int == x);
    assert(x / 16 == hi && x % 16 == lo);
    assert(x / 2 == (x / 16) * 8 + lo / 2);
    assert(x / 4 == (x / 16) * 4 + lo / 4);
    assert(x / 8 == (x / 16) * 2 + lo / 8);
    assert(x / 32 == hi / 2);
    assert(x / 64 == hi / 4);
    assert(x / 128 == hi / 8);
}

/// Reading a byte as flags and writing them back gives the same byte: all
/// eight bits of the register are flags.
pub proof fn lemma_byte_of_flags_from_byte(v: u8)
    ensures
        flags_byte(flags_from_byte(v)) == v,
{
    let x = v as int;
    let q1 = x / 2;
    let q2 = q1 / 2;
    let q3 = q2 / 2;
    let q4 = q3 / 2;
    let q5 = q4 / 2;
    let q6 = q5 / 2;
    let q7 = q6 / 2;
    assert(x / 4 == q2);
    assert(x / 8 == q3);
    assert(x / 16 == q4);
    assert(x / 32 == q5);
    assert(x / 64 == q6);
    assert(x / 128 == q7);
    assert(q7 < 2);
}

} // verus!
