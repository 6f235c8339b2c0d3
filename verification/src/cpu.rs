use vstd::prelude::*;
use crate::flags::{Flags, flags_byte, flags_from_byte, reset_flags};

verus! {

/// A 6502 address space. Reads may have side effects (bank switching,
/// strobes), so both reads and writes are stated as state transitions of the
/// memory's model `Self::V`.
pub trait Memory: View + Sized {
    /// The byte that a read of `addr` returns in the state `m`.
    spec fn peek(m: Self::V, addr: u16) -> u8;

    /// The state after a read of `addr` in the state `m`.
    spec fn after_read(m: Self::V, addr: u16) -> Self::V;

    /// The state after writing `val` to `addr` in the state `m`.
    spec fn after_write(m: Self::V, addr: u16, val: u8) -> Self::V;

    /// The memory's well-formedness, kept by every read and write.
    spec fn inv(&self) -> bool;

    fn read(&mut self, addr: u16) -> (v: u8)
        requires
            old(self).inv(),
        ensures
            final(self).inv(),
            v == Self::peek(old(self)@, addr),
            final(self)@ == Self::after_read(old(self)@, addr),
    ;

    fn write(&mut self, addr: u16, val: u8)
        requires
            old(self).inv(),
        ensures
            final(self).inv(),
            final(self)@ == Self::after_write(old(self)@, addr, val),
    ;
}

/// The MOS 6507 processor (a 6502 with 13 address lines).
#[derive(Clone, Copy)]
pub struct Cpu6502 {
    pub a: u8,
    pub x: u8,
    pub y: u8,
    pub sp: u8,
    pub pc: u16,
    pub p: Flags,
    /// Cycles executed since power-on.
    pub cycles: u64,
    /// Set once an opcode that is not implemented has been met.
    pub stopped: bool,
    /// Address of the last instruction fetched.
    pub last_pc: u16,
    /// Opcode of the last instruction fetched.
    pub last_op: u8,
}

// ---------------------------------------------------------------------------
// Arithmetic on bytes and words.
// ---------------------------------------------------------------------------

/// `v` reduced to a byte (two's-complement wrap-around).
pub open spec fn w8(v: int) -> u8 {
    (v % 256) as u8
}

/// `v` reduced to a 16-bit word (wrap-around).
pub open spec fn w16(v: int) -> u16 {
    (v % 65536) as u16
}

/// The little-endian word made of `lo` and `hi`.
pub open spec fn word(lo: u8, hi: u8) -> u16 {
    (hi as int * 256 + lo as int) as u16
}

pub open spec fn hi_byte(v: u16) -> u8 {
    (v as int / 256) as u8
}

pub open spec fn lo_byte(v: u16) -> u8 {
    (v as int % 256) as u8
}

/// A byte read as a two's-complement signed number.
pub open spec fn signed8(v: u8) -> int {
    if v >= 128 { v as int - 256 } else { v as int }
}

/// Whether a byte is negative (bit 7 set).
pub open spec fn neg8(v: u8) -> bool {
    v >= 128
}

// ---------------------------------------------------------------------------
// Register-level semantics.
// ---------------------------------------------------------------------------

/// Z set iff `v` is zero, N set iff bit 7 of `v` is set.
pub open spec fn with_zn(c: Cpu6502, v: u8) -> Cpu6502 {
    Cpu6502 { p: Flags { z: v == 0, n: neg8(v), ..c.p }, ..c }
}

/// Add with carry (binary mode): A + v + C.
pub open spec fn adc_s(c: Cpu6502, v: u8) -> Cpu6502 {
    let sum = c.a as int + v as int + (if c.p.c { 1int } else { 0int });
    let r = w8(sum);
    let overflow = neg8(c.a) == neg8(v) && neg8(r) != neg8(c.a);
    Cpu6502 {
        a: r,
        p: Flags { c: sum > 255, v: overflow, z: r == 0, n: neg8(r), ..c.p },
        ..c
    }
}

/// Subtract with borrow (binary mode): A + !v + C.
pub open spec fn sbc_s(c: Cpu6502, v: u8) -> Cpu6502 {
    adc_s(c, (255 - v) as u8)
}

/// Compare `r` with `v`: C iff r >= v, Z/N from r - v.
pub open spec fn compare_s(c: Cpu6502, r: u8, v: u8) -> Cpu6502 {
    let d = w8(r as int - v as int);
    Cpu6502 { p: Flags { c: r >= v, z: d == 0, n: neg8(d), ..c.p }, ..c }
}

#[derive(Clone, Copy)]
pub enum ShiftOp {
    Asl,
    Lsr,
    Rol,
    Ror,
}

/// The result of a shift or rotate of `v`, and the carry it leaves.
pub open spec fn shift_result(op: ShiftOp, v: u8, carry: bool) -> (u8, bool) {
    match op {
        ShiftOp::Asl => (w8(v * 2), v >= 128),
        ShiftOp::Lsr => ((v / 2) as u8, v % 2 == 1),
        ShiftOp::Rol => (w8(v * 2 + (if carry { 1int } else { 0int })), v >= 128),
        ShiftOp::Ror => ((v / 2 + (if carry { 128int } else { 0int })) as u8, v % 2 == 1),
    }
}

/// A shift or rotate of `v`: the new carry, Z and N from the result.
pub open spec fn shift_s(c: Cpu6502, op: ShiftOp, v: u8) -> (Cpu6502, u8) {
    let (r, carry) = shift_result(op, v, c.p.c);
    (with_zn(Cpu6502 { p: Flags { c: carry, ..c.p }, ..c }, r), r)
}


// ---------------------------------------------------------------------------
// Bus transactions.
// ---------------------------------------------------------------------------

/// Read the byte at PC and advance PC.
pub open spec fn fetch_s<M: Memory>(c: Cpu6502, m: M::V) -> (Cpu6502, M::V, u8) {
    (Cpu6502 { pc: w16(c.pc + 1), ..c }, M::after_read(m, c.pc), M::peek(m, c.pc))
}

/// A read of `addr`: the new memory state and the byte.
pub open spec fn read_s<M: Memory>(m: M::V, addr: u16) -> (M::V, u8) {
    (M::after_read(m, addr), M::peek(m, addr))
}

/// Push `v` onto the stack page at 0x0100 + SP, then decrement SP.
pub open spec fn push_s<M: Memory>(c: Cpu6502, m: M::V, v: u8) -> (Cpu6502, M::V) {
    (Cpu6502 { sp: w8(c.sp - 1), ..c }, M::after_write(m, (0x100 + c.sp) as u16, v))
}

/// Increment SP, then read the stack page at 0x0100 + SP.
pub open spec fn pop_s<M: Memory>(c: Cpu6502, m: M::V) -> (Cpu6502, M::V, u8) {
    let sp = w8(c.sp + 1);
    let (m1, v) = read_s::<M>(m, (0x100 + sp) as u16);
    (Cpu6502 { sp: sp, ..c }, m1, v)
}

/// Operand addressing modes.
#[derive(Clone, Copy)]
pub enum Mode {
    /// The operand is the byte after the opcode.
    Imm,
    /// Zero page.
    Zp,
    /// Zero page indexed by X (wraps within the zero page).
    Zpx,
    /// Zero page indexed by Y (wraps within the zero page).
    Zpy,
    /// Absolute.
    Abs,
    /// Absolute indexed by X.
    Absx,
    /// Absolute indexed by Y.
    Absy,
    /// (zp,X): pointer in the zero page at operand + X.
    Indx,
    /// (zp),Y: pointer in the zero page at operand, plus Y.
    Indy,
}

/// Read a little-endian pointer from the zero page at `p` and `p + 1`
/// (the second address wraps within the zero page).
pub open spec fn zp_pointer_s<M: Memory>(m: M::V, p: u8) -> (M::V, u16) {
    let (m1, lo) = read_s::<M>(m, p as u16);
    let (m2, hi) = read_s::<M>(m1, w8(p + 1) as u16);
    (m2, word(lo, hi))
}

/// A two-byte absolute address from the program bytes at PC.
pub open spec fn abs_s<M: Memory>(c: Cpu6502, m: M::V) -> (Cpu6502, M::V, u16) {
    let (c1, m1, lo) = fetch_s::<M>(c, m);
    let (c2, m2, hi) = fetch_s::<M>(c1, m1);
    (c2, m2, word(lo, hi))
}

/// The effective address of an operand in `mode`, with the operand bytes
/// fetched (and pointers read) in the order the processor does.
pub open spec fn address_s<M: Memory>(c: Cpu6502, m: M::V, mode: Mode) -> (Cpu6502, M::V, u16) {
    match mode {
        Mode::Zp => {
            let (c1, m1, b) = fetch_s::<M>(c, m);
            (c1, m1, b as u16)
        },
        Mode::Zpx => {
            let (c1, m1, b) = fetch_s::<M>(c, m);
            (c1, m1, w8(b + c.x) as u16)
        },
        Mode::Zpy => {
            let (c1, m1, b) = fetch_s::<M>(c, m);
            (c1, m1, w8(b + c.y) as u16)
        },
        Mode::Abs => abs_s::<M>(c, m),
        Mode::Absx => {
            let (c1, m1, a) = abs_s::<M>(c, m);
            (c1, m1, w16(a + c.x))
        },
        Mode::Absy => {
            let (c1, m1, a) = abs_s::<M>(c, m);
            (c1, m1, w16(a + c.y))
        },
        Mode::Indx => {
            let (c1, m1, b) = fetch_s::<M>(c, m);
            let (m2, a) = zp_pointer_s::<M>(m1, w8(b + c.x));
            (c1, m2, a)
        },
        Mode::Indy => {
            let (c1, m1, b) = fetch_s::<M>(c, m);
            let (m2, a) = zp_pointer_s::<M>(m1, b);
            (c1, m2, w16(a + c.y))
        },
        Mode::Imm => (c, m, c.pc),
    }
}

/// The operand byte of an instruction in `mode`: the next program byte for
/// immediate mode, otherwise a read of the effective address.
pub open spec fn operand_s<M: Memory>(c: Cpu6502, m: M::V, mode: Mode) -> (Cpu6502, M::V, u8) {
    match mode {
        Mode::Imm => fetch_s::<M>(c, m),
        _ => {
            let (c1, m1, a) = address_s::<M>(c, m, mode);
            let (m2, v) = read_s::<M>(m1, a);
            (c1, m2, v)
        },
    }
}

// ---------------------------------------------------------------------------
// Instruction set.
// ---------------------------------------------------------------------------

#[derive(Clone, Copy)]
pub enum Reg {
    A,
    X,
    Y,
}

#[derive(Clone, Copy)]
pub enum Logic {
    Ora,
    And,
    Eor,
}

/// The flags that instructions set, clear or branch on.
#[derive(Clone, Copy)]
pub enum Flag {
    C,
    Z,
    I,
    D,
    V,
    N,
}

/// What an opcode does.
#[derive(Clone, Copy)]
pub enum Op {
    Brk,
    Nop,
    Load(Reg, Mode),
    Store(Reg, Mode),
    Tax,
    Tay,
    Txa,
    Tya,
    Tsx,
    Txs,
    /// INX / INY.
    IncReg(Reg),
    /// DEX / DEY.
    DecReg(Reg),
    Adc(Mode),
    Sbc(Mode),
    /// CMP / CPX / CPY.
    Compare(Reg, Mode),
    Logic(Logic, Mode),
    Bit(Mode),
    Jmp,
    JmpInd,
    Jsr,
    Rts,
    Rti,
    Pha,
    Pla,
    Php,
    Plp,
    /// SEC/CLC/SEI/CLI/SED/CLD/CLV.
    SetFlag(Flag, bool),
    /// Branch when the flag has the given value.
    Branch(Flag, bool),
    IncMem(Mode),
    DecMem(Mode),
    ShiftA(ShiftOp),
    ShiftMem(ShiftOp, Mode),
    /// An undocumented NOP that skips one operand byte.
    Skip1,
    /// An undocumented NOP that skips two operand bytes.
    Skip2,
    /// An opcode that is not implemented: the processor stops.
    Illegal,
}

/// A decoded opcode: its operation and its cycle count (for branches, the
/// count when not taken).
#[derive(Clone, Copy)]
pub struct Instr {
    pub op: Op,
    pub cycles: u32,
}

pub open spec fn ins(op: Op, cycles: u32) -> Instr {
    Instr { op, cycles }
}

/// The opcode table.
#[verifier::opaque]
pub open spec fn decode_spec(op: u8) -> Instr {
    match op {
        0x00 => ins(Op::Brk, 7),
        0xea => ins(Op::Nop, 2),
        0xa9 => ins(Op::Load(Reg::A, Mode::Imm), 2),
        0xa5 => ins(Op::Load(Reg::A, Mode::Zp), 3),
        0xb5 => ins(Op::Load(Reg::A, Mode::Zpx), 4),
        0xad => ins(Op::Load(Reg::A, Mode::Abs), 4),
        0xbd => ins(Op::Load(Reg::A, Mode::Absx), 4),
        0xb9 => ins(Op::Load(Reg::A, Mode::Absy), 4),
        0xa1 => ins(Op::Load(Reg::A, Mode::Indx), 6),
        0xb1 => ins(Op::Load(Reg::A, Mode::Indy), 5),
        0xa2 => ins(Op::Load(Reg::X, Mode::Imm), 2),
        0xa6 => ins(Op::Load(Reg::X, Mode::Zp), 3),
        0xb6 => ins(Op::Load(Reg::X, Mode::Zpy), 4),
        0xae => ins(Op::Load(Reg::X, Mode::Abs), 4),
        0xbe => ins(Op::Load(Reg::X, Mode::Absy), 4),
        0xa0 => ins(Op::Load(Reg::Y, Mode::Imm), 2),
        0xa4 => ins(Op::Load(Reg::Y, Mode::Zp), 3),
        0xb4 => ins(Op::Load(Reg::Y, Mode::Zpx), 4),
        0xac => ins(Op::Load(Reg::Y, Mode::Abs), 4),
        0xbc => ins(Op::Load(Reg::Y, Mode::Absx), 4),
        0x85 => ins(Op::Store(Reg::A, Mode::Zp), 3),
        0x95 => ins(Op::Store(Reg::A, Mode::Zpx), 4),
        0x8d => ins(Op::Store(Reg::A, Mode::Abs), 4),
        0x9d => ins(Op::Store(Reg::A, Mode::Absx), 5),
        0x99 => ins(Op::Store(Reg::A, Mode::Absy), 5),
        0x81 => ins(Op::Store(Reg::A, Mode::Indx), 6),
        0x91 => ins(Op::Store(Reg::A, Mode::Indy), 6),
        0x86 => ins(Op::Store(Reg::X, Mode::Zp), 3),
        0x96 => ins(Op::Store(Reg::X, Mode::Zpy), 4),
        0x8e => ins(Op::Store(Reg::X, Mode::Abs), 4),
        0x84 => ins(Op::Store(Reg::Y, Mode::Zp), 3),
        0x94 => ins(Op::Store(Reg::Y, Mode::Zpx), 4),
        0x8c => ins(Op::Store(Reg::Y, Mode::Abs), 4),
        0xaa => ins(Op::Tax, 2),
        0xa8 => ins(Op::Tay, 2),
        0x8a => ins(Op::Txa, 2),
        0x98 => ins(Op::Tya, 2),
        0xba => ins(Op::Tsx, 2),
        0x9a => ins(Op::Txs, 2),
        0xe8 => ins(Op::IncReg(Reg::X), 2),
        0xc8 => ins(Op::IncReg(Reg::Y), 2),
        0xca => ins(Op::DecReg(Reg::X), 2),
        0x88 => ins(Op::DecReg(Reg::Y), 2),
        0x69 => ins(Op::Adc(Mode::Imm), 2),
        0x65 => ins(Op::Adc(Mode::Zp), 3),
        0x75 => ins(Op::Adc(Mode::Zpx), 4),
        0x6d => ins(Op::Adc(Mode::Abs), 4),
        0x7d => ins(Op::Adc(Mode::Absx), 4),
        0x79 => ins(Op::Adc(Mode::Absy), 4),
        0x61 => ins(Op::Adc(Mode::Indx), 6),
        0x71 => ins(Op::Adc(Mode::Indy), 5),
        0xe9 | 0xeb => ins(Op::Sbc(Mode::Imm), 2),
        0xe5 => ins(Op::Sbc(Mode::Zp), 3),
        0xf5 => ins(Op::Sbc(Mode::Zpx), 4),
        0xed => ins(Op::Sbc(Mode::Abs), 4),
        0xfd => ins(Op::Sbc(Mode::Absx), 4),
        0xf9 => ins(Op::Sbc(Mode::Absy), 4),
        0xe1 => ins(Op::Sbc(Mode::Indx), 6),
        0xf1 => ins(Op::Sbc(Mode::Indy), 5),
        0xc9 => ins(Op::Compare(Reg::A, Mode::Imm), 2),
        0xc5 => ins(Op::Compare(Reg::A, Mode::Zp), 3),
        0xd5 => ins(Op::Compare(Reg::A, Mode::Zpx), 4),
        0xcd => ins(Op::Compare(Reg::A, Mode::Abs), 4),
        0xdd => ins(Op::Compare(Reg::A, Mode::Absx), 4),
        0xd9 => ins(Op::Compare(Reg::A, Mode::Absy), 4),
        0xc1 => ins(Op::Compare(Reg::A, Mode::Indx), 6),
        0xd1 => ins(Op::Compare(Reg::A, Mode::Indy), 5),
        0xe0 => ins(Op::Compare(Reg::X, Mode::Imm), 2),
        0xe4 => ins(Op::Compare(Reg::X, Mode::Zp), 3),
        0xec => ins(Op::Compare(Reg::X, Mode::Abs), 4),
        0xc0 => ins(Op::Compare(Reg::Y, Mode::Imm), 2),
        0xc4 => ins(Op::Compare(Reg::Y, Mode::Zp), 3),
        0xcc => ins(Op::Compare(Reg::Y, Mode::Abs), 4),
        0x09 => ins(Op::Logic(Logic::Ora, Mode::Imm), 2),
        0x05 => ins(Op::Logic(Logic::Ora, Mode::Zp), 3),
        0x15 => ins(Op::Logic(Logic::Ora, Mode::Zpx), 4),
        0x0d => ins(Op::Logic(Logic::Ora, Mode::Abs), 4),
        0x1d => ins(Op::Logic(Logic::Ora, Mode::Absx), 4),
        0x19 => ins(Op::Logic(Logic::Ora, Mode::Absy), 4),
        0x01 => ins(Op::Logic(Logic::Ora, Mode::Indx), 6),
        0x11 => ins(Op::Logic(Logic::Ora, Mode::Indy), 5),
        0x29 => ins(Op::Logic(Logic::And, Mode::Imm), 2),
        0x25 => ins(Op::Logic(Logic::And, Mode::Zp), 3),
        0x35 => ins(Op::Logic(Logic::And, Mode::Zpx), 4),
        0x2d => ins(Op::Logic(Logic::And, Mode::Abs), 4),
        0x3d => ins(Op::Logic(Logic::And, Mode::Absx), 4),
        0x39 => ins(Op::Logic(Logic::And, Mode::Absy), 4),
        0x21 => ins(Op::Logic(Logic::And, Mode::Indx), 6),
        0x31 => ins(Op::Logic(Logic::And, Mode::Indy), 5),
        0x49 => ins(Op::Logic(Logic::Eor, Mode::Imm), 2),
        0x45 => ins(Op::Logic(Logic::Eor, Mode::Zp), 3),
        0x55 => ins(Op::Logic(Logic::Eor, Mode::Zpx), 4),
        0x4d => ins(Op::Logic(Logic::Eor, Mode::Abs), 4),
        0x5d => ins(Op::Logic(Logic::Eor, Mode::Absx), 4),
        0x59 => ins(Op::Logic(Logic::Eor, Mode::Absy), 4),
        0x41 => ins(Op::Logic(Logic::Eor, Mode::Indx), 6),
        0x51 => ins(Op::Logic(Logic::Eor, Mode::Indy), 5),
        0x24 => ins(Op::Bit(Mode::Zp), 3),
        0x2c => ins(Op::Bit(Mode::Abs), 4),
        0x4c => ins(Op::Jmp, 3),
        0x6c => ins(Op::JmpInd, 5),
        0x20 => ins(Op::Jsr, 6),
        0x60 => ins(Op::Rts, 6),
        0x40 => ins(Op::Rti, 6),
        0x48 => ins(Op::Pha, 3),
        0x68 => ins(Op::Pla, 4),
        0x08 => ins(Op::Php, 3),
        0x28 => ins(Op::Plp, 4),
        0x18 => ins(Op::SetFlag(Flag::C, false), 2),
        0x38 => ins(Op::SetFlag(Flag::C, true), 2),
        0x58 => ins(Op::SetFlag(Flag::I, false), 2),
        0x78 => ins(Op::SetFlag(Flag::I, true), 2),
        0xb8 => ins(Op::SetFlag(Flag::V, false), 2),
        0xd8 => ins(Op::SetFlag(Flag::D, false), 2),
        0xf8 => ins(Op::SetFlag(Flag::D, true), 2),
        0x10 => ins(Op::Branch(Flag::N, false), 2),
        0x30 => ins(Op::Branch(Flag::N, true), 2),
        0x50 => ins(Op::Branch(Flag::V, false), 2),
        0x70 => ins(Op::Branch(Flag::V, true), 2),
        0x90 => ins(Op::Branch(Flag::C, false), 2),
        0xb0 => ins(Op::Branch(Flag::C, true), 2),
        0xd0 => ins(Op::Branch(Flag::Z, false), 2),
        0xf0 => ins(Op::Branch(Flag::Z, true), 2),
        0xe6 => ins(Op::IncMem(Mode::Zp), 5),
        0xf6 => ins(Op::IncMem(Mode::Zpx), 6),
        0xee => ins(Op::IncMem(Mode::Abs), 6),
        0xfe => ins(Op::IncMem(Mode::Absx), 7),
        0xc6 => ins(Op::DecMem(Mode::Zp), 5),
        0xd6 => ins(Op::DecMem(Mode::Zpx), 6),
        0xce => ins(Op::DecMem(Mode::Abs), 6),
        0xde => ins(Op::DecMem(Mode::Absx), 7),
        0x0a => ins(Op::ShiftA(ShiftOp::Asl), 2),
        0x06 => ins(Op::ShiftMem(ShiftOp::Asl, Mode::Zp), 5),
        0x16 => ins(Op::ShiftMem(ShiftOp::Asl, Mode::Zpx), 6),
        0x0e => ins(Op::ShiftMem(ShiftOp::Asl, Mode::Abs), 6),
        0x1e => ins(Op::ShiftMem(ShiftOp::Asl, Mode::Absx), 7),
        0x4a => ins(Op::ShiftA(ShiftOp::Lsr), 2),
        0x46 => ins(Op::ShiftMem(ShiftOp::Lsr, Mode::Zp), 5),
        0x56 => ins(Op::ShiftMem(ShiftOp::Lsr, Mode::Zpx), 6),
        0x4e => ins(Op::ShiftMem(ShiftOp::Lsr, Mode::Abs), 6),
        0x5e => ins(Op::ShiftMem(ShiftOp::Lsr, Mode::Absx), 7),
        0x2a => ins(Op::ShiftA(ShiftOp::Rol), 2),
        0x26 => ins(Op::ShiftMem(ShiftOp::Rol, Mode::Zp), 5),
        0x36 => ins(Op::ShiftMem(ShiftOp::Rol, Mode::Zpx), 6),
        0x2e => ins(Op::ShiftMem(ShiftOp::Rol, Mode::Abs), 6),
        0x3e => ins(Op::ShiftMem(ShiftOp::Rol, Mode::Absx), 7),
        0x6a => ins(Op::ShiftA(ShiftOp::Ror), 2),
        0x66 => ins(Op::ShiftMem(ShiftOp::Ror, Mode::Zp), 5),
        0x76 => ins(Op::ShiftMem(ShiftOp::Ror, Mode::Zpx), 6),
        0x6e => ins(Op::ShiftMem(ShiftOp::Ror, Mode::Abs), 6),
        0x7e => ins(Op::ShiftMem(ShiftOp::Ror, Mode::Absx), 7),
        0x1a | 0x3a | 0x5a | 0x7a | 0xda | 0xfa => ins(Op::Nop, 2),
        0x80 | 0x82 | 0x89 | 0xc2 | 0xe2 | 0x04 | 0x44 | 0x64 => ins(Op::Skip1, 2),
        0x14 | 0x34 | 0x54 | 0x74 | 0xd4 | 0xf4 => ins(Op::Skip1, 4),
        0x0c => ins(Op::Skip2, 4),
        0x1c | 0x3c | 0x5c | 0x7c | 0xdc | 0xfc => ins(Op::Skip2, 4),
        _ => ins(Op::Illegal, 1),
    }
}

pub open spec fn reg_value(c: Cpu6502, r: Reg) -> u8 {
    match r {
        Reg::A => c.a,
        Reg::X => c.x,
        Reg::Y => c.y,
    }
}

pub open spec fn with_reg(c: Cpu6502, r: Reg, v: u8) -> Cpu6502 {
    match r {
        Reg::A => Cpu6502 { a: v, ..c },
        Reg::X => Cpu6502 { x: v, ..c },
        Reg::Y => Cpu6502 { y: v, ..c },
    }
}

pub open spec fn flag_value(f: Flags, which: Flag) -> bool {
    match which {
        Flag::C => f.c,
        Flag::Z => f.z,
        Flag::I => f.i,
        Flag::D => f.d,
        Flag::V => f.v,
        Flag::N => f.n,
    }
}

pub open spec fn with_flag(f: Flags, which: Flag, v: bool) -> Flags {
    match which {
        Flag::C => Flags { c: v, ..f },
        Flag::Z => Flags { z: v, ..f },
        Flag::I => Flags { i: v, ..f },
        Flag::D => Flags { d: v, ..f },
        Flag::V => Flags { v: v, ..f },
        Flag::N => Flags { n: v, ..f },
    }
}

pub open spec fn logic_result(l: Logic, a: u8, v: u8) -> u8 {
    match l {
        Logic::Ora => a | v,
        Logic::And => a & v,
        Logic::Eor => a ^ v,
    }
}

/// The status byte that BRK and PHP push: P with B and U set.
pub open spec fn pushed_status(f: Flags) -> u8 {
    flags_byte(Flags { b: true, u: true, ..f })
}

/// P as PLP and RTI restore it: the popped byte with U forced on.
pub open spec fn pulled_status(v: u8) -> Flags {
    Flags { u: true, ..flags_from_byte(v) }
}

/// Push the two bytes of a return address, high byte first.
pub open spec fn push_word_s<M: Memory>(c: Cpu6502, m: M::V, v: u16) -> (Cpu6502, M::V) {
    let (c1, m1) = push_s::<M>(c, m, hi_byte(v));
    push_s::<M>(c1, m1, lo_byte(v))
}

/// Pop a return address, low byte first.
pub open spec fn pop_word_s<M: Memory>(c: Cpu6502, m: M::V) -> (Cpu6502, M::V, u16) {
    let (c1, m1, lo) = pop_s::<M>(c, m);
    let (c2, m2, hi) = pop_s::<M>(c1, m1);
    (c2, m2, word(lo, hi))
}

/// Execute a decoded instruction whose opcode has already been fetched:
/// the new processor and memory states and the cycles taken.
#[verifier::opaque]
pub open spec fn execute_s<M: Memory>(c: Cpu6502, m: M::V, i: Instr) -> (Cpu6502, M::V, u32) {
    match i.op {
        Op::Brk => {
            let c0 = Cpu6502 { pc: w16(c.pc + 1), ..c };
            let (c1, m1) = push_word_s::<M>(c0, m, c0.pc);
            let (c2, m2) = push_s::<M>(c1, m1, pushed_status(c.p));
            let (m3, lo) = read_s::<M>(m2, 0xfffe);
            let (m4, hi) = read_s::<M>(m3, 0xffff);
            (Cpu6502 { pc: word(lo, hi), p: Flags { i: true, ..c2.p }, ..c2 }, m4, i.cycles)
        },
        Op::Nop => (c, m, i.cycles),
        Op::Load(r, mode) => {
            let (c1, m1, v) = operand_s::<M>(c, m, mode);
            (with_zn(with_reg(c1, r, v), v), m1, i.cycles)
        },
        Op::Store(r, mode) => {
            let (c1, m1, a) = address_s::<M>(c, m, mode);
            (c1, M::after_write(m1, a, reg_value(c, r)), i.cycles)
        },
        Op::Tax => (with_zn(Cpu6502 { x: c.a, ..c }, c.a), m, i.cycles),
        Op::Tay => (with_zn(Cpu6502 { y: c.a, ..c }, c.a), m, i.cycles),
        Op::Txa => (with_zn(Cpu6502 { a: c.x, ..c }, c.x), m, i.cycles),
        Op::Tya => (with_zn(Cpu6502 { a: c.y, ..c }, c.y), m, i.cycles),
        Op::Tsx => (with_zn(Cpu6502 { x: c.sp, ..c }, c.sp), m, i.cycles),
        Op::Txs => (Cpu6502 { sp: c.x, ..c }, m, i.cycles),
        Op::IncReg(r) => {
            let v = w8(reg_value(c, r) + 1);
            (with_zn(with_reg(c, r, v), v), m, i.cycles)
        },
        Op::DecReg(r) => {
            let v = w8(reg_value(c, r) - 1);
            (with_zn(with_reg(c, r, v), v), m, i.cycles)
        },
        Op::Adc(mode) => {
            let (c1, m1, v) = operand_s::<M>(c, m, mode);
            (adc_s(c1, v), m1, i.cycles)
        },
        Op::Sbc(mode) => {
            let (c1, m1, v) = operand_s::<M>(c, m, mode);
            (sbc_s(c1, v), m1, i.cycles)
        },
        Op::Compare(r, mode) => {
            let (c1, m1, v) = operand_s::<M>(c, m, mode);
            (compare_s(c1, reg_value(c, r), v), m1, i.cycles)
        },
        Op::Logic(l, mode) => {
            let (c1, m1, v) = operand_s::<M>(c, m, mode);
            let r = logic_result(l, c.a, v);
            (with_zn(Cpu6502 { a: r, ..c1 }, r), m1, i.cycles)
        },
        Op::Bit(mode) => {
            let (c1, m1, v) = operand_s::<M>(c, m, mode);
            (Cpu6502 {
                p: Flags { z: c.a & v == 0, n: v & 0x80 != 0, v: v & 0x40 != 0, ..c1.p },
                ..c1
            }, m1, i.cycles)
        },
        Op::Jmp => {
            let (c1, m1, a) = abs_s::<M>(c, m);
            (Cpu6502 { pc: a, ..c1 }, m1, i.cycles)
        },
        Op::JmpInd => {
            // The pointer's high byte is read from the same page (6502 page wrap).
            let (c1, m1, p) = abs_s::<M>(c, m);
            let (m2, lo) = read_s::<M>(m1, p);
            let (m3, hi) = read_s::<M>(m2, word(w8(lo_byte(p) + 1), hi_byte(p)));
            (Cpu6502 { pc: word(lo, hi), ..c1 }, m3, i.cycles)
        },
        Op::Jsr => {
            let (c1, m1, a) = abs_s::<M>(c, m);
            let (c2, m2) = push_word_s::<M>(c1, m1, w16(c1.pc - 1));
            (Cpu6502 { pc: a, ..c2 }, m2, i.cycles)
        },
        Op::Rts => {
            let (c1, m1, a) = pop_word_s::<M>(c, m);
            (Cpu6502 { pc: w16(a + 1), ..c1 }, m1, i.cycles)
        },
        Op::Rti => {
            let (c1, m1, v) = pop_s::<M>(c, m);
            let (c2, m2, a) = pop_word_s::<M>(c1, m1);
            (Cpu6502 { pc: a, p: pulled_status(v), ..c2 }, m2, i.cycles)
        },
        Op::Pha => {
            let (c1, m1) = push_s::<M>(c, m, c.a);
            (c1, m1, i.cycles)
        },
        Op::Pla => {
            let (c1, m1, v) = pop_s::<M>(c, m);
            (with_zn(Cpu6502 { a: v, ..c1 }, v), m1, i.cycles)
        },
        Op::Php => {
            let (c1, m1) = push_s::<M>(c, m, pushed_status(c.p));
            (c1, m1, i.cycles)
        },
        Op::Plp => {
            let (c1, m1, v) = pop_s::<M>(c, m);
            (Cpu6502 { p: pulled_status(v), ..c1 }, m1, i.cycles)
        },
        Op::SetFlag(f, v) => (Cpu6502 { p: with_flag(c.p, f, v), ..c }, m, i.cycles),
        Op::Branch(f, v) => {
            let (c1, m1, off) = fetch_s::<M>(c, m);
            if flag_value(c.p, f) == v {
                (Cpu6502 { pc: w16(c1.pc + signed8(off)), ..c1 }, m1, 3)
            } else {
                (c1, m1, 2)
            }
        },
        Op::IncMem(mode) => {
            let (c1, m1, a) = address_s::<M>(c, m, mode);
            let (m2, v) = read_s::<M>(m1, a);
            let r = w8(v + 1);
            (with_zn(c1, r), M::after_write(m2, a, r), i.cycles)
        },
        Op::DecMem(mode) => {
            let (c1, m1, a) = address_s::<M>(c, m, mode);
            let (m2, v) = read_s::<M>(m1, a);
            let r = w8(v - 1);
            (with_zn(c1, r), M::after_write(m2, a, r), i.cycles)
        },
        Op::ShiftA(s) => {
            let (c1, r) = shift_s(c, s, c.a);
            (Cpu6502 { a: r, ..c1 }, m, i.cycles)
        },
        Op::ShiftMem(s, mode) => {
            let (c1, m1, a) = address_s::<M>(c, m, mode);
            let (m2, v) = read_s::<M>(m1, a);
            let (c2, r) = shift_s(c1, s, v);
            (c2, M::after_write(m2, a, r), i.cycles)
        },
        Op::Skip1 => {
            let (c1, m1, b) = fetch_s::<M>(c, m);
            (c1, m1, i.cycles)
        },
        Op::Skip2 => {
            let (c1, m1, a) = abs_s::<M>(c, m);
            (c1, m1, i.cycles)
        },
        Op::Illegal => (Cpu6502 { stopped: true, ..c }, m, i.cycles),
    }
}

/// One instruction: fetch the opcode at PC, execute it, count its cycles.
/// A stopped processor does nothing and reports one cycle.
pub open spec fn step_s<M: Memory>(c: Cpu6502, m: M::V) -> (Cpu6502, M::V, u32) {
    if c.stopped {
        (c, m, 1)
    } else {
        let (c1, m1, op) = fetch_s::<M>(Cpu6502 { last_pc: c.pc, ..c }, m);
        let (c2, m2, cyc) = execute_s::<M>(Cpu6502 { last_op: op, ..c1 }, m1, decode_spec(op));
        (Cpu6502 { cycles: (c2.cycles + cyc) as u64, ..c2 }, m2, cyc)
    }
}

/// The reset sequence: SP = 0xFD, P = I|U, PC from the vector at 0xFFFC;
/// a vector of 0x0000 or 0xFFFF (no ROM there) starts at 0xF000 instead.
pub open spec fn reset_s<M: Memory>(c: Cpu6502, m: M::V) -> (Cpu6502, M::V) {
    let (m1, lo) = read_s::<M>(m, 0xfffc);
    let (m2, hi) = read_s::<M>(m1, 0xfffd);
    let v = word(lo, hi);
    (Cpu6502 { sp: 0xfd, p: reset_flags(), pc: if v == 0 || v == 0xffff { 0xf000 } else { v }, ..c }, m2)
}


/// Decode an opcode (see `decode_spec`).
pub fn decode(op: u8) -> (r: Instr)
    ensures
        r == decode_spec(op),
{
    reveal(decode_spec);
    match op {
        0x00 => Instr { op: Op::Brk, cycles: 7 },
        0xea => Instr { op: Op::Nop, cycles: 2 },
        0xa9 => Instr { op: Op::Load(Reg::A, Mode::Imm), cycles: 2 },
        0xa5 => Instr { op: Op::Load(Reg::A, Mode::Zp), cycles: 3 },
        0xb5 => Instr { op: Op::Load(Reg::A, Mode::Zpx), cycles: 4 },
        0xad => Instr { op: Op::Load(Reg::A, Mode::Abs), cycles: 4 },
        0xbd => Instr { op: Op::Load(Reg::A, Mode::Absx), cycles: 4 },
        0xb9 => Instr { op: Op::Load(Reg::A, Mode::Absy), cycles: 4 },
        0xa1 => Instr { op: Op::Load(Reg::A, Mode::Indx), cycles: 6 },
        0xb1 => Instr { op: Op::Load(Reg::A, Mode::Indy), cycles: 5 },
        0xa2 => Instr { op: Op::Load(Reg::X, Mode::Imm), cycles: 2 },
        0xa6 => Instr { op: Op::Load(Reg::X, Mode::Zp), cycles: 3 },
        0xb6 => Instr { op: Op::Load(Reg::X, Mode::Zpy), cycles: 4 },
        0xae => Instr { op: Op::Load(Reg::X, Mode::Abs), cycles: 4 },
        0xbe => Instr { op: Op::Load(Reg::X, Mode::Absy), cycles: 4 },
        0xa0 => Instr { op: Op::Load(Reg::Y, Mode::Imm), cycles: 2 },
        0xa4 => Instr { op: Op::Load(Reg::Y, Mode::Zp), cycles: 3 },
        0xb4 => Instr { op: Op::Load(Reg::Y, Mode::Zpx), cycles: 4 },
        0xac => Instr { op: Op::Load(Reg::Y, Mode::Abs), cycles: 4 },
        0xbc => Instr { op: Op::Load(Reg::Y, Mode::Absx), cycles: 4 },
        0x85 => Instr { op: Op::Store(Reg::A, Mode::Zp), cycles: 3 },
        0x95 => Instr { op: Op::Store(Reg::A, Mode::Zpx), cycles: 4 },
        0x8d => Instr { op: Op::Store(Reg::A, Mode::Abs), cycles: 4 },
        0x9d => Instr { op: Op::Store(Reg::A, Mode::Absx), cycles: 5 },
        0x99 => Instr { op: Op::Store(Reg::A, Mode::Absy), cycles: 5 },
        0x81 => Instr { op: Op::Store(Reg::A, Mode::Indx), cycles: 6 },
        0x91 => Instr { op: Op::Store(Reg::A, Mode::Indy), cycles: 6 },
        0x86 => Instr { op: Op::Store(Reg::X, Mode::Zp), cycles: 3 },
        0x96 => Instr { op: Op::Store(Reg::X, Mode::Zpy), cycles: 4 },
        0x8e => Instr { op: Op::Store(Reg::X, Mode::Abs), cycles: 4 },
        0x84 => Instr { op: Op::Store(Reg::Y, Mode::Zp), cycles: 3 },
        0x94 => Instr { op: Op::Store(Reg::Y, Mode::Zpx), cycles: 4 },
        0x8c => Instr { op: Op::Store(Reg::Y, Mode::Abs), cycles: 4 },
        0xaa => Instr { op: Op::Tax, cycles: 2 },
        0xa8 => Instr { op: Op::Tay, cycles: 2 },
        0x8a => Instr { op: Op::Txa, cycles: 2 },
        0x98 => Instr { op: Op::Tya, cycles: 2 },
        0xba => Instr { op: Op::Tsx, cycles: 2 },
        0x9a => Instr { op: Op::Txs, cycles: 2 },
        0xe8 => Instr { op: Op::IncReg(Reg::X), cycles: 2 },
        0xc8 => Instr { op: Op::IncReg(Reg::Y), cycles: 2 },
        0xca => Instr { op: Op::DecReg(Reg::X), cycles: 2 },
        0x88 => Instr { op: Op::DecReg(Reg::Y), cycles: 2 },
        0x69 => Instr { op: Op::Adc(Mode::Imm), cycles: 2 },
        0x65 => Instr { op: Op::Adc(Mode::Zp), cycles: 3 },
        0x75 => Instr { op: Op::Adc(Mode::Zpx), cycles: 4 },
        0x6d => Instr { op: Op::Adc(Mode::Abs), cycles: 4 },
        0x7d => Instr { op: Op::Adc(Mode::Absx), cycles: 4 },
        0x79 => Instr { op: Op::Adc(Mode::Absy), cycles: 4 },
        0x61 => Instr { op: Op::Adc(Mode::Indx), cycles: 6 },
        0x71 => Instr { op: Op::Adc(Mode::Indy), cycles: 5 },
        0xe9 | 0xeb => Instr { op: Op::Sbc(Mode::Imm), cycles: 2 },
        0xe5 => Instr { op: Op::Sbc(Mode::Zp), cycles: 3 },
        0xf5 => Instr { op: Op::Sbc(Mode::Zpx), cycles: 4 },
        0xed => Instr { op: Op::Sbc(Mode::Abs), cycles: 4 },
        0xfd => Instr { op: Op::Sbc(Mode::Absx), cycles: 4 },
        0xf9 => Instr { op: Op::Sbc(Mode::Absy), cycles: 4 },
        0xe1 => Instr { op: Op::Sbc(Mode::Indx), cycles: 6 },
        0xf1 => Instr { op: Op::Sbc(Mode::Indy), cycles: 5 },
        0xc9 => Instr { op: Op::Compare(Reg::A, Mode::Imm), cycles: 2 },
        0xc5 => Instr { op: Op::Compare(Reg::A, Mode::Zp), cycles: 3 },
        0xd5 => Instr { op: Op::Compare(Reg::A, Mode::Zpx), cycles: 4 },
        0xcd => Instr { op: Op::Compare(Reg::A, Mode::Abs), cycles: 4 },
        0xdd => Instr { op: Op::Compare(Reg::A, Mode::Absx), cycles: 4 },
        0xd9 => Instr { op: Op::Compare(Reg::A, Mode::Absy), cycles: 4 },
        0xc1 => Instr { op: Op::Compare(Reg::A, Mode::Indx), cycles: 6 },
        0xd1 => Instr { op: Op::Compare(Reg::A, Mode::Indy), cycles: 5 },
        0xe0 => Instr { op: Op::Compare(Reg::X, Mode::Imm), cycles: 2 },
        0xe4 => Instr { op: Op::Compare(Reg::X, Mode::Zp), cycles: 3 },
        0xec => Instr { op: Op::Compare(Reg::X, Mode::Abs), cycles: 4 },
        0xc0 => Instr { op: Op::Compare(Reg::Y, Mode::Imm), cycles: 2 },
        0xc4 => Instr { op: Op::Compare(Reg::Y, Mode::Zp), cycles: 3 },
        0xcc => Instr { op: Op::Compare(Reg::Y, Mode::Abs), cycles: 4 },
        0x09 => Instr { op: Op::Logic(Logic::Ora, Mode::Imm), cycles: 2 },
        0x05 => Instr { op: Op::Logic(Logic::Ora, Mode::Zp), cycles: 3 },
        0x15 => Instr { op: Op::Logic(Logic::Ora, Mode::Zpx), cycles: 4 },
        0x0d => Instr { op: Op::Logic(Logic::Ora, Mode::Abs), cycles: 4 },
        0x1d => Instr { op: Op::Logic(Logic::Ora, Mode::Absx), cycles: 4 },
        0x19 => Instr { op: Op::Logic(Logic::Ora, Mode::Absy), cycles: 4 },
        0x01 => Instr { op: Op::Logic(Logic::Ora, Mode::Indx), cycles: 6 },
        0x11 => Instr { op: Op::Logic(Logic::Ora, Mode::Indy), cycles: 5 },
        0x29 => Instr { op: Op::Logic(Logic::And, Mode::Imm), cycles: 2 },
        0x25 => Instr { op: Op::Logic(Logic::And, Mode::Zp), cycles: 3 },
        0x35 => Instr { op: Op::Logic(Logic::And, Mode::Zpx), cycles: 4 },
        0x2d => Instr { op: Op::Logic(Logic::And, Mode::Abs), cycles: 4 },
        0x3d => Instr { op: Op::Logic(Logic::And, Mode::Absx), cycles: 4 },
        0x39 => Instr { op: Op::Logic(Logic::And, Mode::Absy), cycles: 4 },
        0x21 => Instr { op: Op::Logic(Logic::And, Mode::Indx), cycles: 6 },
        0x31 => Instr { op: Op::Logic(Logic::And, Mode::Indy), cycles: 5 },
        0x49 => Instr { op: Op::Logic(Logic::Eor, Mode::Imm), cycles: 2 },
        0x45 => Instr { op: Op::Logic(Logic::Eor, Mode::Zp), cycles: 3 },
        0x55 => Instr { op: Op::Logic(Logic::Eor, Mode::Zpx), cycles: 4 },
        0x4d => Instr { op: Op::Logic(Logic::Eor, Mode::Abs), cycles: 4 },
        0x5d => Instr { op: Op::Logic(Logic::Eor, Mode::Absx), cycles: 4 },
        0x59 => Instr { op: Op::Logic(Logic::Eor, Mode::Absy), cycles: 4 },
        0x41 => Instr { op: Op::Logic(Logic::Eor, Mode::Indx), cycles: 6 },
        0x51 => Instr { op: Op::Logic(Logic::Eor, Mode::Indy), cycles: 5 },
        0x24 => Instr { op: Op::Bit(Mode::Zp), cycles: 3 },
        0x2c => Instr { op: Op::Bit(Mode::Abs), cycles: 4 },
        0x4c => Instr { op: Op::Jmp, cycles: 3 },
        0x6c => Instr { op: Op::JmpInd, cycles: 5 },
        0x20 => Instr { op: Op::Jsr, cycles: 6 },
        0x60 => Instr { op: Op::Rts, cycles: 6 },
        0x40 => Instr { op: Op::Rti, cycles: 6 },
        0x48 => Instr { op: Op::Pha, cycles: 3 },
        0x68 => Instr { op: Op::Pla, cycles: 4 },
        0x08 => Instr { op: Op::Php, cycles: 3 },
        0x28 => Instr { op: Op::Plp, cycles: 4 },
        0x18 => Instr { op: Op::SetFlag(Flag::C, false), cycles: 2 },
        0x38 => Instr { op: Op::SetFlag(Flag::C, true), cycles: 2 },
        0x58 => Instr { op: Op::SetFlag(Flag::I, false), cycles: 2 },
        0x78 => Instr { op: Op::SetFlag(Flag::I, true), cycles: 2 },
        0xb8 => Instr { op: Op::SetFlag(Flag::V, false), cycles: 2 },
        0xd8 => Instr { op: Op::SetFlag(Flag::D, false), cycles: 2 },
        0xf8 => Instr { op: Op::SetFlag(Flag::D, true), cycles: 2 },
        0x10 => Instr { op: Op::Branch(Flag::N, false), cycles: 2 },
        0x30 => Instr { op: Op::Branch(Flag::N, true), cycles: 2 },
        0x50 => Instr { op: Op::Branch(Flag::V, false), cycles: 2 },
        0x70 => Instr { op: Op::Branch(Flag::V, true), cycles: 2 },
        0x90 => Instr { op: Op::Branch(Flag::C, false), cycles: 2 },
        0xb0 => Instr { op: Op::Branch(Flag::C, true), cycles: 2 },
        0xd0 => Instr { op: Op::Branch(Flag::Z, false), cycles: 2 },
        0xf0 => Instr { op: Op::Branch(Flag::Z, true), cycles: 2 },
        0xe6 => Instr { op: Op::IncMem(Mode::Zp), cycles: 5 },
        0xf6 => Instr { op: Op::IncMem(Mode::Zpx), cycles: 6 },
        0xee => Instr { op: Op::IncMem(Mode::Abs), cycles: 6 },
        0xfe => Instr { op: Op::IncMem(Mode::Absx), cycles: 7 },
        0xc6 => Instr { op: Op::DecMem(Mode::Zp), cycles: 5 },
        0xd6 => Instr { op: Op::DecMem(Mode::Zpx), cycles: 6 },
        0xce => Instr { op: Op::DecMem(Mode::Abs), cycles: 6 },
        0xde => Instr { op: Op::DecMem(Mode::Absx), cycles: 7 },
        0x0a => Instr { op: Op::ShiftA(ShiftOp::Asl), cycles: 2 },
        0x06 => Instr { op: Op::ShiftMem(ShiftOp::Asl, Mode::Zp), cycles: 5 },
        0x16 => Instr { op: Op::ShiftMem(ShiftOp::Asl, Mode::Zpx), cycles: 6 },
        0x0e => Instr { op: Op::ShiftMem(ShiftOp::Asl, Mode::Abs), cycles: 6 },
        0x1e => Instr { op: Op::ShiftMem(ShiftOp::Asl, Mode::Absx), cycles: 7 },
        0x4a => Instr { op: Op::ShiftA(ShiftOp::Lsr), cycles: 2 },
        0x46 => Instr { op: Op::ShiftMem(ShiftOp::Lsr, Mode::Zp), cycles: 5 },
        0x56 => Instr { op: Op::ShiftMem(ShiftOp::Lsr, Mode::Zpx), cycles: 6 },
        0x4e => Instr { op: Op::ShiftMem(ShiftOp::Lsr, Mode::Abs), cycles: 6 },
        0x5e => Instr { op: Op::ShiftMem(ShiftOp::Lsr, Mode::Absx), cycles: 7 },
        0x2a => Instr { op: Op::ShiftA(ShiftOp::Rol), cycles: 2 },
        0x26 => Instr { op: Op::ShiftMem(ShiftOp::Rol, Mode::Zp), cycles: 5 },
        0x36 => Instr { op: Op::ShiftMem(ShiftOp::Rol, Mode::Zpx), cycles: 6 },
        0x2e => Instr { op: Op::ShiftMem(ShiftOp::Rol, Mode::Abs), cycles: 6 },
        0x3e => Instr { op: Op::ShiftMem(ShiftOp::Rol, Mode::Absx), cycles: 7 },
        0x6a => Instr { op: Op::ShiftA(ShiftOp::Ror), cycles: 2 },
        0x66 => Instr { op: Op::ShiftMem(ShiftOp::Ror, Mode::Zp), cycles: 5 },
        0x76 => Instr { op: Op::ShiftMem(ShiftOp::Ror, Mode::Zpx), cycles: 6 },
        0x6e => Instr { op: Op::ShiftMem(ShiftOp::Ror, Mode::Abs), cycles: 6 },
        0x7e => Instr { op: Op::ShiftMem(ShiftOp::Ror, Mode::Absx), cycles: 7 },
        0x1a | 0x3a | 0x5a | 0x7a | 0xda | 0xfa => Instr { op: Op::Nop, cycles: 2 },
        0x80 | 0x82 | 0x89 | 0xc2 | 0xe2 | 0x04 | 0x44 | 0x64 => Instr { op: Op::Skip1, cycles: 2 },
        0x14 | 0x34 | 0x54 | 0x74 | 0xd4 | 0xf4 => Instr { op: Op::Skip1, cycles: 4 },
        0x0c => Instr { op: Op::Skip2, cycles: 4 },
        0x1c | 0x3c | 0x5c | 0x7c | 0xdc | 0xfc => Instr { op: Op::Skip2, cycles: 4 },
        _ => Instr { op: Op::Illegal, cycles: 1 },
    }
}

/// Doubling a byte and adding a carry, reduced to a byte.
proof fn lemma_double_mod(v: u8, c: int)
    requires
        0 <= c <= 1,
    ensures
        (v as int % 128) * 2 + c == w8(v * 2 + c),
        (v as int % 128) * 2 + c < 256,
{
    assert((v as int % 128) * 2 + c == (v * 2 + c) % 256) by (nonlinear_arith)
        requires
            0 <= c <= 1,
            0 <= v < 256,
    ;
}

/// Byte increment with wrap-around.
fn inc8(v: u8) -> (r: u8)
    ensures
        r == w8(v + 1),
{
    v.wrapping_add(1)
}

/// Byte decrement with wrap-around.
fn dec8(v: u8) -> (r: u8)
    ensures
        r == w8(v - 1),
{
    v.wrapping_sub(1)
}

/// Word increment with wrap-around.
fn inc16(v: u16) -> (r: u16)
    ensures
        r == w16(v + 1),
{
    v.wrapping_add(1)
}

/// Word addition with wrap-around.
fn add16(a: u16, b: u16) -> (r: u16)
    ensures
        r == w16(a + b),
{
    a.wrapping_add(b)
}

/// Word decrement with wrap-around.
fn dec16(v: u16) -> (r: u16)
    ensures
        r == w16(v - 1),
{
    v.wrapping_sub(1)
}

/// Executing an instruction never changes the cycle counter; `step` adds the
/// cycles afterwards.
pub proof fn lemma_execute_keeps_cycles<M: Memory>(c: Cpu6502, m: M::V, i: Instr)
    ensures
        execute_s::<M>(c, m, i).0.cycles == c.cycles,
{
    reveal(execute_s);
}

/// The processor state at power-on.
pub open spec fn power_on() -> Cpu6502 {
    Cpu6502 {
        a: 0,
        x: 0,
        y: 0,
        sp: 0xfd,
        pc: 0,
        p: reset_flags(),
        cycles: 0,
        stopped: false,
        last_pc: 0,
        last_op: 0,
    }
}

impl Cpu6502 {
    pub fn new() -> (r: Self)
        ensures
            r == power_on(),
    {
        Cpu6502 {
            a: 0,
            x: 0,
            y: 0,
            sp: 0xfd,
            pc: 0,
            p: Flags::reset_value(),
            cycles: 0,
            stopped: false,
            last_pc: 0,
            last_op: 0,
        }
    }

    /// Reset: SP = 0xFD, P = I|U, PC from the reset vector (0xF000 when the
    /// vector reads 0x0000 or 0xFFFF).
    pub fn reset<M: Memory>(&mut self, m: &mut M)
        requires
            old(m).inv(),
        ensures
            final(m).inv(),
            (*final(self), final(m)@) == reset_s::<M>(*old(self), old(m)@),
    {
        self.sp = 0xfd;
        self.p = Flags::reset_value();
        let lo = m.read(0xfffc);
        let hi = m.read(0xfffd);
        self.pc = (hi as u16) * 256 + (lo as u16);
        if self.pc == 0 || self.pc == 0xffff {
            self.pc = 0xf000;
        }
    }

    fn set_zn(&mut self, v: u8)
        ensures
            *final(self) == with_zn(*old(self), v),
    {
        self.p.z = v == 0;
        self.p.n = v >= 0x80;
    }

    fn fetch<M: Memory>(&mut self, m: &mut M) -> (v: u8)
        requires
            old(m).inv(),
        ensures
            final(m).inv(),
            (*final(self), final(m)@, v) == fetch_s::<M>(*old(self), old(m)@),
    {
        let v = m.read(self.pc);
        self.pc = self.pc.wrapping_add(1);
        v
    }

    fn zp<M: Memory>(&mut self, m: &mut M) -> (a: u16)
        requires
            old(m).inv(),
        ensures
            final(m).inv(),
            (*final(self), final(m)@, a) == address_s::<M>(*old(self), old(m)@, Mode::Zp),
    {
        self.fetch(m) as u16
    }

    fn zpx<M: Memory>(&mut self, m: &mut M) -> (a: u16)
        requires
            old(m).inv(),
        ensures
            final(m).inv(),
            (*final(self), final(m)@, a) == address_s::<M>(*old(self), old(m)@, Mode::Zpx),
    {
        self.fetch(m).wrapping_add(self.x) as u16
    }

    fn zpy<M: Memory>(&mut self, m: &mut M) -> (a: u16)
        requires
            old(m).inv(),
        ensures
            final(m).inv(),
            (*final(self), final(m)@, a) == address_s::<M>(*old(self), old(m)@, Mode::Zpy),
    {
        self.fetch(m).wrapping_add(self.y) as u16
    }

    fn abs<M: Memory>(&mut self, m: &mut M) -> (a: u16)
        requires
            old(m).inv(),
        ensures
            final(m).inv(),
            (*final(self), final(m)@, a) == abs_s::<M>(*old(self), old(m)@),
    {
        let lo = self.fetch(m);
        let hi = self.fetch(m);
        (hi as u16) * 256 + (lo as u16)
    }

    fn absx<M: Memory>(&mut self, m: &mut M) -> (a: u16)
        requires
            old(m).inv(),
        ensures
            final(m).inv(),
            (*final(self), final(m)@, a) == address_s::<M>(*old(self), old(m)@, Mode::Absx),
    {
        let a = self.abs(m);
        add16(a, self.x as u16)
    }

    fn absy<M: Memory>(&mut self, m: &mut M) -> (a: u16)
        requires
            old(m).inv(),
        ensures
            final(m).inv(),
            (*final(self), final(m)@, a) == address_s::<M>(*old(self), old(m)@, Mode::Absy),
    {
        let a = self.abs(m);
        add16(a, self.y as u16)
    }

    fn zp_pointer<M: Memory>(m: &mut M, p: u8) -> (a: u16)
        requires
            old(m).inv(),
        ensures
            final(m).inv(),
            (final(m)@, a) == zp_pointer_s::<M>(old(m)@, p),
    {
        let lo = m.read(p as u16);
        let hi = m.read(p.wrapping_add(1) as u16);
        (hi as u16) * 256 + (lo as u16)
    }

    fn indx<M: Memory>(&mut self, m: &mut M) -> (a: u16)
        requires
            old(m).inv(),
        ensures
            final(m).inv(),
            (*final(self), final(m)@, a) == address_s::<M>(*old(self), old(m)@, Mode::Indx),
    {
        let p = self.fetch(m).wrapping_add(self.x);
        Self::zp_pointer(m, p)
    }

    fn indy<M: Memory>(&mut self, m: &mut M) -> (a: u16)
        requires
            old(m).inv(),
        ensures
            final(m).inv(),
            (*final(self), final(m)@, a) == address_s::<M>(*old(self), old(m)@, Mode::Indy),
    {
        let p = self.fetch(m);
        let a = Self::zp_pointer(m, p);
        add16(a, self.y as u16)
    }

    fn address<M: Memory>(&mut self, m: &mut M, mode: Mode) -> (a: u16)
        requires
            old(m).inv(),
        ensures
            final(m).inv(),
            (*final(self), final(m)@, a) == address_s::<M>(*old(self), old(m)@, mode),
    {
        match mode {
            Mode::Zp => self.zp(m),
            Mode::Zpx => self.zpx(m),
            Mode::Zpy => self.zpy(m),
            Mode::Abs => self.abs(m),
            Mode::Absx => self.absx(m),
            Mode::Absy => self.absy(m),
            Mode::Indx => self.indx(m),
            Mode::Indy => self.indy(m),
            Mode::Imm => self.pc,
        }
    }

    fn operand<M: Memory>(&mut self, m: &mut M, mode: Mode) -> (v: u8)
        requires
            old(m).inv(),
        ensures
            final(m).inv(),
            (*final(self), final(m)@, v) == operand_s::<M>(*old(self), old(m)@, mode),
    {
        match mode {
            Mode::Imm => self.fetch(m),
            _ => {
                let a = self.address(m, mode);
                m.read(a)
            },
        }
    }

    fn push<M: Memory>(&mut self, m: &mut M, v: u8)
        requires
            old(m).inv(),
        ensures
            final(m).inv(),
            (*final(self), final(m)@) == push_s::<M>(*old(self), old(m)@, v),
    {
        m.write(0x0100 + self.sp as u16, v);
        self.sp = self.sp.wrapping_sub(1);
    }

    fn pop<M: Memory>(&mut self, m: &mut M) -> (v: u8)
        requires
            old(m).inv(),
        ensures
            final(m).inv(),
            (*final(self), final(m)@, v) == pop_s::<M>(*old(self), old(m)@),
    {
        self.sp = self.sp.wrapping_add(1);
        m.read(0x0100 + self.sp as u16)
    }

    fn push_word<M: Memory>(&mut self, m: &mut M, v: u16)
        requires
            old(m).inv(),
        ensures
            final(m).inv(),
            (*final(self), final(m)@) == push_word_s::<M>(*old(self), old(m)@, v),
    {
        self.push(m, (v / 256) as u8);
        self.push(m, (v % 256) as u8);
    }

    fn pop_word<M: Memory>(&mut self, m: &mut M) -> (v: u16)
        requires
            old(m).inv(),
        ensures
            final(m).inv(),
            (*final(self), final(m)@, v) == pop_word_s::<M>(*old(self), old(m)@),
    {
        let lo = self.pop(m);
        let hi = self.pop(m);
        (hi as u16) * 256 + (lo as u16)
    }

    fn adc(&mut self, v: u8)
        ensures
            *final(self) == adc_s(*old(self), v),
    {
        let carry: u16 = if self.p.c { 1 } else { 0 };
        let sum: u16 = self.a as u16 + v as u16 + carry;
        let r = (sum % 256) as u8;
        let overflow = (self.a >= 128) == (v >= 128) && (r >= 128) != (self.a >= 128);
        self.p.c = sum > 0xff;
        self.p.v = overflow;
        self.a = r;
        self.set_zn(r);
    }

    fn sbc(&mut self, v: u8)
        ensures
            *final(self) == sbc_s(*old(self), v),
    {
        self.adc(255 - v)
    }

    fn compare(&mut self, r: u8, v: u8)
        ensures
            *final(self) == compare_s(*old(self), r, v),
    {
        let d = r.wrapping_sub(v);
        self.p.c = r >= v;
        self.set_zn(d);
    }

    fn shift(&mut self, op: ShiftOp, v: u8) -> (r: u8)
        ensures
            (*final(self), r) == shift_s(*old(self), op, v),
    {
        match op {
            ShiftOp::Asl => self.asl_val(v),
            ShiftOp::Lsr => self.lsr_val(v),
            ShiftOp::Rol => self.rol_val(v),
            ShiftOp::Ror => self.ror_val(v),
        }
    }

    fn asl_val(&mut self, v: u8) -> (r: u8)
        ensures
            (*final(self), r) == shift_s(*old(self), ShiftOp::Asl, v),
    {
        self.p.c = v >= 0x80;
        proof {
            lemma_double_mod(v, 0);
        }
        let r = (v % 128) * 2;
        self.set_zn(r);
        r
    }

    fn lsr_val(&mut self, v: u8) -> (r: u8)
        ensures
            (*final(self), r) == shift_s(*old(self), ShiftOp::Lsr, v),
    {
        self.p.c = v % 2 == 1;
        let r = v / 2;
        self.set_zn(r);
        r
    }

    fn rol_val(&mut self, v: u8) -> (r: u8)
        ensures
            (*final(self), r) == shift_s(*old(self), ShiftOp::Rol, v),
    {
        let c: u8 = if self.p.c { 1 } else { 0 };
        self.p.c = v >= 0x80;
        proof {
            lemma_double_mod(v, c as int);
        }
        let r = (v % 128) * 2 + c;
        self.set_zn(r);
        r
    }

    fn ror_val(&mut self, v: u8) -> (r: u8)
        ensures
            (*final(self), r) == shift_s(*old(self), ShiftOp::Ror, v),
    {
        let c: u8 = if self.p.c { 0x80 } else { 0 };
        self.p.c = v % 2 == 1;
        let r = v / 2 + c;
        self.set_zn(r);
        r
    }

    fn branch<M: Memory>(&mut self, m: &mut M, cond: bool) -> (cyc: u32)
        requires
            old(m).inv(),
        ensures
            final(m).inv(),
            ({
                let (c1, m1, off) = fetch_s::<M>(*old(self), old(m)@);
                if cond {
                    *final(self) == Cpu6502 { pc: w16(c1.pc + signed8(off)), ..c1 } && final(m)@
                        == m1 && cyc == 3
                } else {
                    *final(self) == c1 && final(m)@ == m1 && cyc == 2
                }
            }),
    {
        let off = self.fetch(m);
        if cond {
            if off < 128 {
                self.pc = self.pc.wrapping_add(off as u16);
            } else {
                self.pc = self.pc.wrapping_sub(256 - off as u16);
            }
            3
        } else {
            2
        }
    }

    fn reg(&self, r: Reg) -> (v: u8)
        ensures
            v == reg_value(*self, r),
    {
        match r {
            Reg::A => self.a,
            Reg::X => self.x,
            Reg::Y => self.y,
        }
    }

    fn set_reg(&mut self, r: Reg, v: u8)
        ensures
            *final(self) == with_reg(*old(self), r, v),
    {
        match r {
            Reg::A => self.a = v,
            Reg::X => self.x = v,
            Reg::Y => self.y = v,
        }
    }

    fn set_flag(&mut self, which: Flag, v: bool)
        ensures
            *final(self) == (Cpu6502 { p: with_flag(old(self).p, which, v), ..*old(self) }),
    {
        match which {
            Flag::C => self.p.c = v,
            Flag::Z => self.p.z = v,
            Flag::I => self.p.i = v,
            Flag::D => self.p.d = v,
            Flag::V => self.p.v = v,
            Flag::N => self.p.n = v,
        }
    }

    fn flag(&self, which: Flag) -> (v: bool)
        ensures
            v == flag_value(self.p, which),
    {
        match which {
            Flag::C => self.p.c,
            Flag::Z => self.p.z,
            Flag::I => self.p.i,
            Flag::D => self.p.d,
            Flag::V => self.p.v,
            Flag::N => self.p.n,
        }
    }

    fn logic(&mut self, l: Logic, v: u8)
        ensures
            *final(self) == with_zn(
                Cpu6502 { a: logic_result(l, old(self).a, v), ..*old(self) },
                logic_result(l, old(self).a, v),
            ),
    {
        let r = match l {
            Logic::Ora => self.a | v,
            Logic::And => self.a & v,
            Logic::Eor => self.a ^ v,
        };
        self.a = r;
        self.set_zn(r);
    }

    /// BRK: push PC+2 and P|B|U, set I, jump through the vector at 0xFFFE.
    fn op_brk<M: Memory>(&mut self, m: &mut M, i: Instr) -> (cyc: u32)
        requires
            old(m).inv(),
            1 <= i.cycles <= 7,
            i.op is Brk,
        ensures
            final(m).inv(),
            1 <= cyc <= 7,
            (*final(self), final(m)@, cyc) == execute_s::<M>(*old(self), old(m)@, i),
    {
        reveal(execute_s);
        match i.op {
            Op::Brk => {
                let status = self.p;
                self.pc = inc16(self.pc);
                let pc = self.pc;
                self.push_word(m, pc);
                let st = Flags { b: true, u: true, ..status };
                self.push(m, st.bits());
                let lo = m.read(0xfffe);
                let hi = m.read(0xffff);
                self.p.i = true;
                self.pc = (hi as u16) * 256 + (lo as u16);
            },
            _ => {},
        }
        i.cycles
    }

    /// Loads and stores of A, X and Y.
    fn op_load_store<M: Memory>(&mut self, m: &mut M, i: Instr) -> (cyc: u32)
        requires
            old(m).inv(),
            1 <= i.cycles <= 7,
            i.op is Load || i.op is Store,
        ensures
            final(m).inv(),
            1 <= cyc <= 7,
            (*final(self), final(m)@, cyc) == execute_s::<M>(*old(self), old(m)@, i),
    {
        reveal(execute_s);
        match i.op {
            Op::Load(r, mode) => {
                let v = self.operand(m, mode);
                self.set_reg(r, v);
                self.set_zn(v);
            },
            Op::Store(r, mode) => {
                let v = self.reg(r);
                let a = self.address(m, mode);
                m.write(a, v);
            },
            _ => {},
        }
        i.cycles
    }

    /// NOP, flag set/clear, and the stop on an unimplemented opcode.
    fn op_misc<M: Memory>(&mut self, m: &mut M, i: Instr) -> (cyc: u32)
        requires
            old(m).inv(),
            1 <= i.cycles <= 7,
            i.op is Nop || i.op is Illegal || i.op is SetFlag,
        ensures
            final(m).inv(),
            1 <= cyc <= 7,
            (*final(self), final(m)@, cyc) == execute_s::<M>(*old(self), old(m)@, i),
    {
        reveal(execute_s);
        match i.op {
            Op::Nop => {},
            Op::Illegal => {
                self.stopped = true;
            },

            Op::SetFlag(f, v) => {
                self.set_flag(f, v);
            },
            _ => {},
        }
        i.cycles
    }

    /// Transfers between A and the index registers.
    fn op_transfer_a<M: Memory>(&mut self, m: &mut M, i: Instr) -> (cyc: u32)
        requires
            old(m).inv(),
            1 <= i.cycles <= 7,
            i.op is Tax || i.op is Tay || i.op is Txa || i.op is Tya,
        ensures
            final(m).inv(),
            1 <= cyc <= 7,
            (*final(self), final(m)@, cyc) == execute_s::<M>(*old(self), old(m)@, i),
    {
        reveal(execute_s);
        match i.op {
            Op::Tax => {
                self.x = self.a;
                self.set_zn(self.x);
            },
            Op::Tay => {
                self.y = self.a;
                self.set_zn(self.y);
            },
            Op::Txa => {
                self.a = self.x;
                self.set_zn(self.a);
            },
            Op::Tya => {
                self.a = self.y;
                self.set_zn(self.a);
            },
            _ => {},
        }
        i.cycles
    }

    /// Transfers between X and the stack pointer.
    fn op_transfer_sp<M: Memory>(&mut self, m: &mut M, i: Instr) -> (cyc: u32)
        requires
            old(m).inv(),
            1 <= i.cycles <= 7,
            i.op is Tsx || i.op is Txs,
        ensures
            final(m).inv(),
            1 <= cyc <= 7,
            (*final(self), final(m)@, cyc) == execute_s::<M>(*old(self), old(m)@, i),
    {
        reveal(execute_s);
        match i.op {
            Op::Tsx => {
                self.x = self.sp;
                self.set_zn(self.x);
            },
            Op::Txs => {
                self.sp = self.x;
            },
            _ => {},
        }
        i.cycles
    }

    /// INX, INY, DEX, DEY.
    fn op_inc_dec_reg<M: Memory>(&mut self, m: &mut M, i: Instr) -> (cyc: u32)
        requires
            old(m).inv(),
            1 <= i.cycles <= 7,
            i.op is IncReg || i.op is DecReg,
        ensures
            final(m).inv(),
            1 <= cyc <= 7,
            (*final(self), final(m)@, cyc) == execute_s::<M>(*old(self), old(m)@, i),
    {
        reveal(execute_s);
        match i.op {
            Op::IncReg(r) => {
                let v = inc8(self.reg(r));
                self.set_reg(r, v);
                self.set_zn(v);
            },
            Op::DecReg(r) => {
                let v = dec8(self.reg(r));
                self.set_reg(r, v);
                self.set_zn(v);
            },
            _ => {},
        }
        i.cycles
    }

    /// Shifts and rotates of the accumulator.
    fn op_shift_a<M: Memory>(&mut self, m: &mut M, i: Instr) -> (cyc: u32)
        requires
            old(m).inv(),
            1 <= i.cycles <= 7,
            i.op is ShiftA,
        ensures
            final(m).inv(),
            1 <= cyc <= 7,
            (*final(self), final(m)@, cyc) == execute_s::<M>(*old(self), old(m)@, i),
    {
        reveal(execute_s);
        match i.op {
            Op::ShiftA(s) => {
                let a = self.a;
                self.a = self.shift(s, a);
            },
            _ => {},
        }
        i.cycles
    }

    /// ADC, SBC, compares, logic and BIT on an operand.
    fn op_arith<M: Memory>(&mut self, m: &mut M, i: Instr) -> (cyc: u32)
        requires
            old(m).inv(),
            1 <= i.cycles <= 7,
            i.op is Adc || i.op is Sbc || i.op is Compare || i.op is Logic || i.op is Bit,
        ensures
            final(m).inv(),
            1 <= cyc <= 7,
            (*final(self), final(m)@, cyc) == execute_s::<M>(*old(self), old(m)@, i),
    {
        reveal(execute_s);
        match i.op {
            Op::Adc(mode) => {
                let v = self.operand(m, mode);
                self.adc(v);
            },
            Op::Sbc(mode) => {
                let v = self.operand(m, mode);
                self.sbc(v);
            },
            Op::Compare(r, mode) => {
                let rv = self.reg(r);
                let v = self.operand(m, mode);
                self.compare(rv, v);
            },
            Op::Logic(l, mode) => {
                let v = self.operand(m, mode);
                self.logic(l, v);
            },
            Op::Bit(mode) => {
                let v = self.operand(m, mode);
                self.p.z = self.a & v == 0;
                self.p.n = v & 0x80 != 0;
                self.p.v = v & 0x40 != 0;
            },
            _ => {},
        }
        i.cycles
    }

    /// JMP absolute and indirect.
    fn op_jmp<M: Memory>(&mut self, m: &mut M, i: Instr) -> (cyc: u32)
        requires
            old(m).inv(),
            1 <= i.cycles <= 7,
            i.op is Jmp || i.op is JmpInd,
        ensures
            final(m).inv(),
            1 <= cyc <= 7,
            (*final(self), final(m)@, cyc) == execute_s::<M>(*old(self), old(m)@, i),
    {
        reveal(execute_s);
        match i.op {
            Op::Jmp => {
                self.pc = self.abs(m);
            },
            Op::JmpInd => {
                let p = self.abs(m);
                let lo = m.read(p);
                let hi_addr: u16 = (p / 256) * 256 + (p % 256 + 1) % 256;
                let hi = m.read(hi_addr);
                self.pc = (hi as u16) * 256 + (lo as u16);
            },
            _ => {},
        }
        i.cycles
    }

    /// Subroutine call and return.
    fn op_jsr_rts<M: Memory>(&mut self, m: &mut M, i: Instr) -> (cyc: u32)
        requires
            old(m).inv(),
            1 <= i.cycles <= 7,
            i.op is Jsr || i.op is Rts,
        ensures
            final(m).inv(),
            1 <= cyc <= 7,
            (*final(self), final(m)@, cyc) == execute_s::<M>(*old(self), old(m)@, i),
    {
        reveal(execute_s);
        match i.op {
            Op::Jsr => {
                let a = self.abs(m);
                let ret = dec16(self.pc);
                self.push_word(m, ret);
                self.pc = a;
            },
            Op::Rts => {
                let a = self.pop_word(m);
                self.pc = inc16(a);
            },
            _ => {},
        }
        i.cycles
    }

    /// Return from interrupt.
    fn op_rti<M: Memory>(&mut self, m: &mut M, i: Instr) -> (cyc: u32)
        requires
            old(m).inv(),
            1 <= i.cycles <= 7,
            i.op is Rti,
        ensures
            final(m).inv(),
            1 <= cyc <= 7,
            (*final(self), final(m)@, cyc) == execute_s::<M>(*old(self), old(m)@, i),
    {
        reveal(execute_s);
        match i.op {
            Op::Rti => {
                let v = self.pop(m);
                let mut f = Flags::from_bits_truncate(v);
                f.u = true;
                self.p = f;
                self.pc = self.pop_word(m);
            },
            _ => {},
        }
        i.cycles
    }

    /// Conditional branches.
    fn op_branch<M: Memory>(&mut self, m: &mut M, i: Instr) -> (cyc: u32)
        requires
            old(m).inv(),
            1 <= i.cycles <= 7,
            i.op is Branch,
        ensures
            final(m).inv(),
            1 <= cyc <= 7,
            (*final(self), final(m)@, cyc) == execute_s::<M>(*old(self), old(m)@, i),
    {
        reveal(execute_s);
        match i.op {
            Op::Branch(f, v) => {
                let cond = self.flag(f) == v;
                return self.branch(m, cond);
            },
            _ => {},
        }
        i.cycles
    }

    /// Undocumented NOPs that skip their operand bytes.
    fn op_skip<M: Memory>(&mut self, m: &mut M, i: Instr) -> (cyc: u32)
        requires
            old(m).inv(),
            1 <= i.cycles <= 7,
            i.op is Skip1 || i.op is Skip2,
        ensures
            final(m).inv(),
            1 <= cyc <= 7,
            (*final(self), final(m)@, cyc) == execute_s::<M>(*old(self), old(m)@, i),
    {
        reveal(execute_s);
        match i.op {
            Op::Skip1 => {
                let _ = self.fetch(m);
            },
            Op::Skip2 => {
                let _ = self.abs(m);
            },
            _ => {},
        }
        i.cycles
    }

    /// Pushes and pulls of A and P.
    fn op_stack<M: Memory>(&mut self, m: &mut M, i: Instr) -> (cyc: u32)
        requires
            old(m).inv(),
            1 <= i.cycles <= 7,
            i.op is Pha || i.op is Pla || i.op is Php || i.op is Plp,
        ensures
            final(m).inv(),
            1 <= cyc <= 7,
            (*final(self), final(m)@, cyc) == execute_s::<M>(*old(self), old(m)@, i),
    {
        reveal(execute_s);
        match i.op {
            Op::Pha => {
                let a = self.a;
                self.push(m, a);
            },
            Op::Pla => {
                self.a = self.pop(m);
                self.set_zn(self.a);
            },
            Op::Php => {
                let st = Flags { b: true, u: true, ..self.p };
                self.push(m, st.bits());
            },
            Op::Plp => {
                let v = self.pop(m);
                let mut f = Flags::from_bits_truncate(v);
                f.u = true;
                self.p = f;
            },
            _ => {},
        }
        i.cycles
    }

    /// INC on memory.
    fn op_inc_mem<M: Memory>(&mut self, m: &mut M, i: Instr) -> (cyc: u32)
        requires
            old(m).inv(),
            1 <= i.cycles <= 7,
            i.op is IncMem,
        ensures
            final(m).inv(),
            1 <= cyc <= 7,
            (*final(self), final(m)@, cyc) == execute_s::<M>(*old(self), old(m)@, i),
    {
        reveal(execute_s);
        match i.op {
            Op::IncMem(mode) => {
                let a = self.address(m, mode);
                let v = inc8(m.read(a));
                m.write(a, v);
                self.set_zn(v);
            },
            _ => {},
        }
        i.cycles
    }

    /// DEC on memory.
    fn op_dec_mem<M: Memory>(&mut self, m: &mut M, i: Instr) -> (cyc: u32)
        requires
            old(m).inv(),
            1 <= i.cycles <= 7,
            i.op is DecMem,
        ensures
            final(m).inv(),
            1 <= cyc <= 7,
            (*final(self), final(m)@, cyc) == execute_s::<M>(*old(self), old(m)@, i),
    {
        reveal(execute_s);
        match i.op {
            Op::DecMem(mode) => {
                let a = self.address(m, mode);
                let v = dec8(m.read(a));
                m.write(a, v);
                self.set_zn(v);
            },
            _ => {},
        }
        i.cycles
    }

    /// Shifts and rotates of a memory byte.
    fn op_shift_mem<M: Memory>(&mut self, m: &mut M, i: Instr) -> (cyc: u32)
        requires
            old(m).inv(),
            1 <= i.cycles <= 7,
            i.op is ShiftMem,
        ensures
            final(m).inv(),
            1 <= cyc <= 7,
            (*final(self), final(m)@, cyc) == execute_s::<M>(*old(self), old(m)@, i),
    {
        reveal(execute_s);
        match i.op {
            Op::ShiftMem(s, mode) => {
                let a = self.address(m, mode);
                let v = m.read(a);
                let r = self.shift(s, v);
                m.write(a, r);
            },
            _ => {},
        }
        i.cycles
    }

    /// Execute a decoded instruction whose opcode has been fetched.
    fn execute<M: Memory>(&mut self, m: &mut M, i: Instr) -> (cyc: u32)
        requires
            old(m).inv(),
            1 <= i.cycles <= 7,
        ensures
            final(m).inv(),
            1 <= cyc <= 7,
            (*final(self), final(m)@, cyc) == execute_s::<M>(*old(self), old(m)@, i),
    {
        match i.op {
            Op::Brk => self.op_brk(m, i),
            Op::Load(..) | Op::Store(..) => self.op_load_store(m, i),
            Op::Nop | Op::Illegal | Op::SetFlag(..) => self.op_misc(m, i),
            Op::Tax | Op::Tay | Op::Txa | Op::Tya => self.op_transfer_a(m, i),
            Op::Tsx | Op::Txs => self.op_transfer_sp(m, i),
            Op::IncReg(..) | Op::DecReg(..) => self.op_inc_dec_reg(m, i),
            Op::ShiftA(..) => self.op_shift_a(m, i),
            Op::Adc(..) | Op::Sbc(..) | Op::Compare(..) | Op::Logic(..) | Op::Bit(..) => self.op_arith(m, i),
            Op::Jmp | Op::JmpInd => self.op_jmp(m, i),
            Op::Jsr | Op::Rts => self.op_jsr_rts(m, i),
            Op::Rti => self.op_rti(m, i),
            Op::Branch(..) => self.op_branch(m, i),
            Op::Skip1 | Op::Skip2 => self.op_skip(m, i),
            Op::Pha | Op::Pla | Op::Php | Op::Plp => self.op_stack(m, i),
            Op::IncMem(..) => self.op_inc_mem(m, i),
            Op::DecMem(..) => self.op_dec_mem(m, i),
            Op::ShiftMem(..) => self.op_shift_mem(m, i),
        }
    }

    /// Execute one instruction and return the cycles it took. A stopped
    /// processor does nothing and reports one cycle.
    pub fn step<M: Memory>(&mut self, m: &mut M) -> (cyc: u32)
        requires
            old(m).inv(),
            old(self).cycles <= u64::MAX - 7,
        ensures
            final(m).inv(),
            (*final(self), final(m)@, cyc) == step_s::<M>(*old(self), old(m)@),
    {
        if self.stopped {
            return 1;
        }
        self.last_pc = self.pc;
        let op = self.fetch(m);
        self.last_op = op;
        let ins = decode(op);
        proof {
            lemma_cycles_bounded(op);
            lemma_execute_keeps_cycles::<M>(*self, m@, ins);
        }
        let cyc = self.execute(m, ins);
        self.cycles = self.cycles + cyc as u64;
        cyc
    }
}

/// An instruction takes its table cycles, or 2 or 3 for a branch.
pub proof fn lemma_execute_cycles<M: Memory>(c: Cpu6502, m: M::V, i: Instr)
    requires
        1 <= i.cycles <= 7,
    ensures
        1 <= execute_s::<M>(c, m, i).2 <= 7,
{
    reveal(execute_s);
}

/// Every instruction step takes between one and seven cycles, and the
/// cycle counter grows by at most that much.
pub proof fn lemma_step_cycles<M: Memory>(c: Cpu6502, m: M::V)
    ensures
        1 <= step_s::<M>(c, m).2 <= 7,
        c.cycles <= u64::MAX - 7 ==> step_s::<M>(c, m).0.cycles <= c.cycles + step_s::<M>(c, m).2,
{
    if !c.stopped {
        let (c1, m1, op) = fetch_s::<M>(Cpu6502 { last_pc: c.pc, ..c }, m);
        let c1a = Cpu6502 { last_op: op, ..c1 };
        lemma_cycles_bounded(op);
        lemma_execute_cycles::<M>(c1a, m1, decode_spec(op));
        lemma_execute_keeps_cycles::<M>(c1a, m1, decode_spec(op));
    }
}

/// Every opcode takes between one and seven cycles.
pub proof fn lemma_cycles_bounded(op: u8)
    ensures
        1 <= decode_spec(op).cycles <= 7,
{
    reveal(decode_spec);
}

// ---------------------------------------------------------------------------
// Trace text.
// ---------------------------------------------------------------------------

/// An upper-case hexadecimal digit.
pub open spec fn hex_digit(d: int) -> char {
    if d < 10 { (48 + d) as char } else { (55 + d) as char }
}

/// `v` in upper-case hexadecimal, zero-padded to `width` digits (the low
/// `width` digits when `v` needs more).
pub open spec fn hex_text(v: int, width: nat) -> Seq<char>
    decreases width,
{
    if width == 0 {
        Seq::empty()
    } else {
        hex_text(v / 16, (width - 1) as nat).push(hex_digit(v % 16))
    }
}

/// `v` in decimal, without leading zeros.
pub open spec fn dec_text(v: nat) -> Seq<char>
    decreases v,
{
    if v < 10 {
        seq![(48 + v) as char]
    } else {
        dec_text(v / 10).push((48 + v % 10) as char)
    }
}

/// The trace line of a processor state.
pub open spec fn trace_text(c: Cpu6502) -> Seq<char> {
    trace_fields_text(c.last_pc, c.last_op, c.a, c.x, c.y, c.sp, flags_byte(c.p), c.cycles)
}

pub open spec fn trace_fields_text(
    last_pc: u16,
    last_op: u8,
    a: u8,
    x: u8,
    y: u8,
    sp: u8,
    p: u8,
    cycles: u64,
) -> Seq<char> {
    "PC="@ + hex_text(last_pc as int, 4) + " OP="@ + hex_text(last_op as int, 2) + " A="@
        + hex_text(a as int, 2) + " X="@ + hex_text(x as int, 2) + " Y="@ + hex_text(y as int, 2)
        + " SP="@ + hex_text(sp as int, 2) + " P="@ + hex_text(p as int, 2) + " CYC="@ + dec_text(
        cycles as nat,
    )
}

/// `format!` of the trace fields: `{:04X}` and `{:02X}` print upper-case
/// hexadecimal zero-padded to 4 and 2 digits, `{}` prints the cycle count in
/// decimal, as std's formatting documentation gives them.
#[verifier::external_body]
fn format_trace(last_pc: u16, last_op: u8, a: u8, x: u8, y: u8, sp: u8, p: u8, cycles: u64) -> (s: String)
    ensures
        s@ == trace_fields_text(last_pc, last_op, a, x, y, sp, p, cycles),
{
    format!(
        "PC={:04X} OP={:02X} A={:02X} X={:02X} Y={:02X} SP={:02X} P={:02X} CYC={}",
        last_pc, last_op, a, x, y, sp, p, cycles
    )
}

impl Cpu6502 {
    /// A one-line trace of the last instruction fetched and the registers.
    pub fn trace_line(&self) -> (s: String)
        ensures
            s@ == trace_text(*self),
    {
        format_trace(self.last_pc, self.last_op, self.a, self.x, self.y, self.sp, self.p.bits(), self.cycles)
    }
}

// ---------------------------------------------------------------------------
// Arithmetic laws.
// ---------------------------------------------------------------------------

/// ADC adds the operand and the carry: the result byte and the new carry
/// together hold the full sum, and V is set exactly when the signed sum
/// leaves -128..127.
pub proof fn lemma_adc_sum(c: Cpu6502, v: u8)
    ensures
        ({
            let r = adc_s(c, v);
            let cin: int = if c.p.c { 1 } else { 0 };
            &&& r.a + 256 * (if r.p.c { 1int } else { 0int }) == c.a + v + cin
            &&& r.p.v == !(-128 <= signed8(c.a) + signed8(v) + cin <= 127)
            &&& r.p.z == (r.a == 0)
            &&& r.p.n == (r.a >= 128)
        }),
{
}

/// SBC subtracts the operand and the borrow (the inverted carry): the result
/// is the difference modulo 256, and the carry is set exactly when no
/// borrow was needed.
pub proof fn lemma_sbc_difference(c: Cpu6502, v: u8)
    ensures
        ({
            let r = sbc_s(c, v);
            let borrow: int = if c.p.c { 0 } else { 1 };
            &&& r.a == w8(c.a - v - borrow)
            &&& r.p.c == (c.a - v - borrow >= 0)
        }),
{
}

/// A compare sets C when the register is at least the operand and Z when
/// they are equal; it changes no register.
pub proof fn lemma_compare(c: Cpu6502, r: u8, v: u8)
    ensures
        compare_s(c, r, v).p.c == (r >= v),
        compare_s(c, r, v).p.z == (r == v),
        compare_s(c, r, v).a == c.a,
        compare_s(c, r, v).x == c.x,
        compare_s(c, r, v).y == c.y,
{
}

/// A stopped processor does nothing: one cycle, no change.
pub proof fn lemma_stopped_step<M: Memory>(c: Cpu6502, m: M::V)
    requires
        c.stopped,
    ensures
        step_s::<M>(c, m) == (c, m, 1u32),
{
}

/// What JSR does: fetch the target, push the address of its last operand
/// byte, jump.
pub proof fn lemma_execute_jsr<M: Memory>(c: Cpu6502, m: M::V, cycles: u32)
    ensures
        execute_s::<M>(c, m, Instr { op: Op::Jsr, cycles }) == ({
            let (c1, m1, a) = abs_s::<M>(c, m);
            let (c2, m2) = push_word_s::<M>(c1, m1, w16(c1.pc - 1));
            (Cpu6502 { pc: a, ..c2 }, m2, cycles)
        }),
{
    reveal(execute_s);
}

/// What RTS does: pull the return address and continue one byte after it.
pub proof fn lemma_execute_rts<M: Memory>(c: Cpu6502, m: M::V, cycles: u32)
    ensures
        execute_s::<M>(c, m, Instr { op: Op::Rts, cycles }) == ({
            let (c1, m1, a) = pop_word_s::<M>(c, m);
            (Cpu6502 { pc: w16(a + 1), ..c1 }, m1, cycles)
        }),
{
    reveal(execute_s);
}

/// What ORA, AND and EOR do: fetch the operand, combine it with A, set Z
/// and N from the result.
proof fn lemma_execute_logic<M: Memory>(c: Cpu6502, m: M::V, l: Logic, mode: Mode, cycles: u32)
    ensures
        execute_s::<M>(c, m, Instr { op: Op::Logic(l, mode), cycles }) == ({
            let (c1, m1, v) = operand_s::<M>(c, m, mode);
            let r = logic_result(l, c.a, v);
            (with_zn(Cpu6502 { a: r, ..c1 }, r), m1, cycles)
        }),
{
    reveal(execute_s);
}

/// ORA, AND and EOR combine A with the operand bit by bit: inclusive or,
/// and, exclusive or. Z is set exactly when the result is zero and N is the
/// result's bit 7; C, V, I, D, X, Y and SP are left alone.
pub proof fn lemma_logic_ops<M: Memory>(c: Cpu6502, m: M::V, l: Logic, mode: Mode, cycles: u32)
    ensures
        ({
            let v = operand_s::<M>(c, m, mode).2;
            let (c1, m1, k) = execute_s::<M>(c, m, Instr { op: Op::Logic(l, mode), cycles });
            &&& l is Ora ==> c1.a == c.a | v
            &&& l is And ==> c1.a == c.a & v
            &&& l is Eor ==> c1.a == c.a ^ v
            &&& c1.p.z == (c1.a == 0)
            &&& c1.p.n == (c1.a & 0x80 == 0x80)
            &&& c1.p.c == c.p.c && c1.p.v == c.p.v && c1.p.i == c.p.i && c1.p.d == c.p.d
            &&& c1.x == c.x && c1.y == c.y && c1.sp == c.sp
            &&& c1.pc == operand_s::<M>(c, m, mode).0.pc
            &&& m1 == operand_s::<M>(c, m, mode).1
            &&& k == cycles
        }),
{
    lemma_execute_logic::<M>(c, m, l, mode, cycles);
    let v = operand_s::<M>(c, m, mode).2;
    let r = logic_result(l, c.a, v);
    assert(r >= 128 <==> r & 0x80 == 0x80) by (bit_vector);
}

proof fn lemma_decode_logic_imm()
    ensures
        decode_spec(0x09) == ins(Op::Logic(Logic::Ora, Mode::Imm), 2),
        decode_spec(0x29) == ins(Op::Logic(Logic::And, Mode::Imm), 2),
        decode_spec(0x49) == ins(Op::Logic(Logic::Eor, Mode::Imm), 2),
{
    reveal(decode_spec);
}

/// ORA #v (0x09), AND #v (0x29) and EOR #v (0x49) on plain RAM: two bytes,
/// two cycles, A combined with the byte after the opcode, Z and N from the
/// result, the other registers and the memory untouched.
pub proof fn lemma_logic_immediate<M: Memory>(c: Cpu6502, m: M::V)
    requires
        ram_like::<M>(),
        !c.stopped,
        M::peek(m, c.pc) == 0x09 || M::peek(m, c.pc) == 0x29 || M::peek(m, c.pc) == 0x49,
    ensures
        ({
            let op = M::peek(m, c.pc);
            let v = M::peek(m, w16(c.pc + 1));
            let (c1, m1, k) = step_s::<M>(c, m);
            &&& op == 0x09 ==> c1.a == c.a | v
            &&& op == 0x29 ==> c1.a == c.a & v
            &&& op == 0x49 ==> c1.a == c.a ^ v
            &&& c1.p.z == (c1.a == 0)
            &&& c1.p.n == (c1.a & 0x80 == 0x80)
            &&& c1.p.c == c.p.c && c1.p.v == c.p.v
            &&& c1.x == c.x && c1.y == c.y && c1.sp == c.sp
            &&& c1.pc == w16(c.pc + 2)
            &&& k == 2
            &&& m1 == m
        }),
{
    lemma_decode_logic_imm();
    let op = M::peek(m, c.pc);
    let c0 = Cpu6502 { last_pc: c.pc, ..c };
    let (ca, ma, o) = fetch_s::<M>(c0, m);
    let cb = Cpu6502 { last_op: o, ..ca };
    let l = if op == 0x09 { Logic::Ora } else if op == 0x29 { Logic::And } else { Logic::Eor };
    assert(o == op);
    assert(ma == m);
    assert(decode_spec(op) == Instr { op: Op::Logic(l, Mode::Imm), cycles: 2 });
    lemma_logic_ops::<M>(cb, ma, l, Mode::Imm, 2);
    let (cc, mc, v) = operand_s::<M>(cb, ma, Mode::Imm);
    assert(v == M::peek(m, w16(c.pc + 1)));
    assert(mc == m);
    assert(cc.pc == w16(c.pc + 2));
    let (c2, m2, cyc) = execute_s::<M>(cb, ma, decode_spec(op));
    assert(step_s::<M>(c, m) == (Cpu6502 { cycles: (c2.cycles + cyc) as u64, ..c2 }, m2, cyc));
}

/// ASL and LSR shift one bit left or right, shifting in a zero; ROL and ROR
/// rotate through the carry. The bit shifted out becomes the carry, Z and N
/// follow the result, and nothing else changes.
pub proof fn lemma_shifts(c: Cpu6502, op: ShiftOp, v: u8)
    ensures
        ({
            let (c1, r) = shift_s(c, op, v);
            let cin: u8 = if c.p.c { 1 } else { 0 };
            &&& op is Asl ==> r == v << 1u8 && c1.p.c == (v & 0x80 != 0)
            &&& op is Lsr ==> r == v >> 1u8 && c1.p.c == (v & 1 != 0)
            &&& op is Rol ==> r == (v << 1u8) | cin && c1.p.c == (v & 0x80 != 0)
            &&& op is Ror ==> r == (v >> 1u8) | (cin << 7u8) && c1.p.c == (v & 1 != 0)
            &&& c1.p.z == (r == 0)
            &&& c1.p.n == (r & 0x80 != 0)
            &&& c1.p.v == c.p.v && c1.p.i == c.p.i && c1.p.d == c.p.d
            &&& c1.a == c.a && c1.x == c.x && c1.y == c.y && c1.sp == c.sp && c1.pc == c.pc
        }),
{
    let cin: u8 = if c.p.c { 1 } else { 0 };
    lemma_shift_bits(v, cin);
    let (r, carry) = shift_result(op, v, c.p.c);
    assert(r >= 128 <==> r & 0x80 != 0) by (bit_vector);
}

proof fn lemma_shift_bits(v: u8, cin: u8)
    by (bit_vector)
    requires
        cin <= 1,
    ensures
        ((v as int * 2) % 256) as u8 == v << 1u8,
        (v / 2) as u8 == v >> 1u8,
        ((v as int * 2 + cin as int) % 256) as u8 == (v << 1u8) | cin,
        (v as int / 2 + cin as int * 128) as u8 == (v >> 1u8) | (cin << 7u8),
        (v >= 128) == (v & 0x80 != 0),
        (v % 2 == 1) == (v & 1 != 0),
{
}

/// What the register instructions do (loads, transfers, increments and
/// decrements, flag changes, branches, BIT).
#[verifier::spinoff_prover]
#[verifier::rlimit(60)]
proof fn lemma_execute_register_ops<M: Memory>(
    c: Cpu6502,
    m: M::V,
    cycles: u32,
    r: Reg,
    mode: Mode,
    f: Flag,
    b: bool,
)
    ensures
        execute_s::<M>(c, m, Instr { op: Op::Load(r, mode), cycles }) == ({
            let (c1, m1, v) = operand_s::<M>(c, m, mode);
            (with_zn(with_reg(c1, r, v), v), m1, cycles)
        }),
        execute_s::<M>(c, m, Instr { op: Op::Tax, cycles }) == (with_zn(Cpu6502 { x: c.a, ..c }, c.a), m, cycles),
        execute_s::<M>(c, m, Instr { op: Op::Tay, cycles }) == (with_zn(Cpu6502 { y: c.a, ..c }, c.a), m, cycles),
        execute_s::<M>(c, m, Instr { op: Op::Txa, cycles }) == (with_zn(Cpu6502 { a: c.x, ..c }, c.x), m, cycles),
        execute_s::<M>(c, m, Instr { op: Op::Tya, cycles }) == (with_zn(Cpu6502 { a: c.y, ..c }, c.y), m, cycles),
        execute_s::<M>(c, m, Instr { op: Op::Tsx, cycles }) == (with_zn(Cpu6502 { x: c.sp, ..c }, c.sp), m, cycles),
        execute_s::<M>(c, m, Instr { op: Op::Txs, cycles }) == (Cpu6502 { sp: c.x, ..c }, m, cycles),
        execute_s::<M>(c, m, Instr { op: Op::IncReg(r), cycles }) == ({
            let v = w8(reg_value(c, r) + 1);
            (with_zn(with_reg(c, r, v), v), m, cycles)
        }),
        execute_s::<M>(c, m, Instr { op: Op::DecReg(r), cycles }) == ({
            let v = w8(reg_value(c, r) - 1);
            (with_zn(with_reg(c, r, v), v), m, cycles)
        }),
        execute_s::<M>(c, m, Instr { op: Op::SetFlag(f, b), cycles }) == (
            Cpu6502 { p: with_flag(c.p, f, b), ..c },
            m,
            cycles,
        ),
        execute_s::<M>(c, m, Instr { op: Op::Branch(f, b), cycles }) == ({
            let (c1, m1, off) = fetch_s::<M>(c, m);
            if flag_value(c.p, f) == b {
                (Cpu6502 { pc: w16(c1.pc + signed8(off)), ..c1 }, m1, 3u32)
            } else {
                (c1, m1, 2u32)
            }
        }),
        execute_s::<M>(c, m, Instr { op: Op::Bit(mode), cycles }) == ({
            let (c1, m1, v) = operand_s::<M>(c, m, mode);
            (Cpu6502 {
                p: Flags { z: c.a & v == 0, n: v & 0x80 != 0, v: v & 0x40 != 0, ..c1.p },
                ..c1
            }, m1, cycles)
        }),
{
    reveal(execute_s);
}

/// LDA, LDX and LDY load the operand into their register and set Z and N
/// from it; TAX, TAY, TXA, TYA and TSX copy one register into another and
/// set Z and N from the value; TXS copies X into SP and leaves the flags.
/// No other register or flag changes.
pub proof fn lemma_loads_and_transfers<M: Memory>(c: Cpu6502, m: M::V, r: Reg, mode: Mode, cycles: u32)
    ensures
        ({
            let (cl, ml, kl) = execute_s::<M>(c, m, Instr { op: Op::Load(r, mode), cycles });
            let (co, mo, v) = operand_s::<M>(c, m, mode);
            &&& r is A ==> cl.a == v && cl.x == c.x && cl.y == c.y
            &&& r is X ==> cl.x == v && cl.a == c.a && cl.y == c.y
            &&& r is Y ==> cl.y == v && cl.a == c.a && cl.x == c.x
            &&& cl.p.z == (v == 0) && cl.p.n == (v & 0x80 != 0)
            &&& cl.p.c == c.p.c && cl.p.v == c.p.v && cl.sp == c.sp
            &&& ml == mo && kl == cycles
        }),
        ({
            let t = execute_s::<M>(c, m, Instr { op: Op::Tax, cycles }).0;
            t.x == c.a && t.a == c.a && t.y == c.y && t.p.z == (c.a == 0) && t.p.n == (c.a & 0x80 != 0)
        }),
        ({
            let t = execute_s::<M>(c, m, Instr { op: Op::Tay, cycles }).0;
            t.y == c.a && t.a == c.a && t.x == c.x && t.p.z == (c.a == 0) && t.p.n == (c.a & 0x80 != 0)
        }),
        ({
            let t = execute_s::<M>(c, m, Instr { op: Op::Txa, cycles }).0;
            t.a == c.x && t.x == c.x && t.y == c.y && t.p.z == (c.x == 0) && t.p.n == (c.x & 0x80 != 0)
        }),
        ({
            let t = execute_s::<M>(c, m, Instr { op: Op::Tya, cycles }).0;
            t.a == c.y && t.x == c.x && t.y == c.y && t.p.z == (c.y == 0) && t.p.n == (c.y & 0x80 != 0)
        }),
        ({
            let t = execute_s::<M>(c, m, Instr { op: Op::Tsx, cycles }).0;
            t.x == c.sp && t.sp == c.sp && t.a == c.a && t.p.z == (c.sp == 0) && t.p.n == (c.sp & 0x80 != 0)
        }),
        ({
            let t = execute_s::<M>(c, m, Instr { op: Op::Txs, cycles }).0;
            t.sp == c.x && t.x == c.x && t.a == c.a && t.p == c.p
        }),
{
    lemma_execute_register_ops::<M>(c, m, cycles, r, mode, Flag::C, false);
    let v = operand_s::<M>(c, m, mode).2;
    assert(forall|b: u8| #![auto] (b >= 128) == (b & 0x80 != 0)) by (bit_vector);
    assert(execute_s::<M>(c, m, Instr { op: Op::Load(r, mode), cycles }) == ({
        let (c1, m1, v) = operand_s::<M>(c, m, mode);
        (with_zn(with_reg(c1, r, v), v), m1, cycles)
    }));
}

/// INX/INY add one to their register and DEX/DEY subtract one, both modulo
/// 256, setting Z and N from the new value; the other registers and C and V
/// stay.
pub proof fn lemma_inc_dec_registers<M: Memory>(c: Cpu6502, m: M::V, cycles: u32)
    ensures
        ({
            let ix = execute_s::<M>(c, m, Instr { op: Op::IncReg(Reg::X), cycles }).0;
            let iy = execute_s::<M>(c, m, Instr { op: Op::IncReg(Reg::Y), cycles }).0;
            let dx = execute_s::<M>(c, m, Instr { op: Op::DecReg(Reg::X), cycles }).0;
            let dy = execute_s::<M>(c, m, Instr { op: Op::DecReg(Reg::Y), cycles }).0;
            &&& ix.x == (c.x + 1) % 256 && ix.y == c.y && ix.a == c.a
            &&& iy.y == (c.y + 1) % 256 && iy.x == c.x && iy.a == c.a
            &&& dx.x == (c.x + 255) % 256 && dx.y == c.y && dx.a == c.a
            &&& dy.y == (c.y + 255) % 256 && dy.x == c.x && dy.a == c.a
            &&& ix.p.z == (ix.x == 0) && ix.p.n == (ix.x & 0x80 != 0)
            &&& iy.p.z == (iy.y == 0) && iy.p.n == (iy.y & 0x80 != 0)
            &&& dx.p.z == (dx.x == 0) && dx.p.n == (dx.x & 0x80 != 0)
            &&& dy.p.z == (dy.y == 0) && dy.p.n == (dy.y & 0x80 != 0)
            &&& ix.p.c == c.p.c && iy.p.c == c.p.c && dx.p.c == c.p.c && dy.p.c == c.p.c
        }),
{
    lemma_execute_register_ops::<M>(c, m, cycles, Reg::X, Mode::Imm, Flag::C, false);
    lemma_execute_register_ops::<M>(c, m, cycles, Reg::Y, Mode::Imm, Flag::C, false);
    assert(forall|b: u8| #![auto] (b >= 128) == (b & 0x80 != 0)) by (bit_vector);
    assert(execute_s::<M>(c, m, Instr { op: Op::IncReg(Reg::X), cycles }).0 == with_zn(
        with_reg(c, Reg::X, w8(c.x + 1)), w8(c.x + 1)));
    assert(execute_s::<M>(c, m, Instr { op: Op::IncReg(Reg::Y), cycles }).0 == with_zn(
        with_reg(c, Reg::Y, w8(c.y + 1)), w8(c.y + 1)));
    assert(execute_s::<M>(c, m, Instr { op: Op::DecReg(Reg::X), cycles }).0 == with_zn(
        with_reg(c, Reg::X, w8(c.x - 1)), w8(c.x - 1)));
    assert(execute_s::<M>(c, m, Instr { op: Op::DecReg(Reg::Y), cycles }).0 == with_zn(
        with_reg(c, Reg::Y, w8(c.y - 1)), w8(c.y - 1)));
}

/// A branch reads its offset byte; it is taken exactly when the tested flag
/// has the wanted value, and then PC moves by the offset read as a signed
/// byte from the next instruction (3 cycles); otherwise PC just passes the
/// offset (2 cycles). Registers and flags stay.
pub proof fn lemma_branches<M: Memory>(c: Cpu6502, m: M::V, f: Flag, want: bool, cycles: u32)
    ensures
        ({
            let (c1, m1, k) = execute_s::<M>(c, m, Instr { op: Op::Branch(f, want), cycles });
            let off = M::peek(m, c.pc);
            let next = (c.pc + 1) % 65536;
            let taken = (if f is C { c.p.c } else if f is Z { c.p.z } else if f is I { c.p.i }
                else if f is D { c.p.d } else if f is V { c.p.v } else { c.p.n }) == want;
            &&& taken ==> c1.pc == (next + (if off < 128 { off as int } else { off - 256 }) + 65536) % 65536
                && k == 3
            &&& !taken ==> c1.pc == next && k == 2
            &&& c1.a == c.a && c1.x == c.x && c1.y == c.y && c1.sp == c.sp && c1.p == c.p
            &&& m1 == M::after_read(m, c.pc)
        }),
{
    lemma_execute_register_ops::<M>(c, m, cycles, Reg::A, Mode::Imm, f, want);
    assert(execute_s::<M>(c, m, Instr { op: Op::Branch(f, want), cycles }) == ({
        let (c1, m1, off) = fetch_s::<M>(c, m);
        if flag_value(c.p, f) == want {
            (Cpu6502 { pc: w16(c1.pc + signed8(off)), ..c1 }, m1, 3u32)
        } else {
            (c1, m1, 2u32)
        }
    }));
}

/// SEC/CLC, SEI/CLI, SED/CLD and CLV set or clear exactly their flag.
pub proof fn lemma_flag_ops<M: Memory>(c: Cpu6502, m: M::V, f: Flag, b: bool, cycles: u32)
    ensures
        ({
            let (c1, m1, k) = execute_s::<M>(c, m, Instr { op: Op::SetFlag(f, b), cycles });
            &&& c1.p.c == (if f is C { b } else { c.p.c })
            &&& c1.p.z == (if f is Z { b } else { c.p.z })
            &&& c1.p.i == (if f is I { b } else { c.p.i })
            &&& c1.p.d == (if f is D { b } else { c.p.d })
            &&& c1.p.v == (if f is V { b } else { c.p.v })
            &&& c1.p.n == (if f is N { b } else { c.p.n })
            &&& c1.p.b == c.p.b && c1.p.u == c.p.u
            &&& c1.a == c.a && c1.x == c.x && c1.y == c.y && c1.sp == c.sp && c1.pc == c.pc
            &&& m1 == m && k == cycles
        }),
{
    lemma_execute_register_ops::<M>(c, m, cycles, Reg::A, Mode::Imm, f, b);
    assert(execute_s::<M>(c, m, Instr { op: Op::SetFlag(f, b), cycles }) == (
        Cpu6502 { p: with_flag(c.p, f, b), ..c },
        m,
        cycles,
    ));
}

/// BIT sets Z when A and the operand share no bit, and copies the operand's
/// bits 7 and 6 into N and V; A, C and the other registers stay.
pub proof fn lemma_bit_test<M: Memory>(c: Cpu6502, m: M::V, mode: Mode, cycles: u32)
    ensures
        ({
            let (c1, m1, k) = execute_s::<M>(c, m, Instr { op: Op::Bit(mode), cycles });
            let v = operand_s::<M>(c, m, mode).2;
            &&& c1.p.z == (c.a & v == 0)
            &&& c1.p.n == (v & 0x80 != 0)
            &&& c1.p.v == (v & 0x40 != 0)
            &&& c1.p.c == c.p.c
            &&& c1.a == c.a && c1.x == c.x && c1.y == c.y && c1.sp == c.sp
        }),
{
    lemma_execute_register_ops::<M>(c, m, cycles, Reg::A, mode, Flag::C, false);
    assert(execute_s::<M>(c, m, Instr { op: Op::Bit(mode), cycles }) == ({
        let (c1, m1, v) = operand_s::<M>(c, m, mode);
        (Cpu6502 {
            p: Flags { z: c.a & v == 0, n: v & 0x80 != 0, v: v & 0x40 != 0, ..c1.p },
            ..c1
        }, m1, cycles)
    }));
}

/// The opcodes of the flag instructions (CLC, SEC, CLI, SEI, CLV, CLD,
/// SED) and of the eight branches (BPL, BMI, BVC, BVS, BCC, BCS, BNE, BEQ):
/// each names the flag it sets or tests and the value it wants.
pub proof fn lemma_decode_flags_branches()
    ensures
        decode_spec(0x18) == ins(Op::SetFlag(Flag::C, false), 2),
        decode_spec(0x38) == ins(Op::SetFlag(Flag::C, true), 2),
        decode_spec(0x58) == ins(Op::SetFlag(Flag::I, false), 2),
        decode_spec(0x78) == ins(Op::SetFlag(Flag::I, true), 2),
        decode_spec(0xb8) == ins(Op::SetFlag(Flag::V, false), 2),
        decode_spec(0xd8) == ins(Op::SetFlag(Flag::D, false), 2),
        decode_spec(0xf8) == ins(Op::SetFlag(Flag::D, true), 2),
        decode_spec(0x10) == ins(Op::Branch(Flag::N, false), 2),
        decode_spec(0x30) == ins(Op::Branch(Flag::N, true), 2),
        decode_spec(0x50) == ins(Op::Branch(Flag::V, false), 2),
        decode_spec(0x70) == ins(Op::Branch(Flag::V, true), 2),
        decode_spec(0x90) == ins(Op::Branch(Flag::C, false), 2),
        decode_spec(0xb0) == ins(Op::Branch(Flag::C, true), 2),
        decode_spec(0xd0) == ins(Op::Branch(Flag::Z, false), 2),
        decode_spec(0xf0) == ins(Op::Branch(Flag::Z, true), 2),
{
    reveal(decode_spec);
}

/// What the read-modify-write and store instructions do.
#[verifier::spinoff_prover]
#[verifier::rlimit(60)]
proof fn lemma_execute_memory_ops<M: Memory>(
    c: Cpu6502,
    m: M::V,
    mode: Mode,
    cycles: u32,
    r: Reg,
    s: ShiftOp,
)
    ensures
        execute_s::<M>(c, m, Instr { op: Op::Store(r, mode), cycles }) == ({
            let (c1, m1, a) = address_s::<M>(c, m, mode);
            (c1, M::after_write(m1, a, reg_value(c, r)), cycles)
        }),
        execute_s::<M>(c, m, Instr { op: Op::IncMem(mode), cycles }) == ({
            let (c1, m1, a) = address_s::<M>(c, m, mode);
            let (m2, v) = read_s::<M>(m1, a);
            let r = w8(v + 1);
            (with_zn(c1, r), M::after_write(m2, a, r), cycles)
        }),
        execute_s::<M>(c, m, Instr { op: Op::DecMem(mode), cycles }) == ({
            let (c1, m1, a) = address_s::<M>(c, m, mode);
            let (m2, v) = read_s::<M>(m1, a);
            let r = w8(v - 1);
            (with_zn(c1, r), M::after_write(m2, a, r), cycles)
        }),
        execute_s::<M>(c, m, Instr { op: Op::ShiftA(s), cycles }) == ({
            let (c1, r) = shift_s(c, s, c.a);
            (Cpu6502 { a: r, ..c1 }, m, cycles)
        }),
        execute_s::<M>(c, m, Instr { op: Op::ShiftMem(s, mode), cycles }) == ({
            let (c1, m1, a) = address_s::<M>(c, m, mode);
            let (m2, v) = read_s::<M>(m1, a);
            let (c2, r) = shift_s(c1, s, v);
            (c2, M::after_write(m2, a, r), cycles)
        }),
{
    reveal(execute_s);
}

/// On plain RAM, at the operand's address `a`: STA, STX and STY write their
/// register there and change no register but PC; INC and DEC write the byte
/// plus or minus one (modulo 256) and set Z and N from it; a shift or rotate
/// of memory writes the shifted byte, as `lemma_shifts` describes, and the
/// accumulator form shifts A the same way. Other addresses keep their bytes.
pub proof fn lemma_memory_ops<M: Memory>(c: Cpu6502, m: M::V, mode: Mode, s: ShiftOp, cycles: u32)
    requires
        ram_like::<M>(),
        !(mode is Imm),
    ensures
        ({
            let a = address_s::<M>(c, m, mode).2;
            let ca = address_s::<M>(c, m, mode).0;
            let old_v = M::peek(m, a);
            let (st, mst, _) = execute_s::<M>(c, m, Instr { op: Op::Store(Reg::X, mode), cycles });
            let (ci, mi, _) = execute_s::<M>(c, m, Instr { op: Op::IncMem(mode), cycles });
            let (cd, md, _) = execute_s::<M>(c, m, Instr { op: Op::DecMem(mode), cycles });
            let (cs, ms, _) = execute_s::<M>(c, m, Instr { op: Op::ShiftMem(s, mode), cycles });
            &&& M::peek(execute_s::<M>(c, m, Instr { op: Op::Store(Reg::A, mode), cycles }).1, a) == c.a
            &&& M::peek(mst, a) == c.x
            &&& M::peek(execute_s::<M>(c, m, Instr { op: Op::Store(Reg::Y, mode), cycles }).1, a) == c.y
            &&& st == ca && st.a == c.a && st.x == c.x && st.y == c.y && st.p == c.p
            &&& M::peek(mi, a) == (old_v + 1) % 256
            &&& M::peek(md, a) == (old_v + 255) % 256
            &&& ci.p.z == (M::peek(mi, a) == 0) && ci.p.n == (M::peek(mi, a) & 0x80 != 0)
            &&& cd.p.z == (M::peek(md, a) == 0) && cd.p.n == (M::peek(md, a) & 0x80 != 0)
            &&& ci.a == c.a && ci.p.c == c.p.c && cd.a == c.a && cd.p.c == c.p.c
            &&& M::peek(ms, a) == shift_s(ca, s, old_v).1 && cs == shift_s(ca, s, old_v).0
            &&& execute_s::<M>(c, m, Instr { op: Op::ShiftA(s), cycles }).0.a == shift_s(c, s, c.a).1
            &&& forall|b: u16| b != a ==> M::peek(mi, b) == M::peek(m, b) && M::peek(md, b) == M::peek(m, b)
                && M::peek(mst, b) == M::peek(m, b)
        }),
{
    lemma_execute_memory_ops::<M>(c, m, mode, cycles, Reg::A, s);
    lemma_execute_memory_ops::<M>(c, m, mode, cycles, Reg::X, s);
    lemma_execute_memory_ops::<M>(c, m, mode, cycles, Reg::Y, s);
    lemma_address_ram::<M>(c, m, mode);
    assert(forall|b: u8| #![auto] (b >= 128) == (b & 0x80 != 0)) by (bit_vector);
    assert(execute_s::<M>(c, m, Instr { op: Op::ShiftMem(s, mode), cycles }) == ({
        let (c1, m1, a) = address_s::<M>(c, m, mode);
        let (m2, v) = read_s::<M>(m1, a);
        let (c2, r) = shift_s(c1, s, v);
        (c2, M::after_write(m2, a, r), cycles)
    }));
    assert(execute_s::<M>(c, m, Instr { op: Op::ShiftA(s), cycles }) == ({
        let (c1, r) = shift_s(c, s, c.a);
        (Cpu6502 { a: r, ..c1 }, m, cycles)
    }));
    assert(execute_s::<M>(c, m, Instr { op: Op::Store(Reg::A, mode), cycles }).1 == M::after_write(
        m, address_s::<M>(c, m, mode).2, c.a));
    assert(execute_s::<M>(c, m, Instr { op: Op::Store(Reg::Y, mode), cycles }).1 == M::after_write(
        m, address_s::<M>(c, m, mode).2, c.y));
    assert(execute_s::<M>(c, m, Instr { op: Op::Store(Reg::X, mode), cycles }).1 == M::after_write(
        m, address_s::<M>(c, m, mode).2, c.x));
}

/// On plain RAM, computing an operand's address reads memory without
/// changing it and changes only PC.
proof fn lemma_address_ram<M: Memory>(c: Cpu6502, m: M::V, mode: Mode)
    requires
        ram_like::<M>(),
    ensures
        address_s::<M>(c, m, mode).1 == m,
        address_s::<M>(c, m, mode).0 == (Cpu6502 { pc: address_s::<M>(c, m, mode).0.pc, ..c }),
{
}

/// What JMP (p) does: read the pointer, then the target from it, the high
/// byte from the same page.
proof fn lemma_execute_jmp_ind<M: Memory>(c: Cpu6502, m: M::V, cycles: u32)
    ensures
        execute_s::<M>(c, m, Instr { op: Op::JmpInd, cycles }) == ({
            let (c1, m1, p) = abs_s::<M>(c, m);
            let (m2, lo) = read_s::<M>(m1, p);
            let (m3, hi) = read_s::<M>(m2, word(w8(lo_byte(p) + 1), hi_byte(p)));
            (Cpu6502 { pc: word(lo, hi), ..c1 }, m3, cycles)
        }),
{
    reveal(execute_s);
}

/// JMP (p) on plain RAM: the target's low byte comes from `p` and its high
/// byte from the next address in the same page, so a pointer that ends a
/// page takes its high byte from the start of that page.
pub proof fn lemma_jmp_indirect_page_wrap<M: Memory>(c: Cpu6502, m: M::V)
    requires
        ram_like::<M>(),
    ensures
        ({
            let p = word(M::peek(m, c.pc), M::peek(m, w16(c.pc + 1)));
            let hi_at = if p % 256 == 255 { (p - 255) as u16 } else { (p + 1) as u16 };
            let (c1, m1, k) = execute_s::<M>(c, m, Instr { op: Op::JmpInd, cycles: 5 });
            &&& c1.pc == word(M::peek(m, p), M::peek(m, hi_at))
            &&& c1.a == c.a && c1.x == c.x && c1.y == c.y && c1.sp == c.sp && c1.p == c.p
            &&& m1 == m
            &&& k == 5
        }),
{
    lemma_execute_jmp_ind::<M>(c, m, 5);
    let p = word(M::peek(m, c.pc), M::peek(m, w16(c.pc + 1)));
    assert(p as int == hi_byte(p) as int * 256 + lo_byte(p) as int);
    if p % 256 == 255 {
        assert(word(w8(lo_byte(p) + 1), hi_byte(p)) == (p - 255) as u16);
    } else {
        assert(word(w8(lo_byte(p) + 1), hi_byte(p)) == (p + 1) as u16);
    }
}

/// A memory that behaves as plain RAM: reads change nothing and return the
/// last value written to the address.
pub open spec fn ram_like<M: Memory>() -> bool {
    &&& forall|m: M::V, a: u16| #[trigger] M::after_read(m, a) == m
    &&& forall|m: M::V, a: u16, v: u8| #[trigger] M::peek(M::after_write(m, a, v), a) == v
    &&& forall|m: M::V, a: u16, b: u16, v: u8|
        a != b ==> #[trigger] M::peek(M::after_write(m, a, v), b) == M::peek(m, b)
}

proof fn lemma_decode_jsr_rts()
    ensures
        decode_spec(0x20) == ins(Op::Jsr, 6),
        decode_spec(0x60) == ins(Op::Rts, 6),
{
    reveal(decode_spec);
}

/// RTS undoes JSR on any RAM-like memory: a subroutine at `t` that starts
/// with RTS returns to the instruction after the JSR, with SP, A, X, Y and P
/// as they were, each instruction taking six cycles. The RTS is read from
/// memory as the JSR left it, so the subroutine may start on one of the
/// stack bytes the call pushed.
pub proof fn lemma_jsr_rts_ram<M: Memory>(c: Cpu6502, m: M::V)
    requires
        ram_like::<M>(),
        !c.stopped,
        c.cycles <= u64::MAX - 12,
        M::peek(m, c.pc) == 0x20,
        M::peek(
            step_s::<M>(c, m).1,
            word(M::peek(m, w16(c.pc + 1)), M::peek(m, w16(c.pc + 2))),
        ) == 0x60,
    ensures
        ({
            let t = word(M::peek(m, w16(c.pc + 1)), M::peek(m, w16(c.pc + 2)));
            let (c1, m1, k1) = step_s::<M>(c, m);
            let (c2, m2, k2) = step_s::<M>(c1, m1);
            &&& k1 == 6 && c1.pc == t
            &&& k2 == 6
            &&& c2.pc == w16(c.pc + 3)
            &&& c2.sp == c.sp
            &&& c2.a == c.a && c2.x == c.x && c2.y == c.y && c2.p == c.p
        }),
{
    lemma_decode_jsr_rts();
    let t = word(M::peek(m, w16(c.pc + 1)), M::peek(m, w16(c.pc + 2)));
    let c0 = Cpu6502 { last_pc: c.pc, ..c };
    let (ca, ma, op) = fetch_s::<M>(c0, m);
    assert(op == 0x20);
    assert(ma == m);
    let cb = Cpu6502 { last_op: op, ..ca };
    lemma_execute_jsr::<M>(cb, ma, 6);
    let (cj, mj, a) = abs_s::<M>(cb, ma);
    assert(a == t);
    let ret = w16(cj.pc - 1);
    assert(cj.pc == w16(c.pc + 3));
    let s1 = (0x100 + c.sp) as u16;
    let s2 = (0x100 + w8(c.sp - 1)) as u16;
    assert(s1 != s2);
    let m1 = M::after_write(M::after_write(mj, s1, hi_byte(ret)), s2, lo_byte(ret));
    let (c1, mm1, k1) = step_s::<M>(c, m);
    assert(mm1 == m1);
    let c1a = Cpu6502 { last_pc: c1.pc, ..c1 };
    let (cc, mc, op2) = fetch_s::<M>(c1a, m1);
    assert(op2 == 0x60);
    let cd = Cpu6502 { last_op: op2, ..cc };
    lemma_execute_rts::<M>(cd, mc, 6);
    assert(M::peek(m1, s2) == lo_byte(ret));
    assert(M::peek(m1, s1) == hi_byte(ret));
    assert(w8(w8(c.sp - 2) + 1) == w8(c.sp - 1));
    assert(w8(w8(c.sp - 1) + 1) == c.sp);
    lemma_word_bytes(ret);
    lemma_word_bytes(cj.pc);
}

/// Splitting a word into its bytes and joining them gives the word back.
pub proof fn lemma_word_bytes(v: u16)
    ensures
        word(lo_byte(v), hi_byte(v)) == v,
        w16(w16(v - 1) + 1) == v,
{
}

} // verus!
