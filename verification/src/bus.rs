use vstd::prelude::*;
use crate::cartridge::{Cartridge, CartridgeView, cart_wf, cart_read_s, cart_access_s};
use crate::cpu::{Memory, Cpu6502, Instr, Op, push_s, pop_s, push_word_s, pop_word_s, execute_s, abs_s, w8, w16, lemma_word_bytes, lemma_execute_jsr, lemma_execute_rts};
use crate::input::Input;
use crate::riot::{Riot, RiotView, riot_wf, ram_index, read_io_s, write_io_s, tick_s as riot_tick_s};
use crate::tia::{Tia, TiaView, tia_wf, read_s as tia_read_s, write_s as tia_write_s, tick_s as tia_tick_s};

verus! {

/// What trace mode records, in the order it happens.
#[derive(Clone, Copy)]
pub enum TraceEvent {
    /// A TIA register write: the register (address & 0x3F) and the value.
    TiaWrite(u8, u8),
    /// The processor after an instruction (its trace line is `trace_line`).
    Instruction(Cpu6502),
}

/// The console's address bus: TIA, RIOT, cartridge and the controls.
pub struct Bus {
    pub tia: Tia,
    pub riot: Riot,
    pub cart: Cartridge,
    pub input: Input,
    /// Trace mode: TIA writes are recorded in `trace_log`.
    pub trace: bool,
    pub trace_log: Vec<TraceEvent>,
}

pub struct BusView {
    pub tia: TiaView,
    pub riot: RiotView,
    pub cart: CartridgeView,
    pub input: Input,
    pub trace: bool,
    pub trace_log: Seq<TraceEvent>,
}

impl View for Bus {
    type V = BusView;

    open spec fn view(&self) -> BusView {
        BusView {
            tia: self.tia@,
            riot: self.riot@,
            cart: self.cart@,
            input: self.input,
            trace: self.trace,
            trace_log: self.trace_log@,
        }
    }
}

pub open spec fn bus_wf(b: BusView) -> bool {
    &&& tia_wf(b.tia)
    &&& riot_wf(b.riot)
    &&& cart_wf(b.cart)
}

/// Where an address lands. The 6507 has 13 address lines, so only
/// `addr & 0x1fff` counts.
pub enum Region {
    Tia,
    Ram,
    RiotIo,
    Cart,
    Open,
}

pub open spec fn region(addr: u16) -> Region {
    let a = addr & 0x1fff;
    if a <= 0x007f {
        Region::Tia
    } else if a <= 0x00ff {
        Region::Ram
    } else if a <= 0x017f {
        Region::Tia
    } else if a <= 0x01ff {
        Region::Ram
    } else if 0x0280 <= a <= 0x029f {
        Region::RiotIo
    } else if 0x1000 <= a {
        Region::Cart
    } else {
        let m = a & 0x1080;
        if m == 0x0000 {
            Region::Tia
        } else if m == 0x0080 {
            Region::Ram
        } else if m == 0x1000 {
            Region::Cart
        } else {
            Region::Open
        }
    }
}

/// A TIA read: INPT4 (player 0's fire button) comes from the controls.
pub open spec fn tia_port_s(b: BusView, a: u16) -> u8 {
    if a % 16 == 0x0c {
        b.input.inpt4
    } else {
        tia_read_s(b.tia.regs, a)
    }
}

pub open spec fn bus_peek(b: BusView, addr: u16) -> u8 {
    let a = addr & 0x1fff;
    match region(addr) {
        Region::Tia => tia_port_s(b, a),
        Region::Ram => b.riot.ram[ram_index(a)],
        Region::RiotIo => read_io_s(b.riot, a, b.input),
        Region::Cart => cart_read_s(b.cart, a),
        Region::Open => 0xff,
    }
}

/// Only cartridge reads change state (bank switching).
pub open spec fn bus_after_read(b: BusView, addr: u16) -> BusView {
    match region(addr) {
        Region::Cart => BusView { cart: cart_access_s(b.cart, addr & 0x1fff), ..b },
        _ => b,
    }
}

/// The TIA writes that trace mode records: those in the first two TIA
/// windows (0x0000..=0x007F and 0x0100..=0x017F after masking to 13 lines).
pub open spec fn traced_tia_write(addr: u16) -> bool {
    let a = addr & 0x1fff;
    a <= 0x007f || (0x0100 <= a <= 0x017f)
}

/// The trace log after a write of `val` to `addr`.
pub open spec fn log_after_write(b: BusView, addr: u16, val: u8) -> Seq<TraceEvent> {
    if b.trace && traced_tia_write(addr) {
        b.trace_log.push(TraceEvent::TiaWrite(((addr & 0x1fff) & 0x3f) as u8, val))
    } else {
        b.trace_log
    }
}

pub open spec fn bus_after_write(b: BusView, addr: u16, val: u8) -> BusView {
    let a = addr & 0x1fff;
    match region(addr) {
        Region::Tia => BusView {
            tia: tia_write_s(b.tia, a, val),
            trace_log: log_after_write(b, addr, val),
            ..b
        },
        Region::Ram => BusView {
            riot: RiotView { ram: b.riot.ram.update(ram_index(a), val), ..b.riot },
            ..b
        },
        Region::RiotIo => BusView { riot: write_io_s(b.riot, a, val), ..b },
        Region::Cart => BusView { cart: cart_access_s(b.cart, a), ..b },
        Region::Open => b,
    }
}

/// Run the RIOT timer and the TIA for `cpu_cycles` processor cycles.
pub open spec fn bus_tick_s(b: BusView, cpu_cycles: u32) -> BusView {
    BusView { riot: riot_tick_s(b.riot, cpu_cycles), tia: tia_tick_s(b.tia, cpu_cycles), ..b }
}

impl Bus {
    fn tia_read(&self, addr: u16) -> (v: u8)
        ensures
            v == tia_port_s(self@, addr),
    {
        match addr % 16 {
            // INPT4: player 0 fire button, bit 7 set while released.
            0x0c => self.input.inpt4,
            _ => self.tia.read(addr),
        }
    }

    pub fn new(cart: Cartridge) -> (b: Self)
        requires
            cart_wf(cart@),
        ensures
            bus_wf(b@),
            b@.tia == Tia::new_spec(),
            b@.riot == crate::riot::riot_power_on(),
            b@.cart == cart@,
            b@.input == crate::input::released(),
            !b@.trace,
            b@.trace_log == Seq::<TraceEvent>::empty(),
    {
        Self {
            tia: Tia::new(),
            riot: Riot::new(),
            cart,
            input: Input::new(),
            trace: false,
            trace_log: Vec::new(),
        }
    }

    /// Advance the RIOT timer and the TIA; returns whether the TIA finished a frame.
    pub fn tick(&mut self, cpu_cycles: u32) -> (ready: bool)
        requires
            bus_wf(old(self)@),
            old(self)@.riot.ticks + cpu_cycles <= u32::MAX,
        ensures
            bus_wf(final(self)@),
            final(self)@ == bus_tick_s(old(self)@, cpu_cycles),
            ready == final(self)@.tia.regs.frame_ready,
    {
        self.riot.tick(cpu_cycles);
        self.tia.tick(cpu_cycles)
    }
}

impl Memory for Bus {
    open spec fn peek(m: BusView, addr: u16) -> u8 {
        bus_peek(m, addr)
    }

    open spec fn after_read(m: BusView, addr: u16) -> BusView {
        bus_after_read(m, addr)
    }

    open spec fn after_write(m: BusView, addr: u16, val: u8) -> BusView {
        bus_after_write(m, addr, val)
    }

    open spec fn inv(&self) -> bool {
        bus_wf(self@)
    }

    fn read(&mut self, addr: u16) -> (v: u8) {
        let a = addr & 0x1fff;
        proof {
            crate::bits::lemma_addr13(addr);
        }
        match a {
            0x0000..=0x007f => self.tia_read(a),
            0x0080..=0x00ff => self.riot.read_ram(a),
            0x0100..=0x017f => self.tia_read(a),
            0x0180..=0x01ff => self.riot.read_ram(a),
            0x0280..=0x029f => self.riot.read_io(a, &self.input),
            0x1000..=0x1fff => self.cart.read(a),
            _ => match a & 0x1080 {
                0x0000 => self.tia_read(a),
                0x0080 => self.riot.read_ram(a),
                0x1000 => self.cart.read(a),
                _ => 0xff,
            },
        }
    }

    fn write(&mut self, addr: u16, val: u8) {
        let a = addr & 0x1fff;
        proof {
            crate::bits::lemma_addr13(addr);
        }
        match a {
            0x0000..=0x007f => {
                if self.trace {
                    self.trace_log.push(TraceEvent::TiaWrite((a & 0x3f) as u8, val));
                }
                self.tia.write(a, val)
            },
            0x0080..=0x00ff => self.riot.write_ram(a, val),
            0x0100..=0x017f => {
                if self.trace {
                    self.trace_log.push(TraceEvent::TiaWrite((a & 0x3f) as u8, val));
                }
                self.tia.write(a, val)
            },
            0x0180..=0x01ff => self.riot.write_ram(a, val),
            0x0280..=0x029f => self.riot.write_io(a, val),
            0x1000..=0x1fff => self.cart.write(a, val),
            _ => match a & 0x1080 {
                0x0000 => self.tia.write(a, val),
                0x0080 => self.riot.write_ram(a, val),
                0x1000 => self.cart.write(a, val),
                _ => {},
            },
        }
    }
}

/// The 6507 drives only 13 address lines: an address and its copy with the
/// top three bits cleared read, and are written, alike.
pub proof fn lemma_13_address_lines(b: BusView, addr: u16, val: u8)
    ensures
        bus_peek(b, addr) == bus_peek(b, addr & 0x1fff),
        bus_after_read(b, addr) == bus_after_read(b, addr & 0x1fff),
        bus_after_write(b, addr, val) == bus_after_write(b, addr & 0x1fff, val),
{
    crate::bits::lemma_addr13(addr);
}

/// Whether an address reaches the RIOT's RAM.
pub open spec fn is_ram(addr: u16) -> bool {
    region(addr) is Ram
}

/// Reads keep the bus well-formed.
pub proof fn lemma_after_read_wf(b: BusView, addr: u16)
    requires
        bus_wf(b),
    ensures
        bus_wf(bus_after_read(b, addr)),
{
    crate::cartridge::lemma_repeatable_read(b.cart, addr & 0x1fff);
}

/// A byte written to RAM is read back at the same address, and reading RAM
/// (or the TIA and RIOT ports) changes nothing.
pub proof fn lemma_bus_ram_read_after_write(b: BusView, addr: u16, val: u8)
    requires
        bus_wf(b),
        is_ram(addr),
    ensures
        bus_wf(bus_after_write(b, addr, val)),
        bus_peek(bus_after_write(b, addr, val), addr) == val,
        bus_after_read(b, addr) == b,
{
}

/// Writes to RAM leave every other RAM cell as it was.
pub proof fn lemma_bus_ram_other_cells(b: BusView, waddr: u16, raddr: u16, val: u8)
    requires
        bus_wf(b),
        is_ram(waddr),
        is_ram(raddr),
        (waddr & 0x1fff) % 128 != (raddr & 0x1fff) % 128,
    ensures
        bus_peek(bus_after_write(b, waddr, val), raddr) == bus_peek(b, raddr),
{
}

/// The joystick and console switch ports read what the controls hold.
pub proof fn lemma_bus_ports(b: BusView)
    ensures
        bus_peek(b, 0x0280) == b.input.swcha,
        bus_peek(b, 0x0282) == b.input.swchb,
        bus_peek(b, 0x000c) == b.input.inpt4,
{
    crate::bits::lemma_addr13(0x0280);
    crate::bits::lemma_addr13(0x0282);
    crate::bits::lemma_addr13(0x000c);
}

/// With the stack pointer in the RAM half of page 1 (0x80..0xFF), a pull
/// returns the byte just pushed and restores the stack pointer.
pub proof fn lemma_push_pull(c: Cpu6502, b: BusView, v: u8)
    requires
        bus_wf(b),
        c.sp >= 0x80,
    ensures
        ({
            let (c1, b1) = push_s::<Bus>(c, b, v);
            let (c2, b2, r) = pop_s::<Bus>(c1, b1);
            &&& r == v
            &&& c2.sp == c.sp
            &&& b2 == b1
        }),
{
    crate::bits::lemma_addr13((0x100 + c.sp) as u16);
}

/// With two bytes of RAM stack room (SP in 0x81..0xFF), pulling a word
/// returns the word just pushed and restores the stack pointer.
pub proof fn lemma_push_pull_word(c: Cpu6502, b: BusView, v: u16)
    requires
        bus_wf(b),
        c.sp >= 0x81,
    ensures
        ({
            let (c1, b1) = push_word_s::<Bus>(c, b, v);
            let (c2, b2, r) = pop_word_s::<Bus>(c1, b1);
            &&& r == v
            &&& c2.sp == c.sp
        }),
{
    crate::bits::lemma_addr13((0x100 + c.sp) as u16);
    crate::bits::lemma_addr13((0x100 + c.sp - 1) as u16);
    lemma_word_bytes(v);
}

/// A subroutine call followed by a return comes back to the instruction
/// after the call, with the stack pointer restored (stack in RAM).
pub proof fn lemma_jsr_rts(c: Cpu6502, b: BusView)
    requires
        bus_wf(b),
        c.sp >= 0x81,
    ensures
        ({
            let (c1, b1, _) = execute_s::<Bus>(c, b, Instr { op: Op::Jsr, cycles: 6 });
            let (c2, b2, _) = execute_s::<Bus>(c1, b1, Instr { op: Op::Rts, cycles: 6 });
            &&& c2.pc == abs_s::<Bus>(c, b).0.pc
            &&& c2.sp == c.sp
        }),
{
    let (ca, ba, a) = abs_s::<Bus>(c, b);
    lemma_after_read_wf(b, c.pc);
    lemma_after_read_wf(bus_after_read(b, c.pc), w16(c.pc + 1));
    assert(bus_wf(ba));
    assert(ca.sp == c.sp);
    lemma_execute_jsr::<Bus>(c, b, 6);
    let (c2, b2) = push_word_s::<Bus>(ca, ba, w16(ca.pc - 1));
    let c2j = Cpu6502 { pc: a, ..c2 };
    lemma_execute_rts::<Bus>(c2j, b2, 6);
    lemma_push_pull_word(ca, ba, w16(ca.pc - 1));
    lemma_word_bytes(ca.pc);
}

} // verus!
