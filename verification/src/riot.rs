use vstd::prelude::*;
use vstd::arithmetic::div_mod::{lemma_fundamental_div_mod, lemma_fundamental_div_mod_converse, lemma_sub_mod_noop};
use crate::cpu::w8;
use crate::input::Input;

verus! {

/// The RIOT (6532): 128 bytes of RAM, the I/O ports and the interval timer.
pub struct Riot {
    ram: [u8; 128],
    timer: u8,
    interval: u32,
    ticks: u32,
}

/// What a RIOT holds.
pub struct RiotView {
    pub ram: Seq<u8>,
    /// The timer register (INTIM).
    pub timer: u8,
    /// Cycles per timer decrement: 1, 8, 64 or 1024.
    pub interval: u32,
    /// Cycles counted towards the next decrement.
    pub ticks: u32,
}

impl View for Riot {
    type V = RiotView;

    closed spec fn view(&self) -> RiotView {
        RiotView { ram: self.ram@, timer: self.timer, interval: self.interval, ticks: self.ticks }
    }
}

/// A well-formed RIOT: 128 bytes of RAM, a valid interval, fewer pending
/// cycles than the longest interval (a new interval keeps the cycles already
/// counted, so they may exceed it until the next tick).
pub open spec fn riot_wf(r: RiotView) -> bool {
    &&& r.ram.len() == 128
    &&& (r.interval == 1 || r.interval == 8 || r.interval == 64 || r.interval == 1024)
    &&& r.ticks < 1024
}

/// The RAM cell an address selects (the RAM is mirrored every 128 bytes).
pub open spec fn ram_index(addr: u16) -> int {
    addr as int % 128
}

/// The value of an I/O port read: SWCHA, SWCHB, INTIM, or 0xFF.
pub open spec fn read_io_s(r: RiotView, addr: u16, input: Input) -> u8 {
    let reg = addr % 8;
    if reg == 0 {
        input.swcha
    } else if reg == 2 {
        input.swchb
    } else if reg == 4 {
        r.timer
    } else {
        0xff
    }
}

/// A write to the I/O ports: TIM1T, TIM8T, TIM64T, T1024T set the timer and
/// its interval; other writes are ignored.
pub open spec fn write_io_s(r: RiotView, addr: u16, val: u8) -> RiotView {
    let reg = addr & 0x17;
    if reg == 0x14 {
        RiotView { timer: val, interval: 1, ..r }
    } else if reg == 0x15 {
        RiotView { timer: val, interval: 8, ..r }
    } else if reg == 0x16 {
        RiotView { timer: val, interval: 64, ..r }
    } else if reg == 0x17 {
        RiotView { timer: val, interval: 1024, ..r }
    } else {
        r
    }
}

/// Run the timer for `cycles` processor cycles: every `interval` cycles the
/// timer counts down by one (wrapping below zero).
pub open spec fn tick_s(r: RiotView, cycles: u32) -> RiotView {
    let t = r.ticks + cycles;
    RiotView {
        ticks: (t % r.interval as int) as u32,
        timer: w8(r.timer - t / r.interval as int),
        ..r
    }
}

/// The RIOT after power-on.
pub open spec fn riot_power_on() -> RiotView {
    RiotView { ram: Seq::new(128, |i: int| 0u8), timer: 0, interval: 1, ticks: 0 }
}

impl Riot {
    pub fn new() -> (r: Self)
        ensures
            r@ == riot_power_on(),
            riot_wf(r@),
    {
        let r = Self { ram: [0; 128], timer: 0, interval: 1, ticks: 0 };
        assert(r@.ram =~= riot_power_on().ram);
        r
    }

    pub fn read_ram(&self, addr: u16) -> (v: u8)
        requires
            riot_wf(self@),
        ensures
            v == self@.ram[ram_index(addr)],
    {
        self.ram[(addr % 128) as usize]
    }

    pub fn write_ram(&mut self, addr: u16, val: u8)
        requires
            riot_wf(old(self)@),
        ensures
            final(self)@ == (RiotView { ram: old(self)@.ram.update(ram_index(addr), val), ..old(self)@ }),
            riot_wf(final(self)@),
    {
        self.ram[(addr % 128) as usize] = val;
    }

    pub fn read_io(&self, addr: u16, input: &Input) -> (v: u8)
        ensures
            v == read_io_s(self@, addr, *input),
    {
        match addr % 8 {
            0 => input.swcha,
            2 => input.swchb,
            4 => self.timer,
            _ => 0xff,
        }
    }

    pub fn write_io(&mut self, addr: u16, val: u8)
        requires
            riot_wf(old(self)@),
        ensures
            final(self)@ == write_io_s(old(self)@, addr, val),
            riot_wf(final(self)@),
    {
        match addr & 0x17 {
            0x14 => {
                self.timer = val;
                self.interval = 1;
            },
            0x15 => {
                self.timer = val;
                self.interval = 8;
            },
            0x16 => {
                self.timer = val;
                self.interval = 64;
            },
            0x17 => {
                self.timer = val;
                self.interval = 1024;
            },
            _ => {},
        }
    }

    pub fn tick(&mut self, cycles: u32)
        requires
            riot_wf(old(self)@),
            old(self)@.ticks + cycles <= u32::MAX,
        ensures
            final(self)@ == tick_s(old(self)@, cycles),
            riot_wf(final(self)@),
    {
        let ghost t: int = self.ticks + cycles;
        let ghost timer0: int = self.timer as int;
        self.ticks = self.ticks + cycles;
        let ghost mut k: int = 0;
        while self.ticks >= self.interval
            invariant
                riot_wf(old(self)@),
                self.interval == old(self)@.interval,
                self.ram@ == old(self)@.ram,
                self.ticks + k * self.interval == t,
                0 <= k,
                self.timer == w8(timer0 - k),
            decreases self.ticks,
        {
            self.ticks = self.ticks - self.interval;
            proof {
                lemma_sub_mod_noop(timer0 - k, 1, 256);
                assert((k + 1) * self.interval == k * self.interval + self.interval)
                    by (nonlinear_arith);
                k = k + 1;
            }
            self.timer = self.timer.wrapping_sub(1);
        }
        proof {
            lemma_fundamental_div_mod_converse(t, self.interval as int, k, self.ticks as int);
        }
    }
}

/// A RAM write is read back at every address of the same cell (the RAM is
/// mirrored every 128 bytes), and no other cell changes.
pub proof fn lemma_ram_read_after_write(r: RiotView, waddr: u16, raddr: u16, val: u8)
    requires
        riot_wf(r),
    ensures
        ({
            let w = RiotView { ram: r.ram.update(ram_index(waddr), val), ..r };
            &&& riot_wf(w)
            &&& w.ram[ram_index(raddr)] == (if waddr % 128 == raddr % 128 {
                val
            } else {
                r.ram[ram_index(raddr)]
            })
        }),
{
}

/// Writing a timer register and reading INTIM gives the value written.
pub proof fn lemma_timer_write_read(r: RiotView, waddr: u16, raddr: u16, val: u8, input: Input)
    requires
        0x14 <= waddr & 0x17 <= 0x17,
        raddr % 8 == 4,
    ensures
        read_io_s(write_io_s(r, waddr, val), raddr, input) == val,
{
}

/// Running the timer for `a` cycles and then for `b` cycles is the same as
/// running it for `a + b` cycles.
pub proof fn lemma_tick_additive(r: RiotView, a: u32, b: u32)
    requires
        riot_wf(r),
        r.ticks + a + b <= u32::MAX,
    ensures
        tick_s(tick_s(r, a), b) == tick_s(r, (a + b) as u32),
{
    let d = r.interval as int;
    let t = r.ticks + a;
    let q1 = t / d;
    let r1 = t % d;
    lemma_fundamental_div_mod(t, d);
    let t2 = r1 + b;
    let q2 = t2 / d;
    let r2 = t2 % d;
    lemma_fundamental_div_mod(t2, d);
    assert(t + b == (q1 + q2) * d + r2) by (nonlinear_arith)
        requires
            t == d * q1 + r1,
            t2 == d * q2 + r2,
            t2 == r1 + b,
    ;
    lemma_fundamental_div_mod_converse(t + b, d, q1 + q2, r2);
    lemma_sub_mod_noop(r.timer - q1, q2, 256);
    assert(tick_s(r, a).ticks == r1);
    assert(tick_s(r, a).timer == w8(r.timer - q1));
}

} // verus!
