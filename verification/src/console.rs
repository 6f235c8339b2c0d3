use vstd::prelude::*;
use crate::audio::{SharedAudioState, shared_audio_state, publish_audio};
use crate::bus::{Bus, BusView, TraceEvent, bus_wf, bus_tick_s};
use crate::cartridge::{Cartridge, CartridgeError, padded_rom, mapper_for_len, CartridgeView, Mapper};
use crate::cpu::{Cpu6502, step_s, reset_s, power_on, lemma_step_cycles};
use crate::input::{Input, released, active_low, JOY_LEFT, JOY_RIGHT, JOY_UP, JOY_DOWN, FIRE_RELEASED,
    SW_RESET, SW_SELECT, SW_COLOR, SW_P0_DIFFICULTY, SW_P1_DIFFICULTY};
use crate::riot::riot_power_on;
use crate::tia::{Tia, sound_regs};
use crate::audio::TiaAudioState;

verus! {

/// Processor cycles after which a frame is cut short when the TIA never
/// finishes one.
pub const FRAME_GUARD: u32 = 80_000;

/// The whole console.
pub struct Atari2600 {
    pub cpu: Cpu6502,
    pub bus: Bus,
    pub input: Input,
    pub trace: bool,
    pub audio_state: SharedAudioState,
    /// Every register state handed to the mixer, in order.
    pub mixer_log: Ghost<Seq<TiaAudioState>>,
}

/// The bus of a console just switched on with the cartridge `cart`.
pub open spec fn bus_power_on(cart: CartridgeView) -> BusView {
    BusView {
        tia: Tia::new_spec(),
        riot: riot_power_on(),
        cart,
        input: released(),
        trace: false,
        trace_log: Seq::empty(),
    }
}

/// In trace mode, the processor state after each instruction is recorded
/// after the TIA writes the instruction made.
pub open spec fn log_instruction(b: BusView, c: Cpu6502) -> BusView {
    if b.trace {
        BusView { trace_log: b.trace_log.push(TraceEvent::Instruction(c)), ..b }
    } else {
        b
    }
}

/// Run instructions until the TIA finishes a frame, the processor stops, or
/// `FRAME_GUARD` cycles have passed (`guard` counts the cycles run so far).
pub open spec fn run_s(c: Cpu6502, b: BusView, guard: int) -> (Cpu6502, BusView)
    decreases FRAME_GUARD + 7 - guard,
{
    if guard >= FRAME_GUARD {
        (c, b)
    } else {
        proof {
            lemma_step_cycles::<Bus>(c, b);
        }
        let (c1, b1, cyc) = step_s::<Bus>(c, b);
        let b2 = log_instruction(bus_tick_s(b1, cyc), c1);
        if b2.tia.regs.frame_ready || c1.stopped {
            (c1, b2)
        } else {
            run_s(c1, b2, guard + cyc)
        }
    }
}

/// The sound registers that `run_s` hands the mixer: those after each
/// instruction, in order.
pub open spec fn run_audio_s(c: Cpu6502, b: BusView, guard: int) -> Seq<TiaAudioState>
    decreases FRAME_GUARD + 7 - guard,
{
    if guard >= FRAME_GUARD {
        Seq::empty()
    } else {
        proof {
            lemma_step_cycles::<Bus>(c, b);
        }
        let (c1, b1, cyc) = step_s::<Bus>(c, b);
        let b2 = log_instruction(bus_tick_s(b1, cyc), c1);
        let s = seq![sound_regs(b2.tia.regs)];
        if b2.tia.regs.frame_ready || c1.stopped {
            s
        } else {
            s + run_audio_s(c1, b2, guard + cyc)
        }
    }
}

/// One frame as `run_frame` runs it: the controls and trace switch are
/// handed to the bus first.
pub open spec fn frame_s(c: Cpu6502, b: BusView, input: Input, trace: bool) -> (Cpu6502, BusView) {
    run_s(c, BusView { input, trace, ..b }, 0)
}

/// What `run_frame` hands the mixer over one frame: the sound registers
/// after each instruction.
pub open spec fn frame_audio_s(c: Cpu6502, b: BusView, input: Input, trace: bool) -> Seq<TiaAudioState> {
    run_audio_s(c, BusView { input, trace, ..b }, 0)
}

/// The keys the front end reports.
#[derive(Clone, Copy, PartialEq, Eq, Structural)]
pub enum Key {
    Left,
    Right,
    Up,
    Down,
    Space,
    Z,
    X,
    Return,
    F1,
    Key1,
    F2,
    Key2,
    R,
    C,
    A,
    S,
    Other,
}

/// The controls after a key goes down (`pressed`) or up. Arrows move the
/// joystick; Space, Z and X fire; Return and F2/2 hold Reset; F1/1 hold
/// Select; C, A and S flip the colour switch and the difficulties when
/// pressed. (R, the emulator reset, leaves the controls alone.)
pub open spec fn key_input_s(i: Input, k: Key, pressed: bool) -> Input {
    match k {
        Key::Left => Input { swcha: active_low(i.swcha, JOY_LEFT, pressed), ..i },
        Key::Right => Input { swcha: active_low(i.swcha, JOY_RIGHT, pressed), ..i },
        Key::Up => Input { swcha: active_low(i.swcha, JOY_UP, pressed), ..i },
        Key::Down => Input { swcha: active_low(i.swcha, JOY_DOWN, pressed), ..i },
        Key::Space | Key::Z | Key::X => Input { inpt4: if pressed { 0u8 } else { FIRE_RELEASED }, ..i },
        Key::Return | Key::F2 | Key::Key2 => Input { swchb: active_low(i.swchb, SW_RESET, pressed), ..i },
        Key::F1 | Key::Key1 => Input { swchb: active_low(i.swchb, SW_SELECT, pressed), ..i },
        Key::C => if pressed { Input { swchb: i.swchb ^ SW_COLOR, ..i } } else { i },
        Key::A => if pressed { Input { swchb: i.swchb ^ SW_P0_DIFFICULTY, ..i } } else { i },
        Key::S => if pressed { Input { swchb: i.swchb ^ SW_P1_DIFFICULTY, ..i } } else { i },
        Key::R | Key::Other => i,
    }
}

/// The keyboard map bit by bit: the arrows clear (pressed) or set
/// (released) one joystick bit of SWCHA (left 0x40, right 0x80, up 0x10,
/// down 0x20); Space, Z and X pull INPT4 to 0 and release it to 0x80;
/// Return, F2 and 2 hold Reset (SWCHB bit 0x01) and F1 and 1 hold Select
/// (0x02) while down; C, A and S flip the colour switch (0x08) and the
/// difficulties (0x40, 0x80) when pressed. Every other port keeps its value.
pub proof fn lemma_key_bits(i: Input, k: Key, pressed: bool)
    ensures
        ({
            let n = key_input_s(i, k, pressed);
            &&& k == Key::Left ==> n == Input {
                swcha: if pressed { i.swcha & !0x40u8 } else { i.swcha | 0x40 },
                ..i
            }
            &&& k == Key::Right ==> n == Input {
                swcha: if pressed { i.swcha & !0x80u8 } else { i.swcha | 0x80 },
                ..i
            }
            &&& k == Key::Up ==> n == Input {
                swcha: if pressed { i.swcha & !0x10u8 } else { i.swcha | 0x10 },
                ..i
            }
            &&& k == Key::Down ==> n == Input {
                swcha: if pressed { i.swcha & !0x20u8 } else { i.swcha | 0x20 },
                ..i
            }
            &&& (k == Key::Space || k == Key::Z || k == Key::X) ==> n == Input {
                inpt4: if pressed { 0u8 } else { 0x80u8 },
                ..i
            }
            &&& (k == Key::Return || k == Key::F2 || k == Key::Key2) ==> n == Input {
                swchb: if pressed { i.swchb & !0x01u8 } else { i.swchb | 0x01 },
                ..i
            }
            &&& (k == Key::F1 || k == Key::Key1) ==> n == Input {
                swchb: if pressed { i.swchb & !0x02u8 } else { i.swchb | 0x02 },
                ..i
            }
            &&& k == Key::C ==> n == Input { swchb: if pressed { i.swchb ^ 0x08 } else { i.swchb }, ..i }
            &&& k == Key::A ==> n == Input { swchb: if pressed { i.swchb ^ 0x40 } else { i.swchb }, ..i }
            &&& k == Key::S ==> n == Input { swchb: if pressed { i.swchb ^ 0x80 } else { i.swchb }, ..i }
            &&& (k == Key::R || k == Key::Other) ==> n == i
        }),
{
}

proof fn lemma_active_low_bit(v: u8, b: u8, p: bool)
    by (bit_vector)
    requires
        b == 0x40 || b == 0x80 || b == 0x10 || b == 0x20,
    ensures
        (active_low(v, b, p) & b == 0) == p,
        active_low(v, b, p) & !b == v & !b,
{
}

/// A joystick key touches only its own bit: pressing clears it, releasing
/// sets it, and pressing then releasing restores SWCHA when the bit was set.
pub proof fn lemma_joystick_key_bit(i: Input, k: Key, pressed: bool)
    requires
        k == Key::Left || k == Key::Right || k == Key::Up || k == Key::Down,
    ensures
        ({
            let bit: u8 = if k == Key::Left { 0x40 } else if k == Key::Right { 0x80 } else if k
                == Key::Up { 0x10 } else { 0x20 };
            let n = key_input_s(i, k, pressed);
            &&& (n.swcha & bit == 0) == pressed
            &&& n.swcha & !bit == i.swcha & !bit
            &&& n.swchb == i.swchb && n.inpt4 == i.inpt4
        }),
{
    let bit: u8 = if k == Key::Left { 0x40 } else if k == Key::Right { 0x80 } else if k
        == Key::Up { 0x10 } else { 0x20 };
    lemma_active_low_bit(i.swcha, bit, pressed);
}

impl Atari2600 {
    /// A key going down (`pressed`) or up: the controls change as
    /// `key_input_s` says, and R pressed resets the processor.
    pub fn handle_key(&mut self, key: Key, pressed: bool)
        requires
            bus_wf(old(self).bus@),
        ensures
            bus_wf(final(self).bus@),
            final(self).input == key_input_s(old(self).input, key, pressed),
            (key == Key::R && pressed) ==> (final(self).cpu, final(self).bus@) == reset_s::<Bus>(
                power_on(),
                old(self).bus@,
            ),
            !(key == Key::R && pressed) ==> final(self).cpu == old(self).cpu && final(self).bus@
                == old(self).bus@,
            final(self).trace == old(self).trace,
            final(self).audio_state == old(self).audio_state,
            final(self).mixer_log == old(self).mixer_log,
    {
        match key {
            Key::Left => self.input.set_left(pressed),
            Key::Right => self.input.set_right(pressed),
            Key::Up => self.input.set_up(pressed),
            Key::Down => self.input.set_down(pressed),
            Key::Space | Key::Z | Key::X => self.input.set_fire(pressed),
            Key::Return => self.input.set_reset_switch(pressed),
            Key::F1 | Key::Key1 => self.input.set_select(pressed),
            Key::F2 | Key::Key2 => self.input.set_reset_switch(pressed),
            Key::R => {
                if pressed {
                    self.reset();
                }
            },
            Key::C => {
                if pressed {
                    self.input.toggle_color();
                }
            },
            Key::A => {
                if pressed {
                    self.input.toggle_p0_difficulty();
                }
            },
            Key::S => {
                if pressed {
                    self.input.toggle_p1_difficulty();
                }
            },
            Key::Other => {},
        }
    }

    /// Insert a cartridge and switch on: refused when the image is empty;
    /// otherwise the processor is reset from the cartridge's vector.
    pub fn new(rom: Vec<u8>) -> (r: Result<Self, CartridgeError>)
        ensures
            rom@.len() == 0 <==> r is Err,
            r matches Err(e) ==> e == CartridgeError::EmptyRom,
            r matches Ok(a) ==> {
                let cart = CartridgeView {
                    rom: padded_rom(rom@),
                    mapper: mapper_for_len(rom@.len() as int),
                    bank: if mapper_for_len(rom@.len() as int) == Mapper::F8 { 1usize } else { 0usize },
                };
                &&& bus_wf(a.bus@)
                &&& (a.cpu, a.bus@) == reset_s::<Bus>(power_on(), bus_power_on(cart))
                &&& a.input == released()
                &&& !a.trace
                &&& a.mixer_log@ == Seq::<TiaAudioState>::empty()
            },
    {
        let cart = match Cartridge::new(rom) {
            Ok(c) => c,
            Err(e) => return Err(e),
        };
        let mut bus = Bus::new(cart);
        let mut cpu = Cpu6502::new();
        cpu.reset(&mut bus);
        Ok(Self { cpu, bus, input: Input::new(), trace: false,
            audio_state: shared_audio_state(),
            mixer_log: Ghost(Seq::empty()),
        })
    }

    /// Calibrate the picture (see `Tia::set_video_calibration`).
    pub fn set_video_calibration(&mut self, visible_start_clock: usize, x_adjust: isize, y_crop: usize)
        requires
            bus_wf(old(self).bus@),
        ensures
            bus_wf(final(self).bus@),
            final(self).cpu == old(self).cpu,
            final(self).bus@.riot == old(self).bus@.riot,
            final(self).bus@.cart == old(self).bus@.cart,
            final(self).bus@.input == old(self).bus@.input,
            final(self).bus@.tia.regs == (crate::tia::TiaRegs {
                visible_start_clock: if visible_start_clock < 68 { visible_start_clock } else { 68usize },
                x_adjust: x_adjust,
                y_crop: if y_crop < 40 { y_crop } else { 40usize },
                ..old(self).bus@.tia.regs
            }),
            final(self).bus@.tia.back == old(self).bus@.tia.back,
            final(self).bus@.tia.frame == old(self).bus@.tia.frame,
            final(self).bus@.trace == old(self).bus@.trace,
            final(self).bus@.trace_log == old(self).bus@.trace_log,
            final(self).input == old(self).input,
            final(self).trace == old(self).trace,
            final(self).audio_state == old(self).audio_state,
            final(self).mixer_log == old(self).mixer_log,
    {
        self.bus.tia.set_video_calibration(visible_start_clock, x_adjust, y_crop);
    }

    /// Reset the processor (the console's memory and chips keep their state).
    pub fn reset(&mut self)
        requires
            bus_wf(old(self).bus@),
        ensures
            bus_wf(final(self).bus@),
            (final(self).cpu, final(self).bus@) == reset_s::<Bus>(power_on(), old(self).bus@),
            final(self).input == old(self).input,
            final(self).trace == old(self).trace,
            final(self).audio_state == old(self).audio_state,
            final(self).mixer_log == old(self).mixer_log,
    {
        self.cpu = Cpu6502::new();
        self.cpu.reset(&mut self.bus);
    }

    /// Run one frame: instructions until the TIA finishes a frame, the
    /// processor stops, or 80 000 cycles pass; the mixer is handed the sound
    /// registers after every instruction and once more at the end. In trace
    /// mode the TIA writes and the processor state after each instruction
    /// are returned, in order, for the front end to print; otherwise nothing
    /// is returned.
    #[verifier::spinoff_prover]
    #[verifier::rlimit(40)]
    pub fn run_frame(&mut self) -> (events: Vec<TraceEvent>)
        requires
            bus_wf(old(self).bus@),
            old(self).cpu.cycles <= u64::MAX - (FRAME_GUARD + 7),
        ensures
            bus_wf(final(self).bus@),
            ({
                let (c, b) = frame_s(old(self).cpu, old(self).bus@, old(self).input, old(self).trace);
                &&& final(self).cpu == c
                &&& final(self).bus@ == (BusView { trace_log: Seq::empty(), ..b })
                &&& events@ == b.trace_log
                &&& final(self).mixer_log@ == old(self).mixer_log@ + frame_audio_s(
                    old(self).cpu,
                    old(self).bus@,
                    old(self).input,
                    old(self).trace,
                ).push(sound_regs(b.tia.regs))
            }),
            final(self).input == old(self).input,
            final(self).trace == old(self).trace,
            final(self).audio_state == old(self).audio_state,
    {
        self.bus.input = self.input;
        self.bus.trace = self.trace;
        let ghost c0 = self.cpu.cycles;
        let ghost target = run_s(self.cpu, self.bus@, 0);
        let ghost heard = self.mixer_log@ + run_audio_s(self.cpu, self.bus@, 0);
        let mut done = false;
        let mut guard: u32 = 0;
        while !done && guard < FRAME_GUARD
            invariant_except_break
                !done ==> run_s(self.cpu, self.bus@, guard as int) == target,
                !done ==> self.mixer_log@ + run_audio_s(self.cpu, self.bus@, guard as int) == heard,
                done ==> (self.cpu, self.bus@) == target,
                done ==> self.mixer_log@ == heard,
            invariant
                bus_wf(self.bus@),
                guard <= FRAME_GUARD + 7,
                self.cpu.cycles <= c0 + guard,
                c0 <= u64::MAX - (FRAME_GUARD + 7),
                self.input == old(self).input,
                self.trace == old(self).trace,
                self.audio_state == old(self).audio_state,
            ensures
                bus_wf(self.bus@),
                (self.cpu, self.bus@) == target,
                self.mixer_log@ == heard,
            decreases FRAME_GUARD + 7 - guard,
        {
            proof {
                lemma_step_cycles::<Bus>(self.cpu, self.bus@);
            }
            let ghost log0 = self.mixer_log@;
            let ghost c_before = self.cpu;
            let ghost b_before = self.bus@;
            let ghost g_before = guard as int;
            let cycles = self.cpu.step(&mut self.bus);
            done = self.bus.tick(cycles);
            if self.bus.trace {
                self.bus.trace_log.push(TraceEvent::Instruction(self.cpu));
            }
            // The mixer is updated during the frame, not only at its end:
            // many ROMs switch AUDV quickly.
            let regs = self.bus.tia.audio_state();
            publish_audio(&self.audio_state, regs, &mut self.mixer_log);
            guard = guard + cycles;
            proof {
                let rest = run_audio_s(self.cpu, self.bus@, guard as int);
                assert(log0.push(regs) + rest =~= log0 + (seq![regs] + rest));
                assert(log0.push(regs) =~= log0 + seq![regs]);
            }
            if self.cpu.stopped {
                break;
            }
        }
        proof {
            if !done {
                assert(self.mixer_log@ + Seq::<TiaAudioState>::empty() =~= self.mixer_log@);
            }
        }
        let regs = self.bus.tia.audio_state();
        publish_audio(&self.audio_state, regs, &mut self.mixer_log);
        let mut events = Vec::new();
        std::mem::swap(&mut events, &mut self.bus.trace_log);
        events
    }

    /// The last finished picture, RGBA 160x192.
    pub fn framebuffer(&self) -> (f: &[u8])
        ensures
            f@ == self.bus@.tia.frame,
    {
        self.bus.tia.frame.as_slice()
    }
}

/// A processor reset only reads the reset vector: the TIA, the RIOT (RAM and
/// timer) and the controls keep their state, and only the cartridge's bank
/// may follow the vector's reads.
pub proof fn lemma_reset_keeps_chips(c: Cpu6502, b: BusView)
    requires
        bus_wf(b),
    ensures
        ({
            let (c1, b1) = reset_s::<Bus>(c, b);
            &&& b1.tia == b.tia
            &&& b1.riot == b.riot
            &&& b1.input == b.input
            &&& b1.cart.rom == b.cart.rom
            &&& b1.cart.mapper == b.cart.mapper
            &&& bus_wf(b1)
            &&& c1.a == c.a && c1.x == c.x && c1.y == c.y
        }),
{
    crate::bits::lemma_addr13(0xfffc);
    crate::bits::lemma_addr13(0xfffd);
    crate::bus::lemma_after_read_wf(b, 0xfffc);
    crate::bus::lemma_after_read_wf(crate::bus::bus_after_read(b, 0xfffc), 0xfffd);
    crate::cartridge::lemma_repeatable_read(b.cart, 0xfffcu16 & 0x1fff);
    crate::cartridge::lemma_repeatable_read(crate::bus::bus_after_read(b, 0xfffc).cart, 0xfffdu16 & 0x1fff);
}

} // verus!
