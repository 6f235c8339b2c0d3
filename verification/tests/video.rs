use atari2600::console::Atari2600;
use atari2600::tia::{Tia, FRAME_SIZE, TIA_NTSC};

fn run_clocks(t: &mut Tia, cpu_cycles: u32) -> bool {
    t.tick(cpu_cycles)
}

#[test]
fn new_tia_is_blank() {
    let t = Tia::new();
    assert_eq!(t.frame.len(), FRAME_SIZE);
    assert!(t.frame.chunks(4).all(|p| p == [0, 0, 0, 0xff]));
    assert_eq!(t.regs.scanline, 0);
    assert_eq!(t.regs.hpos_p0, 30);
}

#[test]
fn calibration_is_clamped() {
    let mut t = Tia::new();
    t.set_video_calibration(200, -6, 100);
    assert_eq!(t.regs.visible_start_clock, 68);
    assert_eq!(t.regs.x_adjust, -6);
    assert_eq!(t.regs.y_crop, 40);
    t.set_video_calibration(10, 3, 5);
    assert_eq!(t.regs.visible_start_clock, 10);
    assert_eq!(t.regs.y_crop, 5);
}

#[test]
fn audio_registers_masked() {
    let mut t = Tia::new();
    t.write(0x15, 0xff);
    t.write(0x17, 0xff);
    t.write(0x19, 0x1c);
    let s = t.audio_state();
    assert_eq!((s.audc0, s.audf0, s.audv0), (0x0f, 0x1f, 0x0c));
    assert!(!s.test_beep);
}

#[test]
fn tick_is_three_clocks_per_cycle() {
    let mut t = Tia::new();
    t.tick(10);
    assert_eq!(t.regs.cycles_in_line, 30);
    t.tick(66);
    // 228 clocks complete the line
    assert_eq!(t.regs.cycles_in_line, 0);
    assert_eq!(t.regs.scanline, 1);
    t.tick_cpu_cycle();
    assert_eq!(t.regs.cycles_in_line, 3);
}

#[test]
fn wsync_runs_to_line_end() {
    let mut t = Tia::new();
    t.tick(5);
    t.write(0x02, 0);
    assert_eq!(t.regs.cycles_in_line, 0);
    assert_eq!(t.regs.scanline, 1);
    // At the start of a line WSYNC does nothing.
    t.write(0x02, 0);
    assert_eq!(t.regs.scanline, 1);
}

#[test]
fn background_is_drawn_and_published_on_vsync() {
    let mut t = Tia::new();
    t.write(0x09, 0x1e); // COLUBK: hue 1, lum 7
    t.write(0x01, 0x00); // VBLANK off
    for _ in 0..10 {
        t.tick(76); // one line each
    }
    assert!(!t.take_frame_ready());
    t.write(0x00, 0x02); // VSYNC on: publishes
    assert!(t.take_frame_ready());
    assert!(!t.take_frame_ready());
    let [r, g, b] = TIA_NTSC[1][7];
    assert_eq!(&t.frame[0..4], &[r, g, b, 0xff]);
    assert_eq!(t.regs.scanline, 0);
}

#[test]
fn collisions_latch_until_cxclr() {
    let mut t = Tia::new();
    t.write(0x01, 0x00); // VBLANK off
    t.write(0x0d, 0xf0); // PF0: all four bits, covers x 0..15 and 80..95
    t.write(0x1b, 0xff); // GRP0
    // P0 at x = 30 is outside the playfield; move it to 0 with RESP0 at clock 0:
    // current_x = (0 - 68 saturated to 0) - 4 folded into 0..160 = 156.
    t.write(0x10, 0);
    assert_eq!(t.regs.hpos_p0, 156);
    t.tick(76); // draw one full line
    // P0 (156..163 wraps? no, 156..159 only) does not hit PF at 156..159 (PF0 mirrored? no)
    let before = t.read(0x02);
    t.write(0x2a, 0); // HMOVE with zero motion keeps positions
    assert_eq!(t.regs.hpos_p0, 156);
    t.write(0x20, 0x80); // HMP0 = -8: moves right by 8
    t.write(0x2a, 0);
    assert_eq!(t.regs.hpos_p0, 4);
    t.tick(76);
    assert_eq!(t.read(0x02) & 0x80, 0x80); // P0-PF collision latched
    t.tick(76);
    assert_eq!(t.read(0x02) & 0x80, 0x80);
    t.write(0x2c, 0); // CXCLR
    assert_eq!(t.read(0x02), 0);
    let _ = before;
}

#[test]
fn hmclr_clears_motion() {
    let mut t = Tia::new();
    t.write(0x20, 0x70);
    t.write(0x2b, 0);
    t.write(0x2a, 0);
    assert_eq!(t.regs.hpos_p0, 30);
    t.write(0x21, 0x10); // HMP1 = +1 moves left
    t.write(0x2a, 0);
    assert_eq!(t.regs.hpos_p1, 99);
}

#[test]
fn frame_without_vsync_after_262_lines() {
    let mut t = Tia::new();
    t.write(0x01, 0x00);
    let mut ready = false;
    for _ in 0..262 {
        ready |= run_clocks(&mut t, 76);
    }
    assert!(ready);
    assert_eq!(t.regs.scanline, 0);
}

fn console_rom() -> Vec<u8> {
    // F000: LDA #$02; STA VSYNC; STA WSYNC x3; LDA #$00; STA VSYNC; STA VBLANK;
    //       LDA #$46; STA COLUBK; then STA WSYNC 192 times via loop; JMP $F000
    let prog: Vec<u8> = vec![
        0xa9, 0x02, 0x85, 0x00, 0x85, 0x02, 0x85, 0x02, 0x85, 0x02, 0xa9, 0x00, 0x85, 0x00, 0x85, 0x01,
        0xa9, 0x46, 0x85, 0x09, 0xa2, 0xc0, 0x85, 0x02, 0xca, 0xd0, 0xfb, 0x4c, 0x00, 0xf0,
    ];
    let mut rom = vec![0xea; 4096];
    rom[..prog.len()].copy_from_slice(&prog);
    rom[0xffc] = 0x00;
    rom[0xffd] = 0xf0;
    rom
}

#[test]
fn console_new_and_frames() {
    assert!(Atari2600::new(vec![]).is_err());
    let mut a = Atari2600::new(console_rom()).unwrap();
    assert_eq!(a.cpu.pc, 0xf000);
    a.run_frame();
    a.run_frame();
    let fb = a.framebuffer();
    assert_eq!(fb.len(), FRAME_SIZE);
    let [r, g, b] = TIA_NTSC[4][3];
    assert_eq!(&fb[0..4], &[r, g, b, 0xff]);
    assert!(a.cpu.cycles > 0);
}

#[test]
fn console_reset_and_calibration() {
    let mut a = Atari2600::new(console_rom()).unwrap();
    a.set_video_calibration(100, 2, 3);
    assert_eq!(a.bus.tia.regs.visible_start_clock, 68);
    a.run_frame();
    a.reset();
    assert_eq!(a.cpu.pc, 0xf000);
    assert_eq!(a.cpu.cycles, 0);
}

#[test]
fn console_stops_on_illegal_opcode() {
    let mut rom = vec![0x02; 4096];
    rom[0xffc] = 0x00;
    rom[0xffd] = 0xf0;
    let mut a = Atari2600::new(rom).unwrap();
    a.run_frame();
    assert!(a.cpu.stopped);
    assert_eq!(a.cpu.cycles, 1);
}

#[test]
fn console_input_reaches_bus() {
    let mut a = Atari2600::new(console_rom()).unwrap();
    a.input.set_up(true);
    a.run_frame();
    assert_eq!(a.bus.input.swcha, 0xef);
}

#[test]
fn palette_ignores_bit0() {
    let mut a = Tia::new();
    let mut b = Tia::new();
    a.write(0x09, 0x1e);
    b.write(0x09, 0x1f);
    for t in [&mut a, &mut b] {
        t.write(0x01, 0);
        t.tick(76 * 3);
        t.write(0x00, 2);
    }
    assert_eq!(a.frame, b.frame);
}

#[test]
fn reset_keeps_ram() {
    let mut a = Atari2600::new(console_rom()).unwrap();
    a.run_frame();
    a.bus.riot.write_ram(0x90, 0x3c);
    a.reset();
    assert_eq!(a.bus.riot.read_ram(0x90), 0x3c);
}

#[test]
fn writes_change_only_later_pixels() {
    let mut t = Tia::new();
    t.write(0x01, 0);
    t.write(0x09, 0x0e); // grey background
    t.tick(23 + 40); // to clock 189: pixels 0..120 drawn (visible from clock 68)
    t.write(0x09, 0x46); // change the background mid-line
    t.tick(76 * 2);
    t.write(0x00, 2); // publish
    let grey = TIA_NTSC[0][7];
    let red = TIA_NTSC[4][3];
    assert_eq!(&t.frame[0..3], &grey);
    assert_eq!(&t.frame[100 * 4..100 * 4 + 3], &grey);
    assert_eq!(&t.frame[150 * 4..150 * 4 + 3], &red);
    assert_eq!(&t.frame[160 * 4..160 * 4 + 3], &red);
}

use atari2600::bus::TraceEvent;
use atari2600::console::Key;

#[test]
fn keyboard_map() {
    let mut a = Atari2600::new(console_rom()).unwrap();
    a.handle_key(Key::Left, true);
    assert_eq!(a.input.swcha, 0xbf);
    a.handle_key(Key::Left, false);
    a.handle_key(Key::Down, true);
    assert_eq!(a.input.swcha, 0xdf);
    a.handle_key(Key::Z, true);
    assert_eq!(a.input.inpt4, 0);
    a.handle_key(Key::Space, false);
    assert_eq!(a.input.inpt4, 0x80);
    a.handle_key(Key::Key2, true);
    assert_eq!(a.input.swchb, 0xfe);
    a.handle_key(Key::Return, false);
    a.handle_key(Key::F1, true);
    assert_eq!(a.input.swchb, 0xfd);
    a.handle_key(Key::Key1, false);
    a.handle_key(Key::C, true);
    a.handle_key(Key::C, false);
    assert_eq!(a.input.swchb, 0xf7);
    a.handle_key(Key::A, true);
    a.handle_key(Key::S, true);
    assert_eq!(a.input.swchb, 0x37);
    a.handle_key(Key::Other, true);
    assert_eq!(a.input.swchb, 0x37);
}

#[test]
fn key_r_resets_emulator() {
    let mut a = Atari2600::new(console_rom()).unwrap();
    a.run_frame();
    assert!(a.cpu.cycles > 0);
    a.handle_key(Key::R, false);
    assert!(a.cpu.cycles > 0);
    a.handle_key(Key::R, true);
    assert_eq!(a.cpu.cycles, 0);
    assert_eq!(a.cpu.pc, 0xf000);
}

#[test]
fn trace_mode_records_instructions_and_tia_writes() {
    let mut a = Atari2600::new(console_rom()).unwrap();
    assert!(a.run_frame().is_empty());
    a.reset();
    a.trace = true;
    let events = a.run_frame();
    // LDA #$02 then STA VSYNC: the write comes before the STA's line.
    match (&events[0], &events[1], &events[2]) {
        (TraceEvent::Instruction(c0), TraceEvent::TiaWrite(0x00, 0x02), TraceEvent::Instruction(c1)) => {
            assert_eq!(c0.trace_line(), "PC=F000 OP=A9 A=02 X=00 Y=00 SP=FD P=24 CYC=2");
            assert_eq!(c1.last_op, 0x85);
        }
        _ => panic!("unexpected trace"),
    }
    assert!(a.bus.trace_log.is_empty());
}

#[test]
fn split_ticks_report_frames() {
    let mut whole = Tia::new();
    let mut split = Tia::new();
    whole.write(0x01, 0);
    split.write(0x01, 0);
    let r = whole.tick(76 * 262);
    let r1 = split.tick(76 * 200);
    let r2 = split.tick(76 * 62);
    assert_eq!(r, r1 || r2);
    assert!(r);
    assert_eq!(whole.regs.scanline, split.regs.scanline);
    assert_eq!(whole.frame, split.frame);
}

#[test]
fn playfield_mirror_and_repeat() {
    for ctrl in [0u8, 1] {
        let mut t = Tia::new();
        t.write(0x01, 0);
        t.write(0x08, 0x0e); // COLUPF grey
        t.write(0x0d, 0x10); // PF0 bit 4: pixels 0..3
        t.write(0x0a, ctrl);
        t.tick(76 * 2);
        t.write(0x00, 2);
        let lit = |x: usize| t.frame[x * 4] != 0;
        assert!(lit(0));
        assert!(!lit(4));
        if ctrl == 1 {
            assert!(lit(159) && !lit(80));
        } else {
            assert!(lit(80) && !lit(159));
        }
    }
}

#[test]
fn sound_registers_stay_in_range() {
    let mut t = Tia::new();
    for reg in 0x15..=0x1a {
        t.write(reg, 0xff);
    }
    let s = t.audio_state();
    assert!(s.audc0 < 16 && s.audc1 < 16 && s.audv0 < 16 && s.audv1 < 16);
    assert!(s.audf0 < 32 && s.audf1 < 32);
}

#[test]
fn playfield_right_half_mirrors_or_repeats() {
    for ctrl in [0u8, 1] {
        let mut t = Tia::new();
        t.write(0x0d, 0x20);
        t.write(0x0e, 0x81);
        t.write(0x0f, 0x06);
        t.write(0x0a, ctrl);
        assert!(t.playfield_bit(0) == false && t.playfield_bit(4) && t.playfield_bit(16));
        for x in 80..160 {
            let other = if ctrl == 1 { 159 - x } else { x - 80 };
            assert_eq!(t.playfield_bit(x), t.playfield_bit(other), "x = {}", x);
        }
    }
}

#[test]
fn wsync_on_the_last_line_starts_a_new_picture() {
    let mut t = Tia::new();
    t.regs.scanline = 261;
    t.tick(3);
    t.write(0x02, 0);
    assert_eq!(t.regs.cycles_in_line, 0);
    assert_eq!(t.regs.scanline, 0);
    assert_eq!(t.regs.visible_y, 0);
}
