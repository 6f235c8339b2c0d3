use atari2600::audio::{mixer_update, noise_step, set_test_beep, shared_audio_state, with_test_beep, TiaAudioState};
use atari2600::bus::Bus;
use atari2600::cartridge::{Cartridge, CartridgeError, Mapper};
use atari2600::cpu::Memory;
use atari2600::input::Input;
use atari2600::riot::Riot;

#[test]
fn input_defaults() {
    let i = Input::new();
    assert_eq!((i.swcha, i.swchb, i.inpt4), (0xff, 0xff, 0x80));
}

#[test]
fn joystick_directions_are_active_low() {
    let mut i = Input::new();
    i.set_left(true);
    assert_eq!(i.swcha, 0xbf);
    i.set_up(true);
    assert_eq!(i.swcha, 0xaf);
    i.set_left(false);
    assert_eq!(i.swcha, 0xef);
    i.set_right(true);
    i.set_down(true);
    assert_eq!(i.swcha, 0x4f);
    i.set_up(false);
    i.set_right(false);
    i.set_down(false);
    assert_eq!(i.swcha, 0xff);
    assert_eq!(i.swchb, 0xff);
}

#[test]
fn fire_button() {
    let mut i = Input::new();
    i.set_fire(true);
    assert_eq!(i.inpt4, 0x00);
    i.set_fire(false);
    assert_eq!(i.inpt4, 0x80);
}

#[test]
fn console_switches() {
    let mut i = Input::new();
    i.set_select(true);
    assert_eq!(i.swchb, 0xfd);
    i.set_reset_switch(true);
    assert_eq!(i.swchb, 0xfc);
    i.set_select(false);
    i.set_reset_switch(false);
    assert_eq!(i.swchb, 0xff);
    i.set_color(false);
    assert_eq!(i.swchb, 0xf7);
    i.set_color(true);
    assert_eq!(i.swchb, 0xff);
    i.set_p0_difficulty_a(true);
    assert_eq!(i.swchb, 0xbf);
    i.set_p1_difficulty_a(true);
    assert_eq!(i.swchb, 0x3f);
    i.set_p0_difficulty_a(false);
    i.set_p1_difficulty_a(false);
    assert_eq!(i.swchb, 0xff);
}

#[test]
fn toggles_twice_restore() {
    let mut i = Input::new();
    i.toggle_color();
    assert_eq!(i.swchb, 0xf7);
    i.toggle_color();
    assert_eq!(i.swchb, 0xff);
    i.toggle_p0_difficulty();
    assert_eq!(i.swchb, 0xbf);
    i.toggle_p1_difficulty();
    assert_eq!(i.swchb, 0x3f);
    i.toggle_p0_difficulty();
    i.toggle_p1_difficulty();
    assert_eq!(i.swchb, 0xff);
}

#[test]
fn riot_ram_mirrors() {
    let mut r = Riot::new();
    r.write_ram(0x80, 7);
    assert_eq!(r.read_ram(0x80), 7);
    assert_eq!(r.read_ram(0x180), 7);
    assert_eq!(r.read_ram(0x00), 7);
    assert_eq!(r.read_ram(0x81), 0);
}

#[test]
fn riot_io_ports() {
    let r = Riot::new();
    let mut i = Input::new();
    i.set_left(true);
    assert_eq!(r.read_io(0x280, &i), 0xbf);
    assert_eq!(r.read_io(0x282, &i), 0xff);
    assert_eq!(r.read_io(0x284, &i), 0);
    assert_eq!(r.read_io(0x281, &i), 0xff);
}

#[test]
fn riot_timer_intervals() {
    let i = Input::new();
    let mut r = Riot::new();
    r.write_io(0x294, 10); // TIM1T
    r.tick(4);
    assert_eq!(r.read_io(0x284, &i), 6);
    r.write_io(0x295, 3); // TIM8T
    r.tick(16);
    assert_eq!(r.read_io(0x284, &i), 1);
    r.tick(15);
    assert_eq!(r.read_io(0x284, &i), 0);
    r.tick(1);
    // 16 cycles counted since: one more decrement, wrapping below zero
    assert_eq!(r.read_io(0x284, &i), 0xff);
    r.write_io(0x296, 2); // TIM64T
    r.tick(64);
    assert_eq!(r.read_io(0x284, &i), 1);
    r.write_io(0x297, 5); // T1024T
    r.tick(1023);
    assert_eq!(r.read_io(0x284, &i), 5);
    r.tick(1);
    assert_eq!(r.read_io(0x284, &i), 4);
}

#[test]
fn riot_tick_is_additive() {
    let i = Input::new();
    let mut a = Riot::new();
    let mut b = Riot::new();
    a.write_io(0x295, 100);
    b.write_io(0x295, 100);
    a.tick(5);
    a.tick(20);
    b.tick(25);
    assert_eq!(a.read_io(0x284, &i), b.read_io(0x284, &i));
    assert_eq!(a.read_io(0x284, &i), 97);
}

#[test]
fn riot_other_writes_ignored() {
    let i = Input::new();
    let mut r = Riot::new();
    r.write_io(0x280, 9);
    r.write_io(0x290, 9);
    assert_eq!(r.read_io(0x284, &i), 0);
}

#[test]
fn cartridge_empty_refused() {
    assert!(matches!(Cartridge::new(vec![]), Err(CartridgeError::EmptyRom)));
}

#[test]
fn cartridge_2k_mirrors_and_pads() {
    let mut c = Cartridge::new(vec![1, 2, 3]).unwrap();
    assert_eq!(c.len(), 2048);
    assert_eq!(c.mapper(), Mapper::Rom2K);
    assert_eq!(c.bank(), 0);
    assert_eq!(c.read(0x1000), 1);
    assert_eq!(c.read(0x1802), 3);
    assert_eq!(c.read(0x1003), 0xff);
}

#[test]
fn cartridge_4k() {
    let mut rom = vec![0u8; 3000];
    rom[5] = 9;
    let mut c = Cartridge::new(rom).unwrap();
    assert_eq!(c.len(), 4096);
    assert_eq!(c.mapper(), Mapper::Rom4K);
    assert_eq!(c.read(0xf005), 9);
    assert_eq!(c.read(0x1fff), 0xff);
}

#[test]
fn cartridge_f8_bank_switching() {
    let mut rom = vec![0u8; 8192];
    rom[0x10] = 0xa0;
    rom[0x1010] = 0xb1;
    let mut c = Cartridge::new(rom).unwrap();
    assert_eq!(c.mapper(), Mapper::F8);
    assert_eq!(c.bank(), 1);
    assert_eq!(c.read(0x1010), 0xb1);
    c.read(0x1ff8);
    assert_eq!(c.bank(), 0);
    assert_eq!(c.read(0x1010), 0xa0);
    c.write(0x1ff9, 0);
    assert_eq!(c.bank(), 1);
    assert_eq!(c.read(0x1010), 0xb1);
}

#[test]
fn cartridge_unknown_size() {
    let mut rom = vec![0u8; 10000];
    rom[4096 + 7] = 0;
    rom[7] = 0x77;
    let mut c = Cartridge::new(rom).unwrap();
    assert_eq!(c.mapper(), Mapper::Unknown);
    assert_eq!(c.len(), 10000);
    assert_eq!(c.read(0x1007), 0x77);
}

#[test]
fn bus_ram_and_mirrors() {
    let mut bus = Bus::new(Cartridge::new(vec![0xea; 4096]).unwrap());
    bus.write(0x0085, 0x12);
    assert_eq!(bus.read(0x0085), 0x12);
    assert_eq!(bus.read(0x0185), 0x12);
    assert_eq!(bus.read(0x2085), 0x12);
    bus.write(0x01ff, 0x34);
    assert_eq!(bus.read(0x00ff), 0x34);
}

#[test]
fn bus_input_ports() {
    let mut bus = Bus::new(Cartridge::new(vec![0xea; 4096]).unwrap());
    bus.input.set_fire(true);
    bus.input.set_right(true);
    assert_eq!(bus.read(0x000c), 0x00);
    assert_eq!(bus.read(0x0280), 0x7f);
    assert_eq!(bus.read(0x0282), 0xff);
    // Paddles read at rest.
    assert_eq!(bus.read(0x0008), 0x80);
}

#[test]
fn bus_cartridge_window() {
    let mut rom = vec![0u8; 4096];
    rom[0x123] = 0x5c;
    let mut bus = Bus::new(Cartridge::new(rom).unwrap());
    assert_eq!(bus.read(0xf123), 0x5c);
    assert_eq!(bus.read(0x1123), 0x5c);
}

#[test]
fn bus_timer_through_ports() {
    let mut bus = Bus::new(Cartridge::new(vec![0xea; 4096]).unwrap());
    bus.write(0x0294, 50);
    bus.tick(10);
    assert_eq!(bus.read(0x0284), 40);
}

#[test]
fn audio_default_is_silent() {
    let s = TiaAudioState::default();
    assert_eq!((s.audc0, s.audf0, s.audv0, s.audc1, s.audf1, s.audv1), (0, 0, 0, 0, 0, 0));
    assert!(!s.test_beep);
}

#[test]
fn test_beep_settings() {
    let s = with_test_beep(TiaAudioState::default(), true);
    assert!(s.test_beep);
    assert_eq!((s.audc0, s.audf0, s.audv0), (4, 18, 12));
    let off = with_test_beep(s, false);
    assert!(!off.test_beep);
    assert_eq!(off.audv0, 12);
}

#[test]
fn shared_state_beep() {
    let st = shared_audio_state();
    set_test_beep(&st, true);
    let s = *st.lock().unwrap();
    assert!(s.test_beep);
    assert_eq!(s.audv0, 12);
    set_test_beep(&st, false);
    assert!(!st.lock().unwrap().test_beep);
}

#[test]
fn mixer_keeps_test_beep() {
    let cur = with_test_beep(TiaAudioState::default(), true);
    let mut regs = TiaAudioState::default();
    regs.audv1 = 9;
    let m = mixer_update(cur, regs);
    assert!(m.test_beep);
    assert_eq!(m.audv1, 9);
    assert_eq!(m.audv0, 0);
}

#[test]
fn bus_uses_13_address_lines() {
    let mut rom = vec![0u8; 4096];
    rom[0x456] = 0x99;
    let mut bus = Bus::new(Cartridge::new(rom).unwrap());
    assert_eq!(bus.read(0xf456), bus.read(0x1456));
    bus.write(0xe0a0, 0x21);
    assert_eq!(bus.read(0x00a0), 0x21);
}

#[test]
fn noise_register_steps() {
    assert_eq!(noise_step(0xace1), 0x8000_5670);
    assert_eq!(noise_step(0xbeef), 0x0000_5f77);
    assert_eq!(noise_step(1), 0x8000_0000);
    assert_eq!(noise_step(0x8000_0000), 0x4000_0000 | 0x8000_0000);
    assert_eq!(noise_step(0), 0);
    let mut n: u32 = 0xace1;
    for _ in 0..1000 {
        n = noise_step(n);
        assert_ne!(n, 0);
    }
}
