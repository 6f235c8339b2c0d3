use vstd::prelude::*;
use crate::audio::TiaAudioState;
use crate::bits::lemma_byte_masks;

verus! {

pub const VISIBLE_WIDTH: usize = 160;
pub const VISIBLE_HEIGHT: usize = 192;
pub const FRAME_SIZE: usize = VISIBLE_WIDTH * VISIBLE_HEIGHT * 4;

/// NTSC timing: 228 colour clocks per scanline, of which the first ~68 are
/// outside the visible area; the picture shown is 160x192.
pub const COLOR_CLOCKS_PER_LINE: usize = 228;
pub const DEFAULT_VISIBLE_START_CLOCK: usize = 68;
/// Scanlines after which a frame is closed even without VSYNC.
pub const LINES_PER_FRAME: usize = 262;
/// The largest number of top scanlines that can be cropped.
pub const MAX_Y_CROP: usize = 40;

/// Approximate NTSC palette by hue (high nibble) and luminance (bits 1..3).
pub const TIA_NTSC: [[[u8; 3]; 8]; 16] = [
    // 0x0: grayscale
    [[0,0,0],[36,36,36],[72,72,72],[108,108,108],[144,144,144],[176,176,176],[208,208,208],[236,236,236]],
    // 0x1: gold / dark yellow
    [[32,24,0],[64,48,0],[96,72,0],[128,96,0],[160,122,12],[194,154,42],[224,188,82],[248,220,132]],
    // 0x2: orange
    [[44,16,0],[80,34,0],[120,56,0],[160,82,10],[198,112,34],[226,144,70],[246,180,112],[255,214,160]],
    // 0x3: red-orange
    [[48,8,0],[86,22,0],[126,38,6],[166,58,22],[204,84,48],[232,120,86],[250,160,130],[255,202,178]],
    // 0x4: pink/red
    [[42,0,18],[82,0,40],[122,12,64],[162,36,92],[202,70,126],[230,110,164],[248,154,202],[255,198,232]],
    // 0x5: purple
    [[32,0,54],[66,12,92],[100,34,132],[134,64,172],[166,98,208],[198,136,232],[224,174,248],[246,214,255]],
    // 0x6: blue-violet
    [[12,10,72],[32,34,116],[56,66,160],[88,102,198],[122,138,228],[160,176,246],[198,210,255],[230,236,255]],
    // 0x7: blue
    [[0,24,86],[0,54,132],[10,90,178],[38,126,214],[76,160,238],[118,194,252],[164,222,255],[210,244,255]],
    // 0x8: sky blue / cyan-blue
    [[0,42,82],[0,76,126],[0,112,170],[24,148,208],[62,184,236],[106,214,252],[154,238,255],[204,252,255]],
    // 0x9: cyan/teal
    [[0,54,64],[0,88,98],[0,124,132],[18,160,166],[54,194,198],[96,222,226],[144,242,244],[196,254,254]],
    // 0xA: blue-green
    [[0,58,38],[0,92,58],[6,128,82],[34,164,110],[72,198,142],[116,224,176],[164,244,210],[212,255,238]],
    // 0xB: green
    [[0,62,0],[0,92,8],[10,124,20],[38,156,42],[72,188,70],[112,216,106],[160,238,152],[210,252,202]],
    // 0xC: yellow-green (Enduro road/grass uses this range in many dumps)
    [[20,54,0],[38,84,0],[62,116,0],[92,150,12],[126,184,36],[166,216,72],[206,240,116],[238,254,168]],
    // 0xD: olive/yellow
    [[44,44,0],[76,74,0],[110,106,0],[146,140,10],[184,176,34],[218,210,70],[244,236,112],[255,252,164]],
    // 0xE: warm yellow/orange
    [[54,34,0],[90,60,0],[128,88,0],[168,118,12],[206,152,40],[236,186,76],[252,220,124],[255,244,176]],
    // 0xF: tan/brown
    [[46,28,10],[80,52,24],[116,78,42],[154,106,64],[190,138,92],[222,174,126],[246,210,166],[255,238,210]],
];

/// The TIA's registers and beam state (everything but the pixel buffers).
#[derive(Clone, Copy)]
pub struct TiaRegs {
    /// Physical scanline within the NTSC frame.
    pub scanline: usize,
    /// Visible line reached in the 160x192 picture.
    pub visible_y: usize,
    pub color_bg: u8,
    pub color_pf: u8,
    pub color_p0: u8,
    pub color_p1: u8,
    pub audc0: u8,
    pub audf0: u8,
    pub audv0: u8,
    pub audc1: u8,
    pub audf1: u8,
    pub audv1: u8,
    pub nusiz0: u8,
    pub nusiz1: u8,
    pub pf0: u8,
    pub pf1: u8,
    pub pf2: u8,
    pub ctrlpf: u8,
    pub grp0: u8,
    pub grp1: u8,
    pub enabl: u8,
    pub enam0: u8,
    pub enam1: u8,
    pub hpos_p0: usize,
    pub hpos_p1: usize,
    pub hpos_m0: usize,
    pub hpos_m1: usize,
    pub hpos_bl: usize,
    pub hmp0: u8,
    pub hmp1: u8,
    pub hmm0: u8,
    pub hmm1: u8,
    pub hmbl: u8,
    pub vsync: bool,
    pub vblank: bool,
    pub cycles_in_line: usize,
    pub frame_ready: bool,
    /// Collision latches; bits stay set until CXCLR.
    pub cxm0p: u8,
    pub cxm1p: u8,
    pub cxp0fb: u8,
    pub cxp1fb: u8,
    pub cxm0fb: u8,
    pub cxm1fb: u8,
    pub cxblpf: u8,
    pub cxppmm: u8,
    pub had_visible_lines: bool,
    pub visible_start_clock: usize,
    pub x_adjust: isize,
    pub y_crop: usize,
}

/// The TIA: registers, the picture being drawn (`back`) and the last
/// finished picture (`frame`), both RGBA 160x192.
#[derive(Clone)]
pub struct Tia {
    pub frame: Vec<u8>,
    /// The picture being drawn.
    pub back: Vec<u8>,
    pub regs: TiaRegs,
}

pub struct TiaView {
    pub regs: TiaRegs,
    pub back: Seq<u8>,
    pub frame: Seq<u8>,
}

impl View for Tia {
    type V = TiaView;

    open spec fn view(&self) -> TiaView {
        TiaView { regs: self.regs, back: self.back@, frame: self.frame@ }
    }
}

/// A well-formed TIA.
pub open spec fn tia_wf(t: TiaView) -> bool {
    &&& t.back.len() == FRAME_SIZE
    &&& t.frame.len() == FRAME_SIZE
    &&& t.regs.cycles_in_line < COLOR_CLOCKS_PER_LINE
    &&& t.regs.visible_start_clock <= COLOR_CLOCKS_PER_LINE - VISIBLE_WIDTH
    &&& t.regs.y_crop <= MAX_Y_CROP
    &&& t.regs.visible_y <= t.regs.scanline
    &&& t.regs.scanline < LINES_PER_FRAME
    &&& t.regs.hpos_p0 < VISIBLE_WIDTH
    &&& t.regs.hpos_p1 < VISIBLE_WIDTH
    &&& t.regs.hpos_m0 < VISIBLE_WIDTH
    &&& t.regs.hpos_m1 < VISIBLE_WIDTH
    &&& t.regs.hpos_bl < VISIBLE_WIDTH
}

/// The sound registers hold what a write can put there: control and volume
/// in four bits, frequency in five.
pub open spec fn sound_in_range(r: TiaRegs) -> bool {
    &&& r.audc0 < 16 && r.audc1 < 16
    &&& r.audv0 < 16 && r.audv1 < 16
    &&& r.audf0 < 32 && r.audf1 < 32
}

/// The sound registers as the mixer gets them, with no test beep.
pub open spec fn sound_regs(r: TiaRegs) -> TiaAudioState {
    TiaAudioState {
        audc0: r.audc0,
        audf0: r.audf0,
        audv0: r.audv0,
        audc1: r.audc1,
        audf1: r.audf1,
        audv1: r.audv1,
        test_beep: false,
    }
}

// ---------------------------------------------------------------------------
// Pixels.
// ---------------------------------------------------------------------------

/// Bit `k` (0 = least significant) of `v`.
pub open spec fn bit_of(v: u8, k: u8) -> bool {
    (v >> k) & 1u8 == 1u8
}

/// An RGBA picture with every pixel opaque black.
pub open spec fn cleared_frame() -> Seq<u8> {
    Seq::new(FRAME_SIZE as nat, |i: int| if i % 4 == 3 { 0xffu8 } else { 0u8 })
}

/// The palette entry of a colour register value: hue from the high nibble,
/// luminance from bits 1..3 (bit 0 is ignored).
pub open spec fn color_rgb(color: u8) -> [u8; 3] {
    TIA_NTSC[color as int / 16][(color as int / 2) % 8]
}

/// The picture with pixel (x, y) set to `color`, fully opaque.
pub open spec fn put_px_s(back: Seq<u8>, x: int, y: int, color: u8) -> Seq<u8> {
    let i = (y * 160 + x) * 4;
    let rgb = color_rgb(color);
    back.update(i, rgb[0]).update(i + 1, rgb[1]).update(i + 2, rgb[2]).update(i + 3, 0xffu8)
}

/// Whether the playfield covers pixel `x`. The left half shows PF0 bits 4..7,
/// PF1 bits 7..0 and PF2 bits 0..7, four pixels per bit; the right half
/// repeats it, or mirrors it when CTRLPF bit 0 is set.
pub open spec fn playfield_bit_s(r: TiaRegs, x: int) -> bool {
    let half = if x < 80 {
        x / 4
    } else if r.ctrlpf & 0x01 != 0 {
        (159 - x) / 4
    } else {
        (x - 80) / 4
    };
    if 0 <= half <= 3 {
        bit_of(r.pf0, (4 + half) as u8)
    } else if 4 <= half <= 11 {
        bit_of(r.pf1, (11 - half) as u8)
    } else if 12 <= half <= 19 {
        bit_of(r.pf2, (half - 12) as u8)
    } else {
        false
    }
}

/// The horizontal offsets of the copies of a player or missile that NUSIZ
/// bits 0..2 ask for (modes 5 and 7 are one copy of double or quad size).
pub open spec fn copy_offsets(nusiz: u8) -> Seq<usize> {
    let mode = nusiz % 8;
    if mode == 1 {
        seq![0usize, 16]
    } else if mode == 2 {
        seq![0usize, 32]
    } else if mode == 3 {
        seq![0usize, 16, 32]
    } else if mode == 4 {
        seq![0usize, 64]
    } else if mode == 6 {
        seq![0usize, 32, 64]
    } else {
        seq![0usize]
    }
}

/// The width of each player pixel: 2 in mode 5, 4 in mode 7, else 1.
pub open spec fn player_scale_s(nusiz: u8) -> usize {
    let mode = nusiz % 8;
    if mode == 5 {
        2
    } else if mode == 7 {
        4
    } else {
        1
    }
}

/// 1, 2, 4 or 8 pixels by bits 4..5 of a NUSIZ or CTRLPF value.
pub open spec fn size_from_bits45(v: u8) -> usize {
    let s = (v / 16) % 4;
    if s == 0 {
        1
    } else if s == 1 {
        2
    } else if s == 2 {
        4
    } else {
        8
    }
}

/// Whether the copy of graphics `g` starting at `start`, `scale` pixels per
/// bit, covers pixel `x` (bit 7 is the leftmost).
pub open spec fn copy_hit(g: u8, scale: int, x: int, start: int) -> bool {
    0 <= x - start < 8 * scale && bit_of(g, (7 - (x - start) / scale) as u8)
}

/// Whether any copy of a player covers pixel `x`.
pub open spec fn player_bit_s(g: u8, nusiz: u8, x: int, base: int) -> bool {
    let o = copy_offsets(nusiz);
    let s = player_scale_s(nusiz) as int;
    exists|k: int| 0 <= k < o.len() && #[trigger] copy_hit(g, s, x, base + o[k])
}

/// Whether any copy of a missile covers pixel `x`.
pub open spec fn missile_bit_s(nusiz: u8, x: int, base: int) -> bool {
    let o = copy_offsets(nusiz);
    let w = size_from_bits45(nusiz) as int;
    exists|k: int| 0 <= k < o.len() && #[trigger] (base + o[k]) <= x < base + o[k] + w
}

/// Which objects cover pixel `x` on the current line.
#[derive(Clone, Copy)]
pub struct Objects {
    pub pf: bool,
    pub p0: bool,
    pub p1: bool,
    pub m0: bool,
    pub m1: bool,
    pub bl: bool,
}

pub open spec fn objects_at(r: TiaRegs, x: int) -> Objects {
    Objects {
        pf: playfield_bit_s(r, x),
        p0: player_bit_s(r.grp0, r.nusiz0, x, r.hpos_p0 as int),
        p1: player_bit_s(r.grp1, r.nusiz1, x, r.hpos_p1 as int),
        m0: r.enam0 & 0x02 != 0 && missile_bit_s(r.nusiz0, x, r.hpos_m0 as int),
        m1: r.enam1 & 0x02 != 0 && missile_bit_s(r.nusiz1, x, r.hpos_m1 as int),
        bl: r.enabl & 0x02 != 0 && r.hpos_bl <= x < r.hpos_bl + size_from_bits45(r.ctrlpf),
    }
}

pub open spec fn latch(v: u8, hit: bool, bit: u8) -> u8 {
    v | (if hit { bit } else { 0u8 })
}

/// The collision latches after drawing a pixel covered by `o`.
pub open spec fn latch_collisions_s(r: TiaRegs, o: Objects) -> TiaRegs {
    TiaRegs {
        cxm0p: latch(latch(r.cxm0p, o.m0 && o.p1, 0x80), o.m0 && o.p0, 0x40),
        cxm1p: latch(latch(r.cxm1p, o.m1 && o.p0, 0x80), o.m1 && o.p1, 0x40),
        cxp0fb: latch(latch(r.cxp0fb, o.p0 && o.pf, 0x80), o.p0 && o.bl, 0x40),
        cxp1fb: latch(latch(r.cxp1fb, o.p1 && o.pf, 0x80), o.p1 && o.bl, 0x40),
        cxm0fb: latch(latch(r.cxm0fb, o.m0 && o.pf, 0x80), o.m0 && o.bl, 0x40),
        cxm1fb: latch(latch(r.cxm1fb, o.m1 && o.pf, 0x80), o.m1 && o.bl, 0x40),
        cxblpf: latch(r.cxblpf, o.bl && o.pf, 0x80),
        cxppmm: latch(latch(r.cxppmm, o.p0 && o.p1, 0x80), o.m0 && o.m1, 0x40),
        ..r
    }
}

/// The colour of a pixel: background; playfield/ball in the playfield
/// colour (in score mode, the left half in P0's and the right in P1's
/// colour); players and missiles above them, P1 over P0, unless CTRLPF bit 2
/// gives the playfield priority.
pub open spec fn pixel_color_s(r: TiaRegs, x: int, o: Objects) -> u8 {
    let score_mode = r.ctrlpf & 0x02 != 0;
    let priority_pf = r.ctrlpf & 0x04 != 0;
    let c0 = if o.pf || o.bl {
        if score_mode && x < 80 {
            r.color_p0
        } else if score_mode {
            r.color_p1
        } else {
            r.color_pf
        }
    } else {
        r.color_bg
    };
    if !priority_pf || !(o.pf || o.bl) {
        if o.p1 || o.m1 {
            r.color_p1
        } else if o.p0 || o.m0 {
            r.color_p0
        } else {
            c0
        }
    } else {
        c0
    }
}

/// Draw pixel (x, y) of the picture being built and latch its collisions.
pub open spec fn render_s(t: TiaView, x: int, y: int) -> TiaView {
    let o = objects_at(t.regs, x);
    TiaView {
        regs: latch_collisions_s(t.regs, o),
        back: put_px_s(t.back, x, y, pixel_color_s(t.regs, x, o)),
        ..t
    }
}

// ---------------------------------------------------------------------------
// Beam timing.
// ---------------------------------------------------------------------------

/// Whether the beam's current colour clock draws a pixel of the picture.
pub open spec fn draws_pixel(r: TiaRegs) -> bool {
    &&& !r.vsync
    &&& !r.vblank
    &&& r.visible_start_clock <= r.cycles_in_line < r.visible_start_clock + VISIBLE_WIDTH
    &&& r.y_crop <= r.visible_y
    &&& r.visible_y - r.y_crop < VISIBLE_HEIGHT
}

/// Copy the picture being built to the finished frame and flag it.
pub open spec fn publish_s(t: TiaView) -> TiaView {
    TiaView { frame: t.back, regs: TiaRegs { frame_ready: true, ..t.regs }, ..t }
}

/// Start a new picture: the finished one (if anything was drawn) is
/// published, the picture being built is cleared, the beam goes to line 0.
pub open spec fn new_frame_s(t: TiaView) -> TiaView {
    let t1 = if t.regs.had_visible_lines { publish_s(t) } else { t };
    TiaView {
        back: cleared_frame(),
        regs: TiaRegs { scanline: 0, visible_y: 0, had_visible_lines: false, ..t1.regs },
        ..t1
    }
}

/// The end of a scanline: back to clock 0, down one line; after 262 lines a
/// new frame starts even without VSYNC.
pub open spec fn end_scanline_s(t: TiaView) -> TiaView {
    let r = t.regs;
    let r1 = TiaRegs {
        cycles_in_line: 0,
        visible_y: if !r.vsync && !r.vblank { (r.visible_y + 1) as usize } else { r.visible_y },
        scanline: (r.scanline + 1) as usize,
        ..r
    };
    let t1 = TiaView { regs: r1, ..t };
    if r1.scanline >= LINES_PER_FRAME { new_frame_s(t1) } else { t1 }
}

/// One colour clock: draw the pixel under the beam (if visible), advance.
pub open spec fn clock_s(t: TiaView) -> TiaView {
    let r = t.regs;
    let t1 = if draws_pixel(r) {
        let t2 = render_s(t, r.cycles_in_line - r.visible_start_clock, r.visible_y - r.y_crop);
        TiaView { regs: TiaRegs { had_visible_lines: true, ..t2.regs }, ..t2 }
    } else {
        t
    };
    let t3 = TiaView {
        regs: TiaRegs { cycles_in_line: (t1.regs.cycles_in_line + 1) as usize, ..t1.regs },
        ..t1
    };
    if t3.regs.cycles_in_line >= COLOR_CLOCKS_PER_LINE { end_scanline_s(t3) } else { t3 }
}

/// `n` colour clocks.
pub open spec fn clocks_s(t: TiaView, n: nat) -> TiaView
    decreases n,
{
    if n == 0 { t } else { clock_s(clocks_s(t, (n - 1) as nat)) }
}

/// `cpu_cycles` processor cycles: three colour clocks each; the ready flag
/// reports whether a frame was finished during them.
pub open spec fn tick_s(t: TiaView, cpu_cycles: u32) -> TiaView {
    clocks_s(TiaView { regs: TiaRegs { frame_ready: false, ..t.regs }, ..t }, 3 * cpu_cycles as nat)
}

/// WSYNC: run to the end of the current scanline.
pub open spec fn wsync_s(t: TiaView) -> TiaView {
    if t.regs.cycles_in_line == 0 {
        t
    } else {
        clocks_s(t, (COLOR_CLOCKS_PER_LINE - t.regs.cycles_in_line) as nat)
    }
}

// ---------------------------------------------------------------------------
// Register access.
// ---------------------------------------------------------------------------

/// The visible pixel under the beam, for RESPx/RESMx/RESBL: colour clocks
/// before the visible area count as 0, the horizontal adjustment is added,
/// and the result is folded into 0..160.
pub open spec fn current_x_s(r: TiaRegs) -> usize {
    let s = if r.cycles_in_line > r.visible_start_clock {
        r.cycles_in_line - r.visible_start_clock
    } else {
        0
    };
    let raw = vstd::wrapping::isize_specs::wrapping_add(s as isize, r.x_adjust);
    (raw as int % 160) as usize
}

/// The motion encoded in the high nibble of an HMxx register, two's
/// complement; positive values move left.
pub open spec fn hmove_delta(val: u8) -> int {
    let n = val as int / 16;
    if n >= 8 { n - 16 } else { n }
}

/// A horizontal position after HMOVE, wrapped into 0..160.
pub open spec fn move_h_s(pos: usize, val: u8) -> usize {
    ((pos - hmove_delta(val)) % 160) as usize
}

pub open spec fn apply_hmove_s(r: TiaRegs) -> TiaRegs {
    TiaRegs {
        hpos_p0: move_h_s(r.hpos_p0, r.hmp0),
        hpos_p1: move_h_s(r.hpos_p1, r.hmp1),
        hpos_m0: move_h_s(r.hpos_m0, r.hmm0),
        hpos_m1: move_h_s(r.hpos_m1, r.hmm1),
        hpos_bl: move_h_s(r.hpos_bl, r.hmbl),
        ..r
    }
}

pub open spec fn clear_collisions_s(r: TiaRegs) -> TiaRegs {
    TiaRegs {
        cxm0p: 0,
        cxm1p: 0,
        cxp0fb: 0,
        cxp1fb: 0,
        cxm0fb: 0,
        cxm1fb: 0,
        cxblpf: 0,
        cxppmm: 0,
        ..r
    }
}

/// A write of VSYNC: bit 1 starts (or holds) vertical sync; the start of a
/// sync publishes the picture drawn so far (if any) and begins a new one.
pub open spec fn vsync_write_s(t: TiaView, val: u8) -> TiaView {
    let on = val & 0x02 != 0;
    let t1 = if on && !t.regs.vsync {
        let t2 = new_frame_s(t);
        TiaView { regs: TiaRegs { cycles_in_line: 0, ..t2.regs }, ..t2 }
    } else {
        t
    };
    TiaView { regs: TiaRegs { vsync: on, ..t1.regs }, ..t1 }
}

/// A write of VBLANK: bit 1 blanks the beam; leaving the blank restarts the
/// visible lines.
pub open spec fn vblank_write_s(r: TiaRegs, val: u8) -> TiaRegs {
    let on = val & 0x02 != 0;
    TiaRegs {
        vblank: on,
        visible_y: if r.vblank && !on { 0 } else { r.visible_y },
        ..r
    }
}

/// A register write (the low six address bits select the register).
pub open spec fn write_s(t: TiaView, addr: u16, val: u8) -> TiaView {
    let r = t.regs;
    let reg = addr & 0x3f;
    let with_regs = |r2: TiaRegs| TiaView { regs: r2, ..t };
    if reg == 0x00 {
        vsync_write_s(t, val)
    } else if reg == 0x01 {
        with_regs(vblank_write_s(r, val))
    } else if reg == 0x02 {
        wsync_s(t)
    } else if reg == 0x03 {
        with_regs(TiaRegs { cycles_in_line: 0, ..r })
    } else if reg == 0x04 {
        with_regs(TiaRegs { nusiz0: val, ..r })
    } else if reg == 0x05 {
        with_regs(TiaRegs { nusiz1: val, ..r })
    } else if reg == 0x06 {
        with_regs(TiaRegs { color_p0: val, ..r })
    } else if reg == 0x07 {
        with_regs(TiaRegs { color_p1: val, ..r })
    } else if reg == 0x08 {
        with_regs(TiaRegs { color_pf: val, ..r })
    } else if reg == 0x09 {
        with_regs(TiaRegs { color_bg: val, ..r })
    } else if reg == 0x0a {
        with_regs(TiaRegs { ctrlpf: val, ..r })
    } else if reg == 0x0d {
        with_regs(TiaRegs { pf0: val, ..r })
    } else if reg == 0x0e {
        with_regs(TiaRegs { pf1: val, ..r })
    } else if reg == 0x0f {
        with_regs(TiaRegs { pf2: val, ..r })
    } else if reg == 0x10 {
        with_regs(TiaRegs { hpos_p0: current_x_s(r), ..r })
    } else if reg == 0x11 {
        with_regs(TiaRegs { hpos_p1: current_x_s(r), ..r })
    } else if reg == 0x12 {
        with_regs(TiaRegs { hpos_m0: current_x_s(r), ..r })
    } else if reg == 0x13 {
        with_regs(TiaRegs { hpos_m1: current_x_s(r), ..r })
    } else if reg == 0x14 {
        with_regs(TiaRegs { hpos_bl: current_x_s(r), ..r })
    } else if reg == 0x15 {
        with_regs(TiaRegs { audc0: val % 16, ..r })
    } else if reg == 0x16 {
        with_regs(TiaRegs { audc1: val % 16, ..r })
    } else if reg == 0x17 {
        with_regs(TiaRegs { audf0: val % 32, ..r })
    } else if reg == 0x18 {
        with_regs(TiaRegs { audf1: val % 32, ..r })
    } else if reg == 0x19 {
        with_regs(TiaRegs { audv0: val % 16, ..r })
    } else if reg == 0x1a {
        with_regs(TiaRegs { audv1: val % 16, ..r })
    } else if reg == 0x1b {
        with_regs(TiaRegs { grp0: val, ..r })
    } else if reg == 0x1c {
        with_regs(TiaRegs { grp1: val, ..r })
    } else if reg == 0x1d {
        with_regs(TiaRegs { enam0: val, ..r })
    } else if reg == 0x1e {
        with_regs(TiaRegs { enam1: val, ..r })
    } else if reg == 0x1f {
        with_regs(TiaRegs { enabl: val, ..r })
    } else if reg == 0x20 {
        with_regs(TiaRegs { hmp0: val, ..r })
    } else if reg == 0x21 {
        with_regs(TiaRegs { hmp1: val, ..r })
    } else if reg == 0x22 {
        with_regs(TiaRegs { hmm0: val, ..r })
    } else if reg == 0x23 {
        with_regs(TiaRegs { hmm1: val, ..r })
    } else if reg == 0x24 {
        with_regs(TiaRegs { hmbl: val, ..r })
    } else if reg == 0x2a {
        with_regs(apply_hmove_s(r))
    } else if reg == 0x2b {
        with_regs(TiaRegs { hmp0: 0, hmp1: 0, hmm0: 0, hmm1: 0, hmbl: 0, ..r })
    } else if reg == 0x2c {
        with_regs(clear_collisions_s(r))
    } else {
        t
    }
}

/// A register read (the low four address bits select it): the collision
/// latches, then the input ports, which read 0x80 (paddles and fire buttons
/// at rest; the bus answers INPT4 itself).
pub open spec fn read_s(r: TiaRegs, addr: u16) -> u8 {
    let reg = addr % 16;
    if reg == 0 {
        r.cxm0p
    } else if reg == 1 {
        r.cxm1p
    } else if reg == 2 {
        r.cxp0fb
    } else if reg == 3 {
        r.cxp1fb
    } else if reg == 4 {
        r.cxm0fb
    } else if reg == 5 {
        r.cxm1fb
    } else if reg == 6 {
        r.cxblpf
    } else if reg == 7 {
        r.cxppmm
    } else if reg <= 0x0d {
        0x80
    } else {
        0x00
    }
}

/// The registers at power-on.
pub open spec fn power_on_regs() -> TiaRegs {
    TiaRegs {
        scanline: 0,
        visible_y: 0,
        color_bg: 0,
        color_pf: 0x0f,
        color_p0: 0x3f,
        color_p1: 0x8f,
        audc0: 0,
        audf0: 0,
        audv0: 0,
        audc1: 0,
        audf1: 0,
        audv1: 0,
        nusiz0: 0,
        nusiz1: 0,
        pf0: 0,
        pf1: 0,
        pf2: 0,
        ctrlpf: 0,
        grp0: 0,
        grp1: 0,
        enabl: 0,
        enam0: 0,
        enam1: 0,
        hpos_p0: 30,
        hpos_p1: 100,
        hpos_m0: 40,
        hpos_m1: 110,
        hpos_bl: 80,
        hmp0: 0,
        hmp1: 0,
        hmm0: 0,
        hmm1: 0,
        hmbl: 0,
        vsync: false,
        vblank: true,
        cycles_in_line: 0,
        frame_ready: false,
        cxm0p: 0,
        cxm1p: 0,
        cxp0fb: 0,
        cxp1fb: 0,
        cxm0fb: 0,
        cxm1fb: 0,
        cxblpf: 0,
        cxppmm: 0,
        had_visible_lines: false,
        visible_start_clock: DEFAULT_VISIBLE_START_CLOCK,
        x_adjust: -4isize,
        y_crop: 0,
    }
}

// ---------------------------------------------------------------------------
// Pixel helpers.
// ---------------------------------------------------------------------------

/// Copies of an object wrapped in usize arithmetic: a pixel left of the copy
/// gives a huge relative offset, which no copy covers.
proof fn lemma_copy_hit_rel(g: u8, x: usize, start: usize, scale: usize)
    requires
        scale == 1 || scale == 2 || scale == 4,
        x < 160,
        start < 400,
    ensures
        ({
            let rel = vstd::wrapping::usize_specs::wrapping_sub(x, start);
            (rel / scale < 8 && bit_of(g, (7 - rel / scale) as u8)) == copy_hit(
                g,
                scale as int,
                x as int,
                start as int,
            )
        }),
{
    let rel = vstd::wrapping::usize_specs::wrapping_sub(x, start);
    if x >= start {
        assert(rel == x - start);
        assert((rel / scale < 8) == (rel < 8 * scale)) by (nonlinear_arith)
            requires
                scale == 1 || scale == 2 || scale == 4,
        ;
    } else {
        assert(rel >= 0x1_0000_0000 - 400) by {
            assert(usize::MAX >= 0xffff_ffff);
        }
        assert(rel / scale >= 8) by (nonlinear_arith)
            requires
                scale == 1 || scale == 2 || scale == 4,
                rel >= 0x1_0000_0000 - 400,
        ;
    }
}

fn sprite_bit_scaled(g: u8, rel: usize, scale: usize) -> (b: bool)
    requires
        scale == 1 || scale == 2 || scale == 4,
    ensures
        b == (rel / scale < 8 && bit_of(g, (7 - rel / scale) as u8)),
{
    let bit = rel / scale;
    bit < 8 && (g >> ((7 - bit) as u8)) & 1 == 1
}

fn copy_offsets_table(nusiz: u8) -> (r: ([usize; 3], usize))
    ensures
        r.1 == copy_offsets(nusiz).len(),
        forall|i: int| 0 <= i < r.1 ==> r.0@[i] == #[trigger] copy_offsets(nusiz)[i],
        forall|i: int| 0 <= i < r.1 ==> r.0@[i] <= 64,
{
    match nusiz % 8 {
        1 => ([0, 16, 0], 2),
        2 => ([0, 32, 0], 2),
        3 => ([0, 16, 32], 3),
        4 => ([0, 64, 0], 2),
        6 => ([0, 32, 64], 3),
        _ => ([0, 0, 0], 1),
    }
}

/// The offsets of a player's copies by NUSIZ bits 0..2: one, two or three
/// copies; modes 5 and 7 are a single double- or quad-size copy.
fn player_offsets(nusiz: u8) -> (r: ([usize; 3], usize))
    ensures
        r.1 == copy_offsets(nusiz).len(),
        forall|i: int| 0 <= i < r.1 ==> r.0@[i] == #[trigger] copy_offsets(nusiz)[i],
        forall|i: int| 0 <= i < r.1 ==> r.0@[i] <= 64,
{
    copy_offsets_table(nusiz)
}

/// Missiles have as many copies as their player; modes 5 and 7 give one.
fn missile_offsets(nusiz: u8) -> (r: ([usize; 3], usize))
    ensures
        r.1 == copy_offsets(nusiz).len(),
        forall|i: int| 0 <= i < r.1 ==> r.0@[i] == #[trigger] copy_offsets(nusiz)[i],
        forall|i: int| 0 <= i < r.1 ==> r.0@[i] <= 64,
{
    copy_offsets_table(nusiz)
}

fn player_scale(nusiz: u8) -> (r: usize)
    ensures
        r == player_scale_s(nusiz),
        r == 1 || r == 2 || r == 4,
{
    match nusiz % 8 {
        5 => 2,
        7 => 4,
        _ => 1,
    }
}

fn size_bits45(v: u8) -> (r: usize)
    ensures
        r == size_from_bits45(v),
        1 <= r <= 8,
{
    match (v / 16) % 4 {
        0 => 1,
        1 => 2,
        2 => 4,
        _ => 8,
    }
}

/// Missile width: 1, 2, 4 or 8 pixels by NUSIZ bits 4..5.
fn missile_width(nusiz: u8) -> (r: usize)
    ensures
        r == size_from_bits45(nusiz),
        1 <= r <= 8,
{
    size_bits45(nusiz)
}

/// Ball width: 1, 2, 4 or 8 pixels by CTRLPF bits 4..5.
fn ball_width(ctrlpf: u8) -> (r: usize)
    ensures
        r == size_from_bits45(ctrlpf),
        1 <= r <= 8,
{
    size_bits45(ctrlpf)
}

fn sprite_copies_bit(g: u8, nusiz: u8, x: usize, base: usize) -> (b: bool)
    requires
        x < 160,
        base < 160,
    ensures
        b == player_bit_s(g, nusiz, x as int, base as int),
{
    let scale = player_scale(nusiz);
    let (offs, n) = player_offsets(nusiz);
    let ghost o = copy_offsets(nusiz);
    let mut k: usize = 0;
    while k < n
        invariant
            k <= n,
            n == o.len(),
            o == copy_offsets(nusiz),
            scale == player_scale_s(nusiz),
            scale == 1 || scale == 2 || scale == 4,
            x < 160,
            base < 160,
            forall|i: int| 0 <= i < n ==> offs@[i] == #[trigger] o[i],
            forall|i: int| 0 <= i < n ==> offs@[i] <= 64,
            forall|j: int| 0 <= j < k ==> !#[trigger] copy_hit(g, scale as int, x as int, base + o[j]),
        decreases n - k,
    {
        let start = base + offs[k];
        proof {
            lemma_copy_hit_rel(g, x, start, scale);
        }
        if sprite_bit_scaled(g, x.wrapping_sub(start), scale) {
            assert(copy_hit(g, scale as int, x as int, base + o[k as int]));
            return true;
        }
        k = k + 1;
    }
    false
}

fn missile_bit(nusiz: u8, x: usize, base: usize) -> (b: bool)
    requires
        x < 160,
        base < 160,
    ensures
        b == missile_bit_s(nusiz, x as int, base as int),
{
    let w = missile_width(nusiz);
    let (offs, n) = missile_offsets(nusiz);
    let ghost o = copy_offsets(nusiz);
    let mut k: usize = 0;
    while k < n
        invariant
            k <= n,
            n == o.len(),
            o == copy_offsets(nusiz),
            w == size_from_bits45(nusiz),
            1 <= w <= 8,
            x < 160,
            base < 160,
            forall|i: int| 0 <= i < n ==> offs@[i] == #[trigger] o[i],
            forall|i: int| 0 <= i < n ==> offs@[i] <= 64,
            forall|j: int| 0 <= j < k ==> !(#[trigger] (base + o[j]) <= x < base + o[j] + w),
        decreases n - k,
    {
        let start = base.wrapping_add(offs[k]);
        if x >= start && x < start.saturating_add(w) {
            assert((base + o[k as int]) <= x < base + o[k as int] + w);
            return true;
        }
        k = k + 1;
    }
    false
}

/// A position moved by an HMxx value, wrapped into 0..160.
fn move_h(pos: usize, val: u8) -> (r: usize)
    requires
        pos < 160,
    ensures
        r == move_h_s(pos, val),
        r < 160,
{
    let nibble = (val / 16) as i16;
    let signed: i16 = if nibble >= 8 { nibble - 16 } else { nibble };
    let d: i16 = pos as i16 - signed;
    if d < 0 {
        (d + 160) as usize
    } else if d >= 160 {
        (d - 160) as usize
    } else {
        d as usize
    }
}

/// The RGB colour of a colour-register value.
fn tia_color_rgb(color: u8) -> (r: [u8; 3])
    ensures
        r == color_rgb(color),
{
    let hue = (color / 16) as usize;
    let lum = ((color / 2) % 8) as usize;
    TIA_NTSC[hue][lum]
}

/// Composing colour clocks: `a` clocks then `b` clocks is `a + b` clocks.
pub proof fn lemma_clocks_compose(t: TiaView, a: nat, b: nat)
    ensures
        clocks_s(clocks_s(t, a), b) == clocks_s(t, a + b),
    decreases b,
{
    if b > 0 {
        lemma_clocks_compose(t, a, (b - 1) as nat);
    }
}

/// The colour clock counter after one clock: up by one, back to 0 at the end
/// of the line.
pub proof fn lemma_clock_counter(t: TiaView)
    requires
        t.regs.cycles_in_line < COLOR_CLOCKS_PER_LINE,
    ensures
        clock_s(t).regs.cycles_in_line == (if t.regs.cycles_in_line + 1 >= COLOR_CLOCKS_PER_LINE {
            0
        } else {
            t.regs.cycles_in_line + 1
        }),
{
}

proof fn lemma_pixel_index(x: int, y: int)
    requires
        0 <= x < 160,
        0 <= y < 192,
    ensures
        0 <= (y * 160 + x) * 4,
        (y * 160 + x) * 4 + 3 < FRAME_SIZE,
{
    assert(0 <= (y * 160 + x) * 4 && (y * 160 + x) * 4 + 3 < 122880) by (nonlinear_arith)
        requires
            0 <= x < 160,
            0 <= y < 192,
    ;
}

impl Tia {
    /// The TIA at power-on: blank pictures, VBLANK on, default calibration.
    pub open spec fn new_spec() -> TiaView {
        TiaView { regs: power_on_regs(), back: cleared_frame(), frame: cleared_frame() }
    }

    pub fn new() -> (t: Self)
        ensures
            tia_wf(t@),
            sound_in_range(t@.regs),
            t@ == Self::new_spec(),
    {
        let mut tia = Self {
            frame: vec![0; FRAME_SIZE],
            back: vec![0; FRAME_SIZE],
            regs: TiaRegs {
                scanline: 0,
                visible_y: 0,
                color_bg: 0,
                color_pf: 0x0f,
                color_p0: 0x3f,
                color_p1: 0x8f,
                audc0: 0,
                audf0: 0,
                audv0: 0,
                audc1: 0,
                audf1: 0,
                audv1: 0,
                nusiz0: 0,
                nusiz1: 0,
                pf0: 0,
                pf1: 0,
                pf2: 0,
                ctrlpf: 0,
                grp0: 0,
                grp1: 0,
                enabl: 0,
                enam0: 0,
                enam1: 0,
                hpos_p0: 30,
                hpos_p1: 100,
                hpos_m0: 40,
                hpos_m1: 110,
                hpos_bl: 80,
                hmp0: 0,
                hmp1: 0,
                hmm0: 0,
                hmm1: 0,
                hmbl: 0,
                vsync: false,
                vblank: true,
                cycles_in_line: 0,
                frame_ready: false,
                cxm0p: 0,
                cxm1p: 0,
                cxp0fb: 0,
                cxp1fb: 0,
                cxm0fb: 0,
                cxm1fb: 0,
                cxblpf: 0,
                cxppmm: 0,
                had_visible_lines: false,
                visible_start_clock: DEFAULT_VISIBLE_START_CLOCK,
                x_adjust: -4,
                y_crop: 0,
            },
        };
        tia.clear_back();
        tia.copy_back_to_frame();
        tia
    }

    /// Set where the visible picture starts (at most colour clock 68), the
    /// horizontal adjustment of object positions and how many top lines to
    /// crop (at most 40).
    pub fn set_video_calibration(&mut self, visible_start_clock: usize, x_adjust: isize, y_crop: usize)
        requires
            tia_wf(old(self)@),
        ensures
            tia_wf(final(self)@),
            final(self)@ == (TiaView {
                regs: TiaRegs {
                    visible_start_clock: if visible_start_clock < COLOR_CLOCKS_PER_LINE - VISIBLE_WIDTH {
                        visible_start_clock
                    } else {
                        (COLOR_CLOCKS_PER_LINE - VISIBLE_WIDTH) as usize
                    },
                    x_adjust: x_adjust,
                    y_crop: if y_crop < MAX_Y_CROP { y_crop } else { MAX_Y_CROP },
                    ..old(self)@.regs
                },
                ..old(self)@
            }),
    {
        let max_start = COLOR_CLOCKS_PER_LINE - VISIBLE_WIDTH;
        self.regs.visible_start_clock = if visible_start_clock < max_start {
            visible_start_clock
        } else {
            max_start
        };
        self.regs.x_adjust = x_adjust;
        self.regs.y_crop = if y_crop < MAX_Y_CROP { y_crop } else { MAX_Y_CROP };
    }

    /// Whether a frame was finished since the last call; clears the flag.
    pub fn take_frame_ready(&mut self) -> (ready: bool)
        ensures
            ready == old(self)@.regs.frame_ready,
            final(self)@ == (TiaView {
                regs: TiaRegs { frame_ready: false, ..old(self)@.regs },
                ..old(self)@
            }),
    {
        let ready = self.regs.frame_ready;
        self.regs.frame_ready = false;
        ready
    }

    /// The sound registers, for the mixer (no test beep); control and volume
    /// fit in four bits and frequency in five while the registers are in
    /// range, as writes keep them.
    pub fn audio_state(&self) -> (s: TiaAudioState)
        ensures
            s == sound_regs(self@.regs),
            sound_in_range(self@.regs) ==> s.audc0 < 16 && s.audc1 < 16 && s.audv0 < 16
                && s.audv1 < 16 && s.audf0 < 32 && s.audf1 < 32,
    {
        TiaAudioState {
            audc0: self.regs.audc0,
            audf0: self.regs.audf0,
            audv0: self.regs.audv0,
            audc1: self.regs.audc1,
            audf1: self.regs.audf1,
            audv1: self.regs.audv1,
            test_beep: false,
        }
    }

    /// Read a TIA register.
    pub fn read(&self, addr: u16) -> (v: u8)
        ensures
            v == read_s(self@.regs, addr),
    {
        match addr % 16 {
            0x00 => self.regs.cxm0p,
            0x01 => self.regs.cxm1p,
            0x02 => self.regs.cxp0fb,
            0x03 => self.regs.cxp1fb,
            0x04 => self.regs.cxm0fb,
            0x05 => self.regs.cxm1fb,
            0x06 => self.regs.cxblpf,
            0x07 => self.regs.cxppmm,
            0x08..=0x0d => 0x80,
            _ => 0x00,
        }
    }

    /// Advance by `cpu_cycles` processor cycles, three colour clocks each,
    /// drawing each pixel as the beam passes it; returns whether a frame was
    /// finished meanwhile.
    pub fn tick(&mut self, cpu_cycles: u32) -> (ready: bool)
        requires
            tia_wf(old(self)@),
        ensures
            tia_wf(final(self)@),
            final(self)@ == tick_s(old(self)@, cpu_cycles),
            ready == final(self)@.regs.frame_ready,
    {
        self.regs.frame_ready = false;
        let ghost t0 = self@;
        let mut k: u32 = 0;
        while k < cpu_cycles
            invariant
                k <= cpu_cycles,
                tia_wf(self@),
                self@ == clocks_s(t0, 3 * k as nat),
            decreases cpu_cycles - k,
        {
            self.tick_cpu_cycle();
            proof {
                lemma_clocks_compose(t0, 3 * k as nat, 3);
            }
            k = k + 1;
        }
        self.regs.frame_ready
    }

    /// One processor cycle: three colour clocks.
    pub fn tick_cpu_cycle(&mut self)
        requires
            tia_wf(old(self)@),
        ensures
            tia_wf(final(self)@),
            final(self)@ == clocks_s(old(self)@, 3),
    {
        self.tick_color_clock();
        self.tick_color_clock();
        self.tick_color_clock();
        proof {
            reveal_with_fuel(clocks_s, 4);
        }
    }

    fn tick_color_clock(&mut self)
        requires
            tia_wf(old(self)@),
        ensures
            tia_wf(final(self)@),
            final(self)@ == clock_s(old(self)@),
    {
        let clock = self.regs.cycles_in_line;
        if !self.regs.vsync && !self.regs.vblank && clock >= self.regs.visible_start_clock && clock
            < self.regs.visible_start_clock + VISIBLE_WIDTH {
            let x = clock - self.regs.visible_start_clock;
            if self.regs.visible_y >= self.regs.y_crop {
                let y = self.regs.visible_y - self.regs.y_crop;
                if y < VISIBLE_HEIGHT {
                    self.render_pixel(x, y);
                    self.regs.had_visible_lines = true;
                }
            }
        }
        self.regs.cycles_in_line = self.regs.cycles_in_line + 1;
        if self.regs.cycles_in_line >= COLOR_CLOCKS_PER_LINE {
            self.end_scanline();
        }
    }

    /// WSYNC halts the processor until the end of the scanline; the colour
    /// clocks left on the line are run here, so the line keeps what was drawn.
    fn force_next_scanline(&mut self)
        requires
            tia_wf(old(self)@),
        ensures
            tia_wf(final(self)@),
            final(self)@ == wsync_s(old(self)@),
    {
        let ghost t0 = self@;
        let ghost c0 = self.regs.cycles_in_line as int;
        let ghost mut k: nat = 0;
        while self.regs.cycles_in_line != 0
            invariant
                tia_wf(self@),
                self@ == clocks_s(t0, k),
                c0 == t0.regs.cycles_in_line,
                c0 != 0 ==> k + c0 <= COLOR_CLOCKS_PER_LINE,
                c0 != 0 && self.regs.cycles_in_line != 0 ==> self.regs.cycles_in_line == c0 + k,
                c0 != 0 && self.regs.cycles_in_line == 0 ==> k + c0 == COLOR_CLOCKS_PER_LINE,
                c0 == 0 ==> k == 0,
                k <= COLOR_CLOCKS_PER_LINE,
            decreases COLOR_CLOCKS_PER_LINE - k,
        {
            proof {
                lemma_clock_counter(self@);
            }
            self.tick_color_clock();
            proof {
                k = k + 1;
            }
        }
    }

    fn end_scanline(&mut self)
        requires
            tia_wf(TiaView { regs: TiaRegs { cycles_in_line: 0, ..old(self)@.regs }, ..old(self)@ }),
        ensures
            tia_wf(final(self)@),
            final(self)@ == end_scanline_s(old(self)@),
    {
        self.regs.cycles_in_line = 0;
        if !self.regs.vsync && !self.regs.vblank {
            self.regs.visible_y = self.regs.visible_y + 1;
        }
        self.regs.scanline = self.regs.scanline + 1;
        if self.regs.scanline >= LINES_PER_FRAME {
            // Fallback for ROMs that do not generate a proper VSYNC.
            if self.regs.had_visible_lines {
                self.publish_frame();
            }
            self.clear_back();
            self.regs.scanline = 0;
            self.regs.visible_y = 0;
            self.regs.had_visible_lines = false;
        }
    }

    fn copy_back_to_frame(&mut self)
        requires
            old(self)@.back.len() == FRAME_SIZE,
            old(self)@.frame.len() == FRAME_SIZE,
        ensures
            final(self)@ == (TiaView { frame: old(self)@.back, ..old(self)@ }),
    {
        let mut i: usize = 0;
        while i < FRAME_SIZE
            invariant
                i <= FRAME_SIZE,
                self.back@ == old(self)@.back,
                self.back@.len() == FRAME_SIZE,
                self.regs == old(self)@.regs,
                self.frame@.len() == FRAME_SIZE,
                forall|j: int| 0 <= j < i ==> self.frame@[j] == self.back@[j],
            decreases FRAME_SIZE - i,
        {
            let v = self.back[i];
            self.frame.set(i, v);
            i = i + 1;
        }
        assert(self.frame@ =~= self.back@);
    }

    fn publish_frame(&mut self)
        requires
            old(self)@.back.len() == FRAME_SIZE,
            old(self)@.frame.len() == FRAME_SIZE,
        ensures
            final(self)@ == publish_s(old(self)@),
    {
        self.copy_back_to_frame();
        self.regs.frame_ready = true;
    }

    fn current_x(&self) -> (x: usize)
        requires
            self@.regs.cycles_in_line < COLOR_CLOCKS_PER_LINE,
        ensures
            x == current_x_s(self@.regs),
            x < 160,
    {
        let s = self.regs.cycles_in_line.saturating_sub(self.regs.visible_start_clock);
        let raw = (s as isize).wrapping_add(self.regs.x_adjust);
        if raw >= 0 {
            (raw as usize) % 160
        } else {
            let p = (-(raw + 1)) as usize;
            proof {
                assert((raw as int) % 160 == 159 - (p as int % 160)) by (nonlinear_arith)
                    requires
                        raw < 0,
                        p == -(raw + 1),
                ;
            }
            159 - p % 160
        }
    }

    /// Which objects cover pixel `x` on the current line.
    fn objects(&self, x: usize) -> (o: Objects)
        requires
            tia_wf(self@),
            x < VISIBLE_WIDTH,
        ensures
            o == objects_at(self@.regs, x as int),
    {
        let r = self.regs;
        Objects {
            pf: self.playfield_bit(x),
            p0: sprite_copies_bit(r.grp0, r.nusiz0, x, r.hpos_p0),
            p1: sprite_copies_bit(r.grp1, r.nusiz1, x, r.hpos_p1),
            m0: r.enam0 & 0x02 != 0 && missile_bit(r.nusiz0, x, r.hpos_m0),
            m1: r.enam1 & 0x02 != 0 && missile_bit(r.nusiz1, x, r.hpos_m1),
            bl: r.enabl & 0x02 != 0 && x >= r.hpos_bl && x < r.hpos_bl.saturating_add(
                ball_width(r.ctrlpf),
            ),
        }
    }

    /// The colour of pixel `x` covered by the objects `o`.
    fn pixel_color(&self, x: usize, o: Objects) -> (c: u8)
        ensures
            c == pixel_color_s(self@.regs, x as int, o),
    {
        let r = self.regs;
        let score_mode = r.ctrlpf & 0x02 != 0;
        let priority_pf = r.ctrlpf & 0x04 != 0;
        let mut c = r.color_bg;
        if o.pf || o.bl {
            c = if score_mode && x < 80 {
                r.color_p0
            } else if score_mode {
                r.color_p1
            } else {
                r.color_pf
            };
        }
        if !priority_pf {
            if o.p0 || o.m0 {
                c = r.color_p0;
            }
            if o.p1 || o.m1 {
                c = r.color_p1;
            }
        } else if !(o.pf || o.bl) {
            if o.p0 || o.m0 {
                c = r.color_p0;
            }
            if o.p1 || o.m1 {
                c = r.color_p1;
            }
        }
        c
    }

    fn render_pixel(&mut self, x: usize, y: usize)
        requires
            tia_wf(old(self)@),
            x < VISIBLE_WIDTH,
            y < VISIBLE_HEIGHT,
        ensures
            tia_wf(final(self)@),
            final(self)@ == render_s(old(self)@, x as int, y as int),
    {
        let o = self.objects(x);
        let c = self.pixel_color(x, o);
        self.latch_collisions(o);
        self.put_px(x, y, c);
    }

    /// Whether the playfield covers visible column `x` on the current line.
    pub fn playfield_bit(&self, x: usize) -> (b: bool)
        requires
            x < VISIBLE_WIDTH,
        ensures
            b == playfield_bit_s(self@.regs, x as int),
    {
        let half = if x < 80 {
            x / 4
        } else if self.regs.ctrlpf & 0x01 != 0 {
            (159 - x) / 4
        } else {
            (x - 80) / 4
        };
        if half <= 3 {
            (self.regs.pf0 >> ((4 + half) as u8)) & 1 == 1
        } else if half <= 11 {
            (self.regs.pf1 >> ((11 - half) as u8)) & 1 == 1
        } else if half <= 19 {
            (self.regs.pf2 >> ((half - 12) as u8)) & 1 == 1
        } else {
            false
        }
    }

    fn latch_collisions(&mut self, o: Objects)
        ensures
            final(self)@ == (TiaView { regs: latch_collisions_s(old(self)@.regs, o), ..old(self)@ }),
    {
        // CXM0P: bit7 M0-P1, bit6 M0-P0      CXM1P: bit7 M1-P0, bit6 M1-P1
        // CXP0FB: bit7 P0-PF, bit6 P0-BL     CXP1FB: bit7 P1-PF, bit6 P1-BL
        // CXM0FB: bit7 M0-PF, bit6 M0-BL     CXM1FB: bit7 M1-PF, bit6 M1-BL
        // CXBLPF: bit7 BL-PF                 CXPPMM: bit7 P0-P1, bit6 M0-M1
        self.regs.cxm0p = self.regs.cxm0p | (if o.m0 && o.p1 { 0x80 } else { 0 }) | (if o.m0 && o.p0 {
            0x40
        } else {
            0
        });
        self.regs.cxm1p = self.regs.cxm1p | (if o.m1 && o.p0 { 0x80 } else { 0 }) | (if o.m1 && o.p1 {
            0x40
        } else {
            0
        });
        self.regs.cxp0fb = self.regs.cxp0fb | (if o.p0 && o.pf { 0x80 } else { 0 }) | (if o.p0 && o.bl {
            0x40
        } else {
            0
        });
        self.regs.cxp1fb = self.regs.cxp1fb | (if o.p1 && o.pf { 0x80 } else { 0 }) | (if o.p1 && o.bl {
            0x40
        } else {
            0
        });
        self.regs.cxm0fb = self.regs.cxm0fb | (if o.m0 && o.pf { 0x80 } else { 0 }) | (if o.m0 && o.bl {
            0x40
        } else {
            0
        });
        self.regs.cxm1fb = self.regs.cxm1fb | (if o.m1 && o.pf { 0x80 } else { 0 }) | (if o.m1 && o.bl {
            0x40
        } else {
            0
        });
        self.regs.cxblpf = self.regs.cxblpf | (if o.bl && o.pf { 0x80 } else { 0 });
        self.regs.cxppmm = self.regs.cxppmm | (if o.p0 && o.p1 { 0x80 } else { 0 }) | (if o.m0 && o.m1 {
            0x40
        } else {
            0
        });
    }

    fn clear_collisions(&mut self)
        ensures
            final(self)@ == (TiaView { regs: clear_collisions_s(old(self)@.regs), ..old(self)@ }),
    {
        self.regs.cxm0p = 0;
        self.regs.cxm1p = 0;
        self.regs.cxp0fb = 0;
        self.regs.cxp1fb = 0;
        self.regs.cxm0fb = 0;
        self.regs.cxm1fb = 0;
        self.regs.cxblpf = 0;
        self.regs.cxppmm = 0;
    }

    fn put_px(&mut self, x: usize, y: usize, color: u8)
        requires
            old(self)@.back.len() == FRAME_SIZE,
            x < VISIBLE_WIDTH,
            y < VISIBLE_HEIGHT,
        ensures
            final(self)@ == (TiaView { back: put_px_s(old(self)@.back, x as int, y as int, color), ..old(self)@ }),
    {
        proof {
            lemma_pixel_index(x as int, y as int);
        }
        let rgb = tia_color_rgb(color);
        let i = (y * VISIBLE_WIDTH + x) * 4;
        self.back.set(i, rgb[0]);
        self.back.set(i + 1, rgb[1]);
        self.back.set(i + 2, rgb[2]);
        self.back.set(i + 3, 0xff);
    }

    fn clear_back(&mut self)
        requires
            old(self)@.back.len() == FRAME_SIZE,
        ensures
            final(self)@ == (TiaView { back: cleared_frame(), ..old(self)@ }),
    {
        let mut i: usize = 0;
        while i < FRAME_SIZE
            invariant
                i <= FRAME_SIZE,
                i % 4 == 0,
                self.frame@ == old(self)@.frame,
                self.regs == old(self)@.regs,
                self.back@.len() == FRAME_SIZE,
                forall|j: int| 0 <= j < i ==> self.back@[j] == #[trigger] cleared_frame()[j],
            decreases FRAME_SIZE - i,
        {
            self.back.set(i, 0);
            self.back.set(i + 1, 0);
            self.back.set(i + 2, 0);
            self.back.set(i + 3, 0xff);
            i = i + 4;
        }
        assert(self.back@ =~= cleared_frame());
    }

    fn apply_hmove(&mut self)
        requires
            tia_wf(old(self)@),
        ensures
            tia_wf(final(self)@),
            final(self)@ == (TiaView { regs: apply_hmove_s(old(self)@.regs), ..old(self)@ }),
    {
        self.regs.hpos_p0 = move_h(self.regs.hpos_p0, self.regs.hmp0);
        self.regs.hpos_p1 = move_h(self.regs.hpos_p1, self.regs.hmp1);
        self.regs.hpos_m0 = move_h(self.regs.hpos_m0, self.regs.hmm0);
        self.regs.hpos_m1 = move_h(self.regs.hpos_m1, self.regs.hmm1);
        self.regs.hpos_bl = move_h(self.regs.hpos_bl, self.regs.hmbl);
    }

    /// Write a TIA register.
    pub fn write(&mut self, addr: u16, val: u8)
        requires
            tia_wf(old(self)@),
        ensures
            tia_wf(final(self)@),
            final(self)@ == write_s(old(self)@, addr, val),
    {
        match addr & 0x3f {
            // VSYNC. The frame is published when the ROM starts the next
            // VSYNC after visible lines were drawn.
            0x00 => self.write_vsync(val),
            0x01 => {
                let new_vblank = val & 0x02 != 0;
                if self.regs.vblank && !new_vblank {
                    // Leaving VBLANK: the kernel's visible area begins.
                    self.regs.visible_y = 0;
                }
                self.regs.vblank = new_vblank;
            },
            0x02 => self.force_next_scanline(),
            0x03 => self.regs.cycles_in_line = 0,
            0x04 => self.regs.nusiz0 = val,
            0x05 => self.regs.nusiz1 = val,
            0x06 => self.regs.color_p0 = val,
            0x07 => self.regs.color_p1 = val,
            0x08 => self.regs.color_pf = val,
            0x09 => self.regs.color_bg = val,
            0x0a => self.regs.ctrlpf = val,
            0x15 => self.regs.audc0 = val % 16,
            0x16 => self.regs.audc1 = val % 16,
            0x17 => self.regs.audf0 = val % 32,
            0x18 => self.regs.audf1 = val % 32,
            0x19 => self.regs.audv0 = val % 16,
            0x1a => self.regs.audv1 = val % 16,
            0x0d => self.regs.pf0 = val,
            0x0e => self.regs.pf1 = val,
            0x0f => self.regs.pf2 = val,
            0x1b => self.regs.grp0 = val,
            0x1c => self.regs.grp1 = val,
            0x1d => self.regs.enam0 = val,
            0x1e => self.regs.enam1 = val,
            0x1f => self.regs.enabl = val,
            // RESPx/RESMx/RESBL: the object moves to the beam's position.
            0x10 => self.regs.hpos_p0 = self.current_x(),
            0x11 => self.regs.hpos_p1 = self.current_x(),
            0x12 => self.regs.hpos_m0 = self.current_x(),
            0x13 => self.regs.hpos_m1 = self.current_x(),
            0x14 => self.regs.hpos_bl = self.current_x(),
            0x20 => self.regs.hmp0 = val,
            0x21 => self.regs.hmp1 = val,
            0x22 => self.regs.hmm0 = val,
            0x23 => self.regs.hmm1 = val,
            0x24 => self.regs.hmbl = val,
            // HMOVE applies the motion registers.
            0x2a => self.apply_hmove(),
            // HMCLR
            0x2b => {
                self.regs.hmp0 = 0;
                self.regs.hmp1 = 0;
                self.regs.hmm0 = 0;
                self.regs.hmm1 = 0;
                self.regs.hmbl = 0;
            },
            // CXCLR clears all collision latches.
            0x2c => self.clear_collisions(),
            _ => {},
        }
    }

    fn write_vsync(&mut self, val: u8)
        requires
            tia_wf(old(self)@),
        ensures
            tia_wf(final(self)@),
            final(self)@ == vsync_write_s(old(self)@, val),
    {
        let new_vsync = val & 0x02 != 0;
        if new_vsync && !self.regs.vsync {
            if self.regs.had_visible_lines {
                self.publish_frame();
            }
            // A new physical frame: clearing here keeps lines of earlier
            // frames from piling up when a kernel draws fewer lines.
            self.clear_back();
            self.regs.scanline = 0;
            self.regs.visible_y = 0;
            self.regs.cycles_in_line = 0;
            self.regs.had_visible_lines = false;
        }
        self.regs.vsync = new_vsync;
    }
}

// ---------------------------------------------------------------------------
// Laws.
// ---------------------------------------------------------------------------

/// Every collision bit of `a` is still set in `b`.
pub open spec fn latches_kept(a: TiaRegs, b: TiaRegs) -> bool {
    &&& b.cxm0p & a.cxm0p == a.cxm0p
    &&& b.cxm1p & a.cxm1p == a.cxm1p
    &&& b.cxp0fb & a.cxp0fb == a.cxp0fb
    &&& b.cxp1fb & a.cxp1fb == a.cxp1fb
    &&& b.cxm0fb & a.cxm0fb == a.cxm0fb
    &&& b.cxm1fb & a.cxm1fb == a.cxm1fb
    &&& b.cxblpf & a.cxblpf == a.cxblpf
    &&& b.cxppmm & a.cxppmm == a.cxppmm
}

proof fn lemma_latch_keeps(v: u8, h1: bool, k1: u8, h2: bool, k2: u8)
    ensures
        latch(v, h1, k1) & v == v,
        latch(latch(v, h1, k1), h2, k2) & v == v,
{
    lemma_byte_masks();
    let a = latch(v, h1, k1);
    let b = latch(a, h2, k2);
    assert(a & v == v);
    assert(b & a == a);
}

/// Drawing a pixel only adds collision bits.
proof fn lemma_latch_collisions_keeps(r: TiaRegs, o: Objects)
    ensures
        latches_kept(r, latch_collisions_s(r, o)),
{
    lemma_latch_keeps(r.cxm0p, o.m0 && o.p1, 0x80, o.m0 && o.p0, 0x40);
    lemma_latch_keeps(r.cxm1p, o.m1 && o.p0, 0x80, o.m1 && o.p1, 0x40);
    lemma_latch_keeps(r.cxp0fb, o.p0 && o.pf, 0x80, o.p0 && o.bl, 0x40);
    lemma_latch_keeps(r.cxp1fb, o.p1 && o.pf, 0x80, o.p1 && o.bl, 0x40);
    lemma_latch_keeps(r.cxm0fb, o.m0 && o.pf, 0x80, o.m0 && o.bl, 0x40);
    lemma_latch_keeps(r.cxm1fb, o.m1 && o.pf, 0x80, o.m1 && o.bl, 0x40);
    lemma_latch_keeps(r.cxblpf, o.bl && o.pf, 0x80, false, 0);
    lemma_latch_keeps(r.cxppmm, o.p0 && o.p1, 0x80, o.m0 && o.m1, 0x40);
}

/// Collision bits are latched: a colour clock never clears one.
pub proof fn lemma_clock_keeps_latches(t: TiaView)
    ensures
        latches_kept(t.regs, clock_s(t).regs),
{
    lemma_byte_masks();
    let r = t.regs;
    if draws_pixel(r) {
        let x = r.cycles_in_line - r.visible_start_clock;
        lemma_latch_collisions_keeps(r, objects_at(r, x));
    }
}

/// Collision bits are latched: running the beam for any number of colour
/// clocks (and so any `tick`) never clears one; only CXCLR does.
pub proof fn lemma_clocks_keep_latches(t: TiaView, n: nat)
    ensures
        latches_kept(t.regs, clocks_s(t, n).regs),
    decreases n,
{
    lemma_byte_masks();
    if n > 0 {
        lemma_clocks_keep_latches(t, (n - 1) as nat);
        lemma_clock_keeps_latches(clocks_s(t, (n - 1) as nat));
    }
}

/// CXCLR clears every collision latch.
pub proof fn lemma_cxclr(t: TiaView, addr: u16, val: u8)
    requires
        addr & 0x3f == 0x2c,
    ensures
        ({
            let r = write_s(t, addr, val).regs;
            &&& r.cxm0p == 0 && r.cxm1p == 0 && r.cxp0fb == 0 && r.cxp1fb == 0
            &&& r.cxm0fb == 0 && r.cxm1fb == 0 && r.cxblpf == 0 && r.cxppmm == 0
        }),
{
}

/// HMOVE after HMCLR moves nothing.
pub proof fn lemma_hmclr_then_hmove(t: TiaView, addr: u16, val: u8)
    requires
        tia_wf(t),
        addr & 0x3f == 0x2b,
    ensures
        ({
            let r = apply_hmove_s(write_s(t, addr, val).regs);
            &&& r.hpos_p0 == t.regs.hpos_p0
            &&& r.hpos_p1 == t.regs.hpos_p1
            &&& r.hpos_m0 == t.regs.hpos_m0
            &&& r.hpos_m1 == t.regs.hpos_m1
            &&& r.hpos_bl == t.regs.hpos_bl
        }),
{
}

/// The palette ignores bit 0 of a colour register.
pub proof fn lemma_palette_ignores_bit0(color: u8)
    ensures
        color_rgb(color) == color_rgb((color / 2 * 2) as u8),
{
}

/// The colour-clock counter during the rest of a line: `k` clocks after
/// clock `c0` it reads `c0 + k`, and 0 when the line is over.
pub proof fn lemma_clocks_counter(t: TiaView, k: nat)
    requires
        0 < t.regs.cycles_in_line < COLOR_CLOCKS_PER_LINE,
        t.regs.cycles_in_line + k <= COLOR_CLOCKS_PER_LINE,
    ensures
        clocks_s(t, k).regs.cycles_in_line == (if t.regs.cycles_in_line + k == COLOR_CLOCKS_PER_LINE {
            0
        } else {
            t.regs.cycles_in_line + k
        }),
    decreases k,
{
    if k > 0 {
        lemma_clocks_counter(t, (k - 1) as nat);
        lemma_clock_counter(clocks_s(t, (k - 1) as nat));
    }
}

/// WSYNC leaves the beam at the start of a scanline.
pub proof fn lemma_wsync_line_start(t: TiaView)
    requires
        tia_wf(t),
    ensures
        wsync_s(t).regs.cycles_in_line == 0,
{
    if t.regs.cycles_in_line != 0 {
        lemma_clocks_counter(t, (COLOR_CLOCKS_PER_LINE - t.regs.cycles_in_line) as nat);
    }
}

/// Colour clocks that stay within the line leave the line number alone.
proof fn lemma_clocks_within_line(t: TiaView, k: nat)
    requires
        t.regs.cycles_in_line + k < COLOR_CLOCKS_PER_LINE,
    ensures
        clocks_s(t, k).regs.scanline == t.regs.scanline,
        clocks_s(t, k).regs.cycles_in_line == t.regs.cycles_in_line + k,
    decreases k,
{
    if k > 0 {
        lemma_clocks_within_line(t, (k - 1) as nat);
    }
}

/// WSYNC in the middle of a line finishes that line: the beam moves to the
/// next line, or to line 0 of a new picture after the last line.
pub proof fn lemma_wsync_next_line(t: TiaView)
    requires
        tia_wf(t),
        t.regs.cycles_in_line != 0,
    ensures
        wsync_s(t).regs.scanline == (if t.regs.scanline + 1 >= LINES_PER_FRAME {
            0
        } else {
            t.regs.scanline + 1
        }),
{
    let k = (COLOR_CLOCKS_PER_LINE - t.regs.cycles_in_line) as nat;
    lemma_clocks_within_line(t, (k - 1) as nat);
    assert(clocks_s(t, k) == clock_s(clocks_s(t, (k - 1) as nat)));
}

/// The start of VSYNC begins a new picture: the beam goes to line 0 and
/// clock 0, the picture being built is cleared, and a picture with visible
/// lines is published first.
pub proof fn lemma_vsync_starts_frame(t: TiaView, addr: u16, val: u8)
    requires
        addr & 0x3f == 0x00,
        val & 0x02 != 0,
        !t.regs.vsync,
    ensures
        ({
            let n = write_s(t, addr, val);
            &&& n.regs.vsync
            &&& n.regs.scanline == 0
            &&& n.regs.visible_y == 0
            &&& n.regs.cycles_in_line == 0
            &&& n.back == cleared_frame()
            &&& t.regs.had_visible_lines ==> n.frame == t.back && n.regs.frame_ready
            &&& !t.regs.had_visible_lines ==> n.frame == t.frame
        }),
{
}

/// A register write does not touch the pictures: pixels already drawn keep
/// their colour, and the new value shows only in pixels drawn after it.
/// (VSYNC and WSYNC move the beam and are the exceptions.)
pub proof fn lemma_write_keeps_picture(t: TiaView, addr: u16, val: u8)
    requires
        addr & 0x3f != 0x00,
        addr & 0x3f != 0x02,
    ensures
        write_s(t, addr, val).back == t.back,
        write_s(t, addr, val).frame == t.frame,
{
}

/// The right half of the playfield repeats the left half, or mirrors it
/// when CTRLPF bit 0 is set.
pub proof fn lemma_playfield_halves(r: TiaRegs, x: int)
    requires
        80 <= x < 160,
    ensures
        r.ctrlpf & 0x01 != 0 ==> playfield_bit_s(r, x) == playfield_bit_s(r, 159 - x),
        r.ctrlpf & 0x01 == 0 ==> playfield_bit_s(r, x) == playfield_bit_s(r, x - 80),
{
}

/// A register write keeps the sound registers in range: the sound
/// registers take only the low bits of the value written.
pub proof fn lemma_write_keeps_sound_range(t: TiaView, addr: u16, val: u8)
    requires
        sound_in_range(t.regs),
    ensures
        sound_in_range(write_s(t, addr, val).regs),
{
    lemma_clocks_keep_sound(t, (COLOR_CLOCKS_PER_LINE - t.regs.cycles_in_line) as nat);
}

/// The beam leaves the sound registers alone: only writes change them.
pub proof fn lemma_clocks_keep_sound(t: TiaView, n: nat)
    ensures
        sound_regs(clocks_s(t, n).regs) == sound_regs(t.regs),
    decreases n,
{
    if n > 0 {
        lemma_clocks_keep_sound(t, (n - 1) as nat);
    }
}

/// VSYNC and VBLANK are switched by bit 1 of the value written; the other
/// bits do nothing. Switching VBLANK leaves the pictures and the beam where
/// they are, and leaving the blank restarts the visible lines.
pub proof fn lemma_sync_blank_bits(t: TiaView, addr: u16, val: u8)
    ensures
        addr & 0x3f == 0x00 ==> write_s(t, addr, val).regs.vsync == (val & 0x02 != 0),
        addr & 0x3f == 0x01 ==> {
            let n = write_s(t, addr, val);
            &&& n.regs.vblank == (val & 0x02 != 0)
            &&& n.back == t.back && n.frame == t.frame
            &&& n.regs.scanline == t.regs.scanline
            &&& n.regs.cycles_in_line == t.regs.cycles_in_line
            &&& n.regs.vsync == t.regs.vsync
            &&& n.regs.visible_y == (if t.regs.vblank && val & 0x02 == 0 {
                0
            } else {
                t.regs.visible_y
            })
        },
{
}

/// While VBLANK is on the beam draws nothing: colour clocks within the line
/// leave the picture being built, the collision latches and the record of
/// drawn lines as they were.
pub proof fn lemma_blank_draws_nothing(t: TiaView, k: nat)
    requires
        t.regs.vblank,
        t.regs.cycles_in_line + k < COLOR_CLOCKS_PER_LINE,
    ensures
        clocks_s(t, k).back == t.back,
        clocks_s(t, k).regs.vblank,
        clocks_s(t, k).regs.had_visible_lines == t.regs.had_visible_lines,
        clocks_s(t, k).regs.cxm0p == t.regs.cxm0p,
        clocks_s(t, k).regs.cxppmm == t.regs.cxppmm,
    decreases k,
{
    if k > 0 {
        lemma_blank_draws_nothing(t, (k - 1) as nat);
        lemma_clocks_within_line(t, (k - 1) as nat);
    }
}

proof fn lemma_latch_pair(v: u8, a: bool, b: bool)
    by (bit_vector)
    ensures
        (latch(latch(v, a, 0x80), b, 0x40) & 0x80 != 0) == (v & 0x80 != 0 || a),
        (latch(latch(v, a, 0x80), b, 0x40) & 0x40 != 0) == (v & 0x40 != 0 || b),
        latch(latch(v, a, 0x80), b, 0x40) & 0x3f == v & 0x3f,
        (latch(v, a, 0x80) & 0x80 != 0) == (v & 0x80 != 0 || a),
        latch(v, a, 0x80) & 0x7f == v & 0x7f,
{
}

/// Drawing a pixel latches each pair of objects that overlap on it, in the
/// bit the hardware gives that pair: CXM0P bit 7 M0-P1, bit 6 M0-P0; CXM1P
/// M1-P0, M1-P1; CXP0FB P0-PF, P0-BL; CXP1FB P1-PF, P1-BL; CXM0FB M0-PF,
/// M0-BL; CXM1FB M1-PF, M1-BL; CXBLPF bit 7 BL-PF; CXPPMM P0-P1, M0-M1. A
/// latched bit stays set, no bit is set without its pair overlapping, the
/// other bits and registers are unchanged.
pub proof fn lemma_collision_latches(r: TiaRegs, o: Objects)
    ensures
        ({
            let n = latch_collisions_s(r, o);
            &&& (n.cxm0p & 0x80 != 0) == (r.cxm0p & 0x80 != 0 || (o.m0 && o.p1))
            &&& (n.cxm0p & 0x40 != 0) == (r.cxm0p & 0x40 != 0 || (o.m0 && o.p0))
            &&& (n.cxm1p & 0x80 != 0) == (r.cxm1p & 0x80 != 0 || (o.m1 && o.p0))
            &&& (n.cxm1p & 0x40 != 0) == (r.cxm1p & 0x40 != 0 || (o.m1 && o.p1))
            &&& (n.cxp0fb & 0x80 != 0) == (r.cxp0fb & 0x80 != 0 || (o.p0 && o.pf))
            &&& (n.cxp0fb & 0x40 != 0) == (r.cxp0fb & 0x40 != 0 || (o.p0 && o.bl))
            &&& (n.cxp1fb & 0x80 != 0) == (r.cxp1fb & 0x80 != 0 || (o.p1 && o.pf))
            &&& (n.cxp1fb & 0x40 != 0) == (r.cxp1fb & 0x40 != 0 || (o.p1 && o.bl))
            &&& (n.cxm0fb & 0x80 != 0) == (r.cxm0fb & 0x80 != 0 || (o.m0 && o.pf))
            &&& (n.cxm0fb & 0x40 != 0) == (r.cxm0fb & 0x40 != 0 || (o.m0 && o.bl))
            &&& (n.cxm1fb & 0x80 != 0) == (r.cxm1fb & 0x80 != 0 || (o.m1 && o.pf))
            &&& (n.cxm1fb & 0x40 != 0) == (r.cxm1fb & 0x40 != 0 || (o.m1 && o.bl))
            &&& (n.cxblpf & 0x80 != 0) == (r.cxblpf & 0x80 != 0 || (o.bl && o.pf))
            &&& (n.cxppmm & 0x80 != 0) == (r.cxppmm & 0x80 != 0 || (o.p0 && o.p1))
            &&& (n.cxppmm & 0x40 != 0) == (r.cxppmm & 0x40 != 0 || (o.m0 && o.m1))
            &&& n.cxm0p & 0x3f == r.cxm0p & 0x3f && n.cxm1p & 0x3f == r.cxm1p & 0x3f
            &&& n.cxp0fb & 0x3f == r.cxp0fb & 0x3f && n.cxp1fb & 0x3f == r.cxp1fb & 0x3f
            &&& n.cxm0fb & 0x3f == r.cxm0fb & 0x3f && n.cxm1fb & 0x3f == r.cxm1fb & 0x3f
            &&& n.cxblpf & 0x7f == r.cxblpf & 0x7f && n.cxppmm & 0x3f == r.cxppmm & 0x3f
            &&& n == (TiaRegs {
                cxm0p: n.cxm0p,
                cxm1p: n.cxm1p,
                cxp0fb: n.cxp0fb,
                cxp1fb: n.cxp1fb,
                cxm0fb: n.cxm0fb,
                cxm1fb: n.cxm1fb,
                cxblpf: n.cxblpf,
                cxppmm: n.cxppmm,
                ..r
            })
        }),
{
    lemma_latch_pair(r.cxm0p, o.m0 && o.p1, o.m0 && o.p0);
    lemma_latch_pair(r.cxm1p, o.m1 && o.p0, o.m1 && o.p1);
    lemma_latch_pair(r.cxp0fb, o.p0 && o.pf, o.p0 && o.bl);
    lemma_latch_pair(r.cxp1fb, o.p1 && o.pf, o.p1 && o.bl);
    lemma_latch_pair(r.cxm0fb, o.m0 && o.pf, o.m0 && o.bl);
    lemma_latch_pair(r.cxm1fb, o.m1 && o.pf, o.m1 && o.bl);
    lemma_latch_pair(r.cxblpf, o.bl && o.pf, false);
    lemma_latch_pair(r.cxppmm, o.p0 && o.p1, o.m0 && o.m1);
}

/// Which colour a pixel gets: with nothing on it, the background; a
/// player or missile of P1 over one of P0, both over the playfield and the
/// ball, unless CTRLPF bit 2 puts the playfield and ball in front; the
/// playfield and ball in COLUPF, or, in score mode (CTRLPF bit 1), in P0's
/// colour on the left half and P1's on the right.
pub proof fn lemma_pixel_priority(r: TiaRegs, x: int, o: Objects)
    ensures
        ({
            let c = pixel_color_s(r, x, o);
            let players = o.p0 || o.m0 || o.p1 || o.m1;
            let field = o.pf || o.bl;
            let field_color = if r.ctrlpf & 0x02 == 0 {
                r.color_pf
            } else if x < 80 {
                r.color_p0
            } else {
                r.color_p1
            };
            &&& !players && !field ==> c == r.color_bg
            &&& !players && field ==> c == field_color
            &&& field && r.ctrlpf & 0x04 != 0 ==> c == field_color
            &&& (!field || r.ctrlpf & 0x04 == 0) && (o.p1 || o.m1) ==> c == r.color_p1
            &&& (!field || r.ctrlpf & 0x04 == 0) && !(o.p1 || o.m1) && (o.p0 || o.m0) ==> c
                == r.color_p0
        }),
{
}

/// HMOVE moves every object by the signed high nibble of its motion
/// register, wrapping in the 160 visible columns: 1..7 move left, 8..15
/// (that is -8..-1) move right, 0 leaves it. Nothing else changes.
pub proof fn lemma_hmove_motion(t: TiaView, addr: u16, val: u8)
    requires
        addr & 0x3f == 0x2a,
    ensures
        ({
            let n = write_s(t, addr, val).regs;
            let d = |hm: u8| if hm >> 4u8 >= 8 { (hm >> 4u8) as int - 16 } else { (hm >> 4u8) as int };
            &&& n.hpos_p0 == (t.regs.hpos_p0 - d(t.regs.hmp0)) % 160
            &&& n.hpos_p1 == (t.regs.hpos_p1 - d(t.regs.hmp1)) % 160
            &&& n.hpos_m0 == (t.regs.hpos_m0 - d(t.regs.hmm0)) % 160
            &&& n.hpos_m1 == (t.regs.hpos_m1 - d(t.regs.hmm1)) % 160
            &&& n.hpos_bl == (t.regs.hpos_bl - d(t.regs.hmbl)) % 160
            &&& n == (TiaRegs {
                hpos_p0: n.hpos_p0,
                hpos_p1: n.hpos_p1,
                hpos_m0: n.hpos_m0,
                hpos_m1: n.hpos_m1,
                hpos_bl: n.hpos_bl,
                ..t.regs
            })
        }),
{
    assert(forall|v: u8| #![auto] (v >> 4u8) as int == v as int / 16) by (bit_vector);
}

/// RESP0, RESP1, RESM0, RESM1 and RESBL put their object at the column the
/// beam is on: with no horizontal adjustment and the beam in the visible
/// part of the line, that is the clock count past the visible start.
pub proof fn lemma_reset_position(t: TiaView, addr: u16, val: u8)
    requires
        tia_wf(t),
        0x10 <= addr & 0x3f <= 0x14,
        t.regs.x_adjust == 0,
        t.regs.visible_start_clock <= t.regs.cycles_in_line < t.regs.visible_start_clock + 160,
    ensures
        ({
            let n = write_s(t, addr, val).regs;
            let col = t.regs.cycles_in_line - t.regs.visible_start_clock;
            &&& addr & 0x3f == 0x10 ==> n.hpos_p0 == col
            &&& addr & 0x3f == 0x11 ==> n.hpos_p1 == col
            &&& addr & 0x3f == 0x12 ==> n.hpos_m0 == col
            &&& addr & 0x3f == 0x13 ==> n.hpos_m1 == col
            &&& addr & 0x3f == 0x14 ==> n.hpos_bl == col
        }),
{
    let col = t.regs.cycles_in_line - t.regs.visible_start_clock;
    assert(vstd::wrapping::isize_specs::wrapping_add(col as isize, 0isize) == col as isize);
}

/// Whether the 8-pixel graphics `g`, drawn from column `start` with each
/// bit `w` pixels wide and bit 7 leftmost, cover column `x`.
pub open spec fn graphics_cover(g: u8, w: int, x: int, start: int) -> bool {
    &&& start <= x < start + 8 * w
    &&& (g >> ((7 - (x - start) / w) as u8)) & 1 == 1
}

/// The copies NUSIZ bits 0..2 ask for: one copy (0), two copies 16, 32 or
/// 64 columns apart (1, 2, 4), three copies 16 or 32 apart (3, 6), or one
/// copy of double (5) or quad (7) width.
pub proof fn lemma_player_copies(g: u8, nusiz: u8, x: int, base: int)
    ensures
        ({
            let hit = player_bit_s(g, nusiz, x, base);
            let mode = nusiz & 7;
            &&& mode == 0 ==> hit == graphics_cover(g, 1, x, base)
            &&& mode == 1 ==> hit == (graphics_cover(g, 1, x, base) || graphics_cover(g, 1, x, base + 16))
            &&& mode == 2 ==> hit == (graphics_cover(g, 1, x, base) || graphics_cover(g, 1, x, base + 32))
            &&& mode == 3 ==> hit == (graphics_cover(g, 1, x, base) || graphics_cover(g, 1, x, base + 16)
                || graphics_cover(g, 1, x, base + 32))
            &&& mode == 4 ==> hit == (graphics_cover(g, 1, x, base) || graphics_cover(g, 1, x, base + 64))
            &&& mode == 5 ==> hit == graphics_cover(g, 2, x, base)
            &&& mode == 6 ==> hit == (graphics_cover(g, 1, x, base) || graphics_cover(g, 1, x, base + 32)
                || graphics_cover(g, 1, x, base + 64))
            &&& mode == 7 ==> hit == graphics_cover(g, 4, x, base)
        }),
{
    assert(nusiz & 7 == nusiz % 8) by (bit_vector);
    let o = copy_offsets(nusiz);
    let sc = player_scale_s(nusiz) as int;
    assert forall|k: int| 0 <= k < o.len() implies #[trigger] copy_hit(g, sc, x, base + o[k])
        == graphics_cover(g, sc, x, base + o[k]) by {}
    if player_bit_s(g, nusiz, x, base) {
        let k = choose|k: int| 0 <= k < o.len() && #[trigger] copy_hit(g, sc, x, base + o[k]);
        assert(graphics_cover(g, sc, x, base + o[k]));
    }
    assert(copy_hit(g, sc, x, base + o[0]) == graphics_cover(g, sc, x, base + o[0]));
    if o.len() > 1 {
        assert(copy_hit(g, sc, x, base + o[1]) == graphics_cover(g, sc, x, base + o[1]));
    }
    if o.len() > 2 {
        assert(copy_hit(g, sc, x, base + o[2]) == graphics_cover(g, sc, x, base + o[2]));
    }
}

/// `t` with its frame-ready flag set to `b`.
pub open spec fn with_ready(t: TiaView, b: bool) -> TiaView {
    TiaView { regs: TiaRegs { frame_ready: b, ..t.regs }, ..t }
}

/// The frame-ready flag only records: a colour clock never reads it, and
/// either keeps it or sets it (when a frame is published).
#[verifier::spinoff_prover]
#[verifier::rlimit(40)]
proof fn lemma_clock_ready(t: TiaView, b: bool)
    ensures
        clock_s(with_ready(t, b)) == with_ready(
            clock_s(with_ready(t, false)),
            b || clock_s(with_ready(t, false)).regs.frame_ready,
        ),
{
}

proof fn lemma_clocks_ready(t: TiaView, b: bool, n: nat)
    ensures
        clocks_s(with_ready(t, b), n) == with_ready(
            clocks_s(with_ready(t, false), n),
            b || clocks_s(with_ready(t, false), n).regs.frame_ready,
        ),
    decreases n,
{
    if n > 0 {
        let m = (n - 1) as nat;
        lemma_clocks_ready(t, b, m);
        let x = clocks_s(with_ready(t, false), m);
        lemma_clock_ready(x, b || x.regs.frame_ready);
        lemma_clock_ready(x, x.regs.frame_ready);
        assert(with_ready(x, x.regs.frame_ready) == x);
        assert(with_ready(x, false) == with_ready(with_ready(x, false), false));
    }
}

/// Ticking `a` cycles and then `b` cycles is ticking `a + b` cycles: the
/// state is the same, and `tick(a + b)` reports a finished frame exactly
/// when one of the two shorter ticks did.
pub proof fn lemma_tick_split(t: TiaView, a: u32, b: u32)
    requires
        a + b <= u32::MAX,
    ensures
        ({
            let u = tick_s(t, a);
            let v = tick_s(u, b);
            tick_s(t, (a + b) as u32) == with_ready(v, u.regs.frame_ready || v.regs.frame_ready)
        }),
{
    let t0 = with_ready(t, false);
    let u = tick_s(t, a);
    assert(3 * ((a + b) as u32) as nat == 3 * a as nat + 3 * b as nat);
    lemma_clocks_compose(t0, 3 * a as nat, 3 * b as nat);
    assert(with_ready(u, u.regs.frame_ready) == u);
    lemma_clocks_ready(u, u.regs.frame_ready, 3 * b as nat);
}

/// The paddle inputs and the fire buttons read 0x80 (at rest); addresses
/// above read 0.
pub proof fn lemma_idle_inputs(r: TiaRegs, addr: u16)
    ensures
        8 <= addr % 16 <= 0x0d ==> read_s(r, addr) == 0x80,
        addr % 16 >= 0x0e ==> read_s(r, addr) == 0,
{
}

} // verus!
