use vstd::prelude::*;
use crate::bits::lemma_byte_masks;

verus! {

/// Register bits of the joystick port (SWCHA) for player 0's directions.
pub const JOY_RIGHT: u8 = 0x80;
pub const JOY_LEFT: u8 = 0x40;
pub const JOY_DOWN: u8 = 0x20;
pub const JOY_UP: u8 = 0x10;

/// Register bits of the console switches (SWCHB).
pub const SW_RESET: u8 = 0x01;
pub const SW_SELECT: u8 = 0x02;
pub const SW_COLOR: u8 = 0x08;
pub const SW_P0_DIFFICULTY: u8 = 0x40;
pub const SW_P1_DIFFICULTY: u8 = 0x80;

/// The value of the fire-button port (INPT4) while the button is released.
pub const FIRE_RELEASED: u8 = 0x80;

/// The state of the controls as the console's ports present it.
#[derive(Default, Clone, Copy)]
pub struct Input {
    /// SWCHA: joystick directions. Active low.
    pub swcha: u8,
    /// SWCHB: console switches. Active low for reset/select.
    pub swchb: u8,
    /// INPT4: player 0 fire button. Bit 7 high = released, low = pressed.
    pub inpt4: u8,
}

/// The register `reg` with the bits of `mask` cleared when `active` and set
/// otherwise: the active-low encoding of a held button.
pub open spec fn active_low(reg: u8, mask: u8, active: bool) -> u8 {
    if active { reg & !mask } else { reg | mask }
}

/// Nothing pressed, colour mode, both difficulties on B.
pub open spec fn released() -> Input {
    Input { swcha: 0xff, swchb: 0xff, inpt4: FIRE_RELEASED }
}

impl Input {
    /// Nothing pressed, colour mode, both difficulties on B.
    pub fn new() -> (r: Self)
        ensures
            r == released(),
    {
        Self { swcha: 0xff, swchb: 0xff, inpt4: 0x80 }
    }

    pub fn set_left(&mut self, p: bool)
        ensures
            final(self).swcha == active_low(old(self).swcha, JOY_LEFT, p),
            final(self).swchb == old(self).swchb,
            final(self).inpt4 == old(self).inpt4,
    {
        self.dir_bit(0x40, p);
    }

    pub fn set_right(&mut self, p: bool)
        ensures
            final(self).swcha == active_low(old(self).swcha, JOY_RIGHT, p),
            final(self).swchb == old(self).swchb,
            final(self).inpt4 == old(self).inpt4,
    {
        self.dir_bit(0x80, p);
    }

    pub fn set_up(&mut self, p: bool)
        ensures
            final(self).swcha == active_low(old(self).swcha, JOY_UP, p),
            final(self).swchb == old(self).swchb,
            final(self).inpt4 == old(self).inpt4,
    {
        self.dir_bit(0x10, p);
    }

    pub fn set_down(&mut self, p: bool)
        ensures
            final(self).swcha == active_low(old(self).swcha, JOY_DOWN, p),
            final(self).swchb == old(self).swchb,
            final(self).inpt4 == old(self).inpt4,
    {
        self.dir_bit(0x20, p);
    }

    /// The fire button: INPT4 reads 0 while held and 0x80 when released.
    pub fn set_fire(&mut self, p: bool)
        ensures
            final(self).inpt4 == (if p { 0u8 } else { FIRE_RELEASED }),
            final(self).swcha == old(self).swcha,
            final(self).swchb == old(self).swchb,
    {
        self.inpt4 = if p { 0x00 } else { 0x80 };
    }

    /// Select and Reset are momentary console buttons, not toggles.
    pub fn set_select(&mut self, p: bool)
        ensures
            final(self).swchb == active_low(old(self).swchb, SW_SELECT, p),
            final(self).swcha == old(self).swcha,
            final(self).inpt4 == old(self).inpt4,
    {
        self.console_bit(0x02, p);
    }

    pub fn set_reset_switch(&mut self, p: bool)
        ensures
            final(self).swchb == active_low(old(self).swchb, SW_RESET, p),
            final(self).swcha == old(self).swcha,
            final(self).inpt4 == old(self).inpt4,
    {
        self.console_bit(0x01, p);
    }

    /// Colour/black-and-white switch. `true` = colour (bit set), `false` = B/W.
    pub fn set_color(&mut self, color: bool)
        ensures
            final(self).swchb == active_low(old(self).swchb, SW_COLOR, !color),
            final(self).swcha == old(self).swcha,
            final(self).inpt4 == old(self).inpt4,
    {
        if color {
            self.swchb = self.swchb | 0x08;
        } else {
            self.swchb = self.swchb & !0x08;
        }
    }

    pub fn toggle_color(&mut self)
        ensures
            final(self).swchb == old(self).swchb ^ SW_COLOR,
            final(self).swcha == old(self).swcha,
            final(self).inpt4 == old(self).inpt4,
    {
        self.swchb = self.swchb ^ 0x08;
    }

    /// Player 0 difficulty. `true` = A (bit low), `false` = B (bit high).
    pub fn set_p0_difficulty_a(&mut self, a: bool)
        ensures
            final(self).swchb == active_low(old(self).swchb, SW_P0_DIFFICULTY, a),
            final(self).swcha == old(self).swcha,
            final(self).inpt4 == old(self).inpt4,
    {
        if a {
            self.swchb = self.swchb & !0x40;
        } else {
            self.swchb = self.swchb | 0x40;
        }
    }

    /// Player 1 difficulty. `true` = A (bit low), `false` = B (bit high).
    pub fn set_p1_difficulty_a(&mut self, a: bool)
        ensures
            final(self).swchb == active_low(old(self).swchb, SW_P1_DIFFICULTY, a),
            final(self).swcha == old(self).swcha,
            final(self).inpt4 == old(self).inpt4,
    {
        if a {
            self.swchb = self.swchb & !0x80;
        } else {
            self.swchb = self.swchb | 0x80;
        }
    }

    pub fn toggle_p0_difficulty(&mut self)
        ensures
            final(self).swchb == old(self).swchb ^ SW_P0_DIFFICULTY,
            final(self).swcha == old(self).swcha,
            final(self).inpt4 == old(self).inpt4,
    {
        self.swchb = self.swchb ^ 0x40;
    }

    pub fn toggle_p1_difficulty(&mut self)
        ensures
            final(self).swchb == old(self).swchb ^ SW_P1_DIFFICULTY,
            final(self).swcha == old(self).swcha,
            final(self).inpt4 == old(self).inpt4,
    {
        self.swchb = self.swchb ^ 0x80;
    }

    fn dir_bit(&mut self, mask: u8, pressed: bool)
        ensures
            final(self).swcha == active_low(old(self).swcha, mask, pressed),
            final(self).swchb == old(self).swchb,
            final(self).inpt4 == old(self).inpt4,
    {
        if pressed {
            self.swcha = self.swcha & !mask;
        } else {
            self.swcha = self.swcha | mask;
        }
    }

    fn console_bit(&mut self, mask: u8, pressed: bool)
        ensures
            final(self).swchb == active_low(old(self).swchb, mask, pressed),
            final(self).swcha == old(self).swcha,
            final(self).inpt4 == old(self).inpt4,
    {
        if pressed {
            self.swchb = self.swchb & !mask;
        } else {
            self.swchb = self.swchb | mask;
        }
    }
}

/// A held button reads as its bit cleared and a released one as its bit
/// set; the other bits of the register are left as they were.
pub proof fn lemma_active_low(reg: u8, mask: u8, other: u8, active: bool)
    requires
        mask & other == 0,
    ensures
        active ==> active_low(reg, mask, active) & mask == 0,
        !active ==> active_low(reg, mask, active) & mask == mask,
        active_low(reg, mask, active) & other == reg & other,
{
    lemma_byte_masks();
}

/// Pressing a button and releasing it again gives back the register with
/// that bit set: the press leaves no trace but the released state.
pub proof fn lemma_press_release(reg: u8, mask: u8)
    ensures
        active_low(active_low(reg, mask, true), mask, false) == reg | mask,
{
    lemma_byte_masks();
}

/// Toggling a switch twice leaves the register as it was.
pub proof fn lemma_toggle_twice(reg: u8, mask: u8)
    ensures
        (reg ^ mask) ^ mask == reg,
{
    lemma_byte_masks();
}

} // verus!
