//! Light state, the color/power composition algebra, and the two actuator
//! models (binary on/off and PWM duty-cycle).

use vstd::prelude::*;

verus! {

/// An RGB color with three 8-bit channels.
#[derive(Clone, Copy, Debug, PartialEq, Eq)]
pub struct Color {
    pub red: u8,
    pub green: u8,
    pub blue: u8,
}

/// Channel-wise scaling of a color by an 8-bit power level: each channel
/// becomes `channel * power / 256`, with integer truncation.
pub open spec fn spec_mul(c: Color, power: u8) -> Color {
    Color {
        red: ((c.red as u32 * power as u32) / 256) as u8,
        green: ((c.green as u32 * power as u32) / 256) as u8,
        blue: ((c.blue as u32 * power as u32) / 256) as u8,
    }
}

proof fn lemma_scaled_channel_fits(a: u8, b: u8)
    ensures
        (a as u32 * b as u32) / 256 < 256,
{
    assert(a as u32 * b as u32 <= 65025) by (nonlinear_arith)
        requires
            a <= 255,
            b <= 255,
    ;
}

impl Color {
    pub fn new(red: u8, green: u8, blue: u8) -> (c: Color)
        ensures
            c == (Color { red, green, blue }),
    {
        Self { red, green, blue }
    }

    pub fn red() -> (c: Color)
        ensures
            c == (Color { red: 255u8, green: 0u8, blue: 0u8 }),
    {
        Self::new(255, 0, 0)
    }

    pub fn green() -> (c: Color)
        ensures
            c == (Color { red: 0u8, green: 255u8, blue: 0u8 }),
    {
        Self::new(0, 255, 0)
    }

    pub fn blue() -> (c: Color)
        ensures
            c == (Color { red: 0u8, green: 0u8, blue: 255u8 }),
    {
        Self::new(0, 0, 255)
    }

    pub fn off() -> (c: Color)
        ensures
            c == (Color { red: 0u8, green: 0u8, blue: 0u8 }),
    {
        Self::new(0, 0, 0)
    }

    /// Scale every channel by `rhs / 256`.
    pub fn mul(self, rhs: u8) -> (c: Color)
        ensures
            c == spec_mul(self, rhs),
    {
        proof {
            lemma_scaled_channel_fits(self.red, rhs);
            lemma_scaled_channel_fits(self.green, rhs);
            lemma_scaled_channel_fits(self.blue, rhs);
        }
        Color {
            red: ((self.red as u32 * rhs as u32) / 256) as u8,
            green: ((self.green as u32 * rhs as u32) / 256) as u8,
            blue: ((self.blue as u32 * rhs as u32) / 256) as u8,
        }
    }
}

/// Animation selector carried by light state. Accepted and retained, but
/// deliberately without any effect on rendering (reserved for future use).
#[derive(Clone, Copy, Debug, PartialEq, Eq)]
pub enum Anim {
    Off,
    Blink,
    Pulse,
}

/// Authoritative per-light state: fields a command has not touched keep their
/// previous value; an explicitly empty payload clears a field to unset.
#[derive(Clone, Copy, Debug, PartialEq, Eq)]
pub struct LedStatus {
    pub color: Option<Color>,
    pub power: Option<u8>,
    pub anim: Anim,
}

/// The pure composition algebra: an optional color and an optional power
/// level determine the RGB triple that is actuated.
pub open spec fn spec_compose(s: LedStatus) -> Color {
    match (s.color, s.power) {
        (Some(color), Some(power)) => spec_mul(color, power),
        (Some(color), None) => color,
        (None, Some(power)) => Color { red: power, green: power, blue: power },
        (None, None) => Color { red: 0u8, green: 0u8, blue: 0u8 },
    }
}

impl LedStatus {
    /// The startup state: everything unset, no animation.
    pub fn unset() -> (s: LedStatus)
        ensures
            s == (LedStatus { color: None, power: None, anim: Anim::Off }),
    {
        LedStatus { color: None, power: None, anim: Anim::Off }
    }

    /// Compose this state's optional color and power into the RGB triple to
    /// actuate.
    pub fn compose(&self) -> (c: Color)
        ensures
            c == spec_compose(*self),
    {
        match (self.color, self.power) {
            (Some(color), Some(power)) => color.mul(power),
            (Some(color), None) => color,
            (None, Some(power)) => Color::new(power, power, power),
            (None, None) => Color::off(),
        }
    }
}

/// A two-level output line. The binary actuator is wired active-low: driving
/// a channel "on" pulls its line low.
#[derive(Clone, Copy, Debug, PartialEq, Eq)]
pub enum Level {
    Low,
    High,
}

/// The level a binary channel is driven to when the channel is on (`true`)
/// or off (`false`).
pub open spec fn spec_binary_to_level(value: bool) -> Level {
    if value {
        Level::Low
    } else {
        Level::High
    }
}

/// Model of the binary (on/off) RGB actuator: the level each of the three
/// output lines is currently driven to.
#[derive(Clone, Copy, Debug, PartialEq, Eq)]
pub struct RgbLed {
    pub red: Level,
    pub green: Level,
    pub blue: Level,
}

impl RgbLed {
    pub fn binary_to_level(value: bool) -> (l: Level)
        ensures
            l == spec_binary_to_level(value),
    {
        match value {
            true => Level::Low,
            false => Level::High,
        }
    }

    /// Drive the three channels to the given on/off states.
    pub fn set(&mut self, red: bool, green: bool, blue: bool)
        ensures
            final(self).red == spec_binary_to_level(red),
            final(self).green == spec_binary_to_level(green),
            final(self).blue == spec_binary_to_level(blue),
    {
        self.red = Self::binary_to_level(red);
        self.green = Self::binary_to_level(green);
        self.blue = Self::binary_to_level(blue);
    }

    /// Threshold each channel at `> 0` and drive the two-level outputs.
    pub fn set_color(&mut self, color: Color)
        ensures
            final(self).red == spec_binary_to_level(color.red > 0),
            final(self).green == spec_binary_to_level(color.green > 0),
            final(self).blue == spec_binary_to_level(color.blue > 0),
    {
        let Color { red, green, blue } = color;
        self.set(red > 0, green > 0, blue > 0);
    }

    /// One wake of the binary render loop: compose the snapshot taken from
    /// the mailbox and drive the outputs accordingly.
    pub fn apply(&mut self, message: &LedStatus)
        ensures
            final(self).red == spec_binary_to_level(spec_compose(*message).red > 0),
            final(self).green == spec_binary_to_level(spec_compose(*message).green > 0),
            final(self).blue == spec_binary_to_level(spec_compose(*message).blue > 0),
    {
        let color = message.compose();
        self.set_color(color);
    }
}

/// The denominator every PWM duty-cycle fraction is taken over.
pub const PWM_DUTY_DENOMINATOR: u16 = 65535;

/// Gamma-approximated duty-cycle numerator for an 8-bit channel: the channel
/// value squared, over [`PWM_DUTY_DENOMINATOR`].
pub open spec fn spec_pwm_duty(channel: u8) -> u16 {
    ((channel as u16) * (channel as u16)) as u16
}

/// Model of the PWM RGB actuator: the duty-cycle numerator each channel is
/// currently driven with, over [`PWM_DUTY_DENOMINATOR`].
#[derive(Clone, Copy, Debug, PartialEq, Eq)]
pub struct PwmRgbLed {
    pub red: u16,
    pub green: u16,
    pub blue: u16,
}

impl PwmRgbLed {
    /// Drive each channel with its squared value as a duty-cycle fraction.
    /// Every numerator stays strictly below the denominator, so applying the
    /// fraction to the hardware cannot be rejected: the fatal path of the
    /// render loop is unreachable for values this function produces.
    pub fn set(&mut self, red: u8, green: u8, blue: u8)
        ensures
            final(self).red == spec_pwm_duty(red),
            final(self).green == spec_pwm_duty(green),
            final(self).blue == spec_pwm_duty(blue),
            final(self).red < PWM_DUTY_DENOMINATOR,
            final(self).green < PWM_DUTY_DENOMINATOR,
            final(self).blue < PWM_DUTY_DENOMINATOR,
    {
        proof {
            lemma_square_fits(red);
            lemma_square_fits(green);
            lemma_square_fits(blue);
        }
        self.red = red as u16 * red as u16;
        self.green = green as u16 * green as u16;
        self.blue = blue as u16 * blue as u16;
    }

    /// Drive the three channels from a composed color.
    pub fn set_color(&mut self, color: Color)
        ensures
            final(self).red == spec_pwm_duty(color.red),
            final(self).green == spec_pwm_duty(color.green),
            final(self).blue == spec_pwm_duty(color.blue),
            final(self).red < PWM_DUTY_DENOMINATOR,
            final(self).green < PWM_DUTY_DENOMINATOR,
            final(self).blue < PWM_DUTY_DENOMINATOR,
    {
        let Color { red, green, blue } = color;
        self.set(red, green, blue);
    }

    /// One wake of the PWM render loop: compose the snapshot taken from the
    /// mailbox and drive the outputs accordingly.
    pub fn apply(&mut self, message: &LedStatus)
        ensures
            final(self).red == spec_pwm_duty(spec_compose(*message).red),
            final(self).green == spec_pwm_duty(spec_compose(*message).green),
            final(self).blue == spec_pwm_duty(spec_compose(*message).blue),
    {
        let color = message.compose();
        self.set_color(color);
    }
}

proof fn lemma_square_fits(a: u8)
    ensures
        a as u16 * a as u16 <= 65025,
{
    assert(a as u16 * a as u16 <= 65025) by (nonlinear_arith)
        requires
            a <= 255,
    ;
}

} // verus!
