//! The visual status indicator, behind one capability: advance to the next
//! visual state with an intensity, paced against a fixed time quantum.
//!
//! Two hardware variants render it: a plain GPIO pin that is on or off, and
//! an addressable colour LED that cycles its hue one step per advance. The
//! logic here decides what the hardware must show; the pin toggle or the
//! colour write itself happens outside, as does the pacing delay.

use vstd::prelude::*;

verus! {

/// The pacing quantum: how long the indicator rests after each advance,
/// in milliseconds.
pub const LED_PACE_MS: u64 = 500;

/// How far the hue advances on each lit step of the colour variant.
pub const HUE_STEP: u8 = 15;

/// Full saturation, for vibrant colours on the colour variant.
pub const FULL_SATURATION: u8 = 255;

/// Which hardware variant renders the indicator.
#[derive(Clone, Copy, Debug, PartialEq, Eq)]
pub enum LedKind {
    /// A single on/off pin.
    Gpio,
    /// An addressable colour LED driven by hue, saturation and value.
    Ws2812,
}

/// What the indicator hardware must do for one advance.
#[derive(Clone, Copy, Debug, PartialEq, Eq)]
pub enum LedCommand {
    /// Drive the pin high (true) or low (false).
    SetLevel(bool),
    /// Show the colour with the given red, green and blue components.
    ShowRgb(u8, u8, u8),
}

/// What the integer HSV-to-RGB conversion of the LED crate returns for a
/// hue, saturation and value; it depends on the three components alone.
pub uninterp spec fn rgb_of_hsv(hue: u8, sat: u8, val: u8) -> (u8, u8, u8);

/// Relies on smart_leds::hsv::hsv2rgb, an integer HSV-to-RGB conversion
/// whose result is a function of the three components alone.
#[verifier::external_body]
fn hsv_to_rgb(hue: u8, sat: u8, val: u8) -> (r: (u8, u8, u8))
    ensures
        r == rgb_of_hsv(hue, sat, val),
{
    let rgb = smart_leds::hsv::hsv2rgb(smart_leds::hsv::Hsv { hue, sat, val });
    (rgb.r, rgb.g, rgb.b)
}

/// The indicator state: its hardware variant, chosen once at program
/// assembly, and the current hue of the colour variant.
#[derive(Clone, Copy, Debug, PartialEq, Eq)]
pub struct Led {
    /// The hardware variant, chosen once at program assembly.
    pub kind: LedKind,
    /// The current hue of the colour variant.
    pub hue: u8,
}

/// What one advance at the given brightness must show: the pin follows
/// brightness > 0; the colour LED shows the current hue at full saturation
/// with brightness as value, or black when dark.
pub open spec fn spec_led_command(led: Led, brightness: u8) -> LedCommand {
    match led.kind {
        LedKind::Gpio => LedCommand::SetLevel(brightness > 0),
        LedKind::Ws2812 => if brightness > 0 {
            LedCommand::ShowRgb(
                rgb_of_hsv(led.hue, FULL_SATURATION, brightness).0,
                rgb_of_hsv(led.hue, FULL_SATURATION, brightness).1,
                rgb_of_hsv(led.hue, FULL_SATURATION, brightness).2,
            )
        } else {
            LedCommand::ShowRgb(0, 0, 0)
        },
    }
}

/// The hue after one advance: one step further, wrapping around.
pub open spec fn spec_next_hue(h: u8) -> u8 {
    ((h + HUE_STEP) % 256) as u8
}

/// The indicator state after one advance: the colour variant steps its hue
/// on each lit advance; everything else is unchanged.
pub open spec fn spec_led_next(led: Led, brightness: u8) -> Led {
    if led.kind == LedKind::Ws2812 && brightness > 0 {
        Led { kind: LedKind::Ws2812, hue: spec_next_hue(led.hue) }
    } else {
        led
    }
}

impl Led {
    /// The indicator for the on/off pin variant.
    pub fn new_gpio() -> (r: Led)
        ensures
            r == (Led { kind: LedKind::Gpio, hue: 0 }),
    {
        Led { kind: LedKind::Gpio, hue: 0 }
    }

    /// The indicator for the addressable colour variant.
    pub fn new_ws2812() -> (r: Led)
        ensures
            r == (Led { kind: LedKind::Ws2812, hue: 0 }),
    {
        Led { kind: LedKind::Ws2812, hue: 0 }
    }

    /// One state change at the given brightness: returns what the hardware
    /// must show and advances the hue of the colour variant.
    pub fn set_color(&mut self, brightness: u8) -> (cmd: LedCommand)
        ensures
            cmd == spec_led_command(*old(self), brightness),
            *final(self) == spec_led_next(*old(self), brightness),
    {
        match self.kind {
            LedKind::Gpio => LedCommand::SetLevel(brightness > 0),
            LedKind::Ws2812 => {
                if brightness > 0 {
                    let rgb = hsv_to_rgb(self.hue, FULL_SATURATION, brightness);
                    let cmd = LedCommand::ShowRgb(rgb.0, rgb.1, rgb.2);
                    let stepped: u16 = self.hue as u16 + HUE_STEP as u16;
                    self.hue = (stepped % 256) as u8;
                    cmd
                } else {
                    LedCommand::ShowRgb(0, 0, 0)
                }
            },
        }
    }

    /// One advance of the indicator, to be paced against the quantum by the
    /// caller. Same state change as `set_color`.
    pub fn cycle_color(&mut self, brightness: u8) -> (cmd: LedCommand)
        ensures
            cmd == spec_led_command(*old(self), brightness),
            *final(self) == spec_led_next(*old(self), brightness),
    {
        self.set_color(brightness)
    }
}

} // verus!
