//! The board's indicator state.
//!
//! The Launchpad's tri-colour LED is modelled as three separate LEDs whose
//! intended on/off state lives here; the platform layer mirrors every
//! change onto the GPIO pins. Keeping the state in the library lets the
//! run loop's signalling — and the fail-stop blink pattern — be stated and
//! checked like the rest of the logic.

use vstd::prelude::*;

verus! {

/// The Launchpad has a tri-colour LED, which we consider to be three
/// separate LEDs.
#[derive(PartialEq, Eq, Structural, Clone, Copy, Debug)]
pub enum Led {
    /// The red LED.
    Red,
    /// The blue LED.
    Blue,
    /// The green LED.
    Green,
}

/// The Launchpad has two buttons.
#[derive(PartialEq, Eq, Structural, Clone, Copy, Debug)]
pub enum Button {
    /// SW1.
    One,
    /// SW2.
    Two,
}

/// The intended on/off state of each LED.
#[derive(PartialEq, Eq, Structural, Clone, Copy, Debug)]
pub struct Leds {
    pub red: bool,
    pub blue: bool,
    pub green: bool,
}

impl Leds {
    /// The state at power-up: everything off.
    pub fn all_off() -> (r: Leds)
        ensures
            !r.red && !r.blue && !r.green,
    {
        Leds { red: false, blue: false, green: false }
    }
}

/// Turn an LED on, leaving the other two as they are.
pub fn led_on(leds: &mut Leds, led: Led)
    ensures
        *final(leds) == (match led {
            Led::Red => Leds { red: true, ..*old(leds) },
            Led::Blue => Leds { blue: true, ..*old(leds) },
            Led::Green => Leds { green: true, ..*old(leds) },
        }),
{
    match led {
        Led::Red => leds.red = true,
        Led::Blue => leds.blue = true,
        Led::Green => leds.green = true,
    }
}

/// Turn an LED off, leaving the other two as they are.
pub fn led_off(leds: &mut Leds, led: Led)
    ensures
        *final(leds) == (match led {
            Led::Red => Leds { red: false, ..*old(leds) },
            Led::Blue => Leds { blue: false, ..*old(leds) },
            Led::Green => Leds { green: false, ..*old(leds) },
        }),
{
    match led {
        Led::Red => leds.red = false,
        Led::Blue => leds.blue = false,
        Led::Green => leds.green = false,
    }
}

/// One step of the fail-stop signal: flip the red LED and say how many
/// milliseconds to hold it.
///
/// On an unrecoverable fault the platform layer calls this forever, never
/// returning to the run loop: a bootloader that may be mid-write to its own
/// flash must signal and stop, not attempt recovery.
pub fn fault_step(leds: &mut Leds) -> (delay_ms: u32)
    ensures
        final(leds).red == !old(leds).red,
        final(leds).blue == old(leds).blue,
        final(leds).green == old(leds).green,
        delay_ms == 200,
{
    leds.red = !leds.red;
    200
}

} // verus!
