//! Tests of the board indicator model.

use tock_bootloader::board::{fault_step, led_off, led_on, Led, Leds};

#[test]
fn led_on_sets_only_named() {
    let mut leds = Leds::all_off();
    led_on(&mut leds, Led::Green);
    assert_eq!(leds, Leds { red: false, blue: false, green: true });
    led_on(&mut leds, Led::Red);
    assert_eq!(leds, Leds { red: true, blue: false, green: true });
}

#[test]
fn led_off_clears_only_named() {
    let mut leds = Leds { red: true, blue: true, green: true };
    led_off(&mut leds, Led::Blue);
    assert_eq!(leds, Leds { red: true, blue: false, green: true });
    led_off(&mut leds, Led::Green);
    assert_eq!(leds, Leds { red: true, blue: false, green: false });
}

#[test]
fn fault_step_blinks_red() {
    let mut leds = Leds::all_off();
    assert_eq!(fault_step(&mut leds), 200);
    assert!(leds.red);
    assert_eq!(fault_step(&mut leds), 200);
    assert!(!leds.red);
    assert!(!leds.blue && !leds.green);
}
