use light_controller::bulb::{Bulb, Status};
use light_controller::{MAX_BRIGHTNESS, MAX_STEP, MIN_BRIGHTNESS};

#[test]
fn ramp_step_constants() {
    assert_eq!(MAX_BRIGHTNESS, 1000000);
    assert_eq!(MAX_STEP, 25000);
}

#[test]
fn new_bulb_is_dark_and_off() {
    let b = Bulb::new();
    assert_eq!(b.current_brightness, 0);
    assert_eq!(b.target_brightness, 0);
    assert_eq!(b.current_status, Status::Off);
}

#[test]
fn ramp_up_is_rate_limited() {
    let mut b = Bulb::new();
    let w = b.set_bulb_brightness(30000);
    assert_eq!(w, 25000);
    assert_eq!(b.current_brightness, 25000);
    let w = b.set_bulb_brightness(30000);
    assert_eq!(w, 30000);
    assert_eq!(b.current_brightness, 30000);
    // At the target the step holds it: no overshoot, no oscillation.
    let w = b.set_bulb_brightness(30000);
    assert_eq!(w, 30000);
    assert_eq!(b.current_brightness, 30000);
}

#[test]
fn ramp_down_near_zero_does_not_wrap() {
    let mut b = Bulb {
        current_brightness: 20000,
        target_brightness: 20000,
        current_status: Status::On,
    };
    // The saturating step would land below the target; the target wins.
    let w = b.set_bulb_brightness(10000);
    assert_eq!(w, 10000);
    assert_eq!(b.current_brightness, 10000);
    let w = b.set_bulb_brightness(0);
    assert_eq!(w, 0);
    assert_eq!(b.current_brightness, 0);
}

#[test]
fn ramp_never_overshoots_full_descent() {
    let mut b = Bulb {
        current_brightness: MAX_BRIGHTNESS,
        target_brightness: 0,
        current_status: Status::On,
    };
    let mut prev = b.current_brightness;
    for _ in 0..(MAX_BRIGHTNESS / MAX_STEP) {
        b.turn_off_bulb();
        assert!(b.current_brightness <= prev);
        assert!(prev - b.current_brightness <= MAX_STEP);
        assert!(MIN_BRIGHTNESS <= b.current_brightness && b.current_brightness <= MAX_BRIGHTNESS);
        prev = b.current_brightness;
    }
    assert_eq!(b.current_brightness, 0);
}

#[test]
fn turn_off_ramps_one_step() {
    let mut b = Bulb {
        current_brightness: 800000,
        target_brightness: 800000,
        current_status: Status::Off,
    };
    let w = b.turn_off_bulb();
    assert_eq!(w, 775000);
    assert_eq!(b.current_brightness, 775000);
}
