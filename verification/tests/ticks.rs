use light_controller::bulb::{Bulb, Status};
use light_controller::command::{Command, Echo};
use light_controller::controller::Controller;
use light_controller::schedule::Schedule;

fn mid_run_controller() -> Controller {
    Controller {
        bulb: Bulb {
            current_brightness: 400000,
            target_brightness: 500000,
            current_status: Status::On,
        },
        schedule: Schedule { hour: 6, minute: 30, duration: 30, running: true },
    }
}

#[test]
fn schedule_starts_from_dark_inside_the_window() {
    let mut c = Controller::new(6, 30, 30);
    let out = c.tick(&vec![], 23400, &vec![]);
    assert!(c.schedule.running);
    assert_eq!(c.bulb.current_status, Status::On);
    assert_eq!(c.bulb.target_brightness, 0);
    assert_eq!(out.echoes, vec![Echo::Status(Status::On), Echo::Brightness(0)]);
    assert_eq!(out.write, None);
}

#[test]
fn running_schedule_drives_the_target_every_tick() {
    let mut c = mid_run_controller();
    // 06:45: half the ramp.
    let out = c.tick(&vec![], 24300, &vec![]);
    assert!(c.schedule.running);
    assert_eq!(c.bulb.target_brightness, 500000);
    assert_eq!(out.echoes, vec![Echo::Brightness(500000)]);
    assert_eq!(out.write, Some(425000));
    assert_eq!(c.bulb.current_brightness, 425000);
}

#[test]
fn external_off_cancels_a_running_schedule() {
    let mut c = mid_run_controller();
    let off = vec![Command::SetStatus(Status::Off)];
    let out = c.tick(&off, 25000, &vec![]);
    assert!(!c.schedule.running);
    assert_eq!(c.bulb.current_status, Status::Off);
    assert_eq!(c.bulb.target_brightness, 0);
    // The command's echo, then the cancellation's.
    assert_eq!(out.echoes, vec![Echo::Status(Status::Off), Echo::Status(Status::Off)]);
    // The ramp heads to darkness at once.
    assert_eq!(out.write, Some(375000));

    // Outside the window the bulb keeps ramping down to 0 and stays there.
    for _ in 0..15 {
        c.tick(&vec![], 25300, &vec![]);
    }
    assert_eq!(c.bulb.current_brightness, 0);
    let out = c.tick(&vec![], 25300, &vec![]);
    assert_eq!(out.write, None);
    assert_eq!(c.bulb.current_brightness, 0);
    assert_eq!(c.bulb.current_status, Status::Off);
}

#[test]
fn reentering_the_window_restarts_the_ramp_from_dark() {
    let mut c = Controller {
        bulb: Bulb { current_brightness: 0, target_brightness: 0, current_status: Status::Off },
        schedule: Schedule { hour: 6, minute: 30, duration: 30, running: false },
    };
    let out = c.tick(&vec![], 23400, &vec![]);
    assert!(c.schedule.running);
    assert_eq!(c.bulb.current_status, Status::On);
    assert_eq!(c.bulb.target_brightness, 0);
    assert_eq!(out.echoes, vec![Echo::Status(Status::On), Echo::Brightness(0)]);
    assert_eq!(out.write, None);

    // Further in the window the ramp follows the schedule upward.
    let out = c.tick(&vec![], 24300, &vec![]);
    assert_eq!(c.bulb.target_brightness, 500000);
    assert_eq!(out.write, Some(25000));
}

#[test]
fn cancellation_inside_the_window_restarts_on_the_next_tick() {
    let mut c = mid_run_controller();
    let off = vec![Command::SetStatus(Status::Off)];
    c.tick(&off, 25000, &vec![]);
    assert!(!c.schedule.running);
    // Still inside the window with the bulb off and the run stopped: the
    // next evaluation starts a fresh run from target 0, so the brightness
    // keeps ramping down toward the new start.
    let out = c.tick(&vec![], 25050, &vec![]);
    assert!(c.schedule.running);
    assert_eq!(c.bulb.current_status, Status::On);
    assert_eq!(c.bulb.target_brightness, 0);
    assert_eq!(out.echoes, vec![Echo::Status(Status::On), Echo::Brightness(0)]);
    assert_eq!(out.write, Some(350000));
}

#[test]
fn burst_before_one_tick_is_fully_applied() {
    let mut c = Controller::new(6, 30, 30);
    let first = vec![
        Command::SetStatus(Status::On),
        Command::SetBrightness(60000),
        Command::SetBrightness(90000),
    ];
    let second = vec![Command::SetBrightness(30000)];
    // Midnight: far outside the window.
    let out = c.tick(&first, 0, &second);
    assert!(!c.schedule.running);
    assert_eq!(c.bulb.current_status, Status::On);
    // All four commands took effect by the end of the tick; the second
    // drain's target is the one that stands.
    assert_eq!(c.bulb.target_brightness, 30000);
    assert_eq!(
        out.echoes,
        vec![
            Echo::Status(Status::On),
            Echo::Brightness(60000),
            Echo::Brightness(90000),
            Echo::Brightness(30000),
        ]
    );
    assert_eq!(out.write, Some(25000));
    assert_eq!(c.bulb.current_brightness, 25000);
}

#[test]
fn off_bulb_reaches_dark_in_thirty_two_ticks_and_stays() {
    let mut c = Controller {
        bulb: Bulb {
            current_brightness: 800000,
            target_brightness: 800000,
            current_status: Status::Off,
        },
        schedule: Schedule { hour: 6, minute: 30, duration: 30, running: false },
    };
    let out = c.tick(&vec![], 0, &vec![]);
    assert_eq!(c.bulb.current_brightness, 775000);
    assert_eq!(out.write, Some(775000));
    for _ in 0..31 {
        c.tick(&vec![], 0, &vec![]);
    }
    assert_eq!(c.bulb.current_brightness, 0);
    let out = c.tick(&vec![], 0, &vec![]);
    assert_eq!(c.bulb.current_brightness, 0);
    assert_eq!(out.write, None);
}

#[test]
fn off_takes_precedence_over_a_stale_target() {
    let mut c = Controller {
        bulb: Bulb {
            current_brightness: 40000,
            target_brightness: 40000,
            current_status: Status::Off,
        },
        schedule: Schedule { hour: 6, minute: 30, duration: 30, running: false },
    };
    // Current equals the stored target, but the bulb is off: the effective
    // target is 0 and the ramp still moves.
    let out = c.tick(&vec![], 0, &vec![]);
    assert_eq!(out.write, Some(15000));
    let out = c.tick(&vec![], 0, &vec![]);
    assert_eq!(out.write, Some(0));
    assert_eq!(c.bulb.current_brightness, 0);
    assert_eq!(c.bulb.target_brightness, 40000);
}

#[test]
fn bulb_already_on_is_left_alone_by_the_schedule() {
    let mut c = Controller {
        bulb: Bulb {
            current_brightness: 700000,
            target_brightness: 700000,
            current_status: Status::On,
        },
        schedule: Schedule { hour: 6, minute: 30, duration: 30, running: false },
    };
    let out = c.tick(&vec![], 24300, &vec![]);
    assert!(!c.schedule.running);
    assert_eq!(c.bulb.target_brightness, 700000);
    assert_eq!(out.echoes, vec![]);
    assert_eq!(out.write, None);
}

#[test]
fn leaving_the_window_stops_the_run() {
    let mut c = mid_run_controller();
    let out = c.tick(&vec![], 25201, &vec![]);
    assert!(!c.schedule.running);
    // The schedule no longer owns the target; the bulb keeps ramping toward
    // the last target on its own.
    assert_eq!(c.bulb.target_brightness, 500000);
    assert_eq!(out.echoes, vec![]);
    assert_eq!(out.write, Some(425000));
}
