use std::collections::HashMap;

use roktrack::base::{determine_pass_through, first_or_blank, select_marker};
use roktrack::com::Neighbor;
use roktrack::detection::{Detection, SessionType};
use roktrack::vision::{SessionSet, VisionControl};
use roktrack::drive::{command_to_handler, mode_to_handler, DriveLoop, PilotHandler};
use roktrack::effect::{adjust_power, Alert, Cue, Effect, VisionMgmtCommand};
use roktrack::modes::{Modes, Phase};
use roktrack::pilot::{
    Fill, FollowPerson, MonitorAnimal, MonitorPerson, OneWay, RoundTrip, RoundTripObject, Tick,
};
use roktrack::state::RoktrackState;

fn tick(detections: Vec<Detection>) -> Tick {
    Tick {
        detections,
        bumped: false,
        ocr: false,
        shooting_start_time: 0,
        turning: false,
        target_time: 0,
    }
}

fn marker(xc: u32, h: u32, cls: u32) -> Detection {
    Detection {
        x1: xc.saturating_sub(h / 4),
        y1: 0,
        x2: xc + h / 4,
        y2: h,
        xc,
        yc: h / 2,
        cls,
        prob: 900,
        w: h / 2,
        h,
        ids: vec![],
    }
}

fn controller(msg: u8) -> Neighbor {
    Neighbor {
        timestamp: String::new(),
        rssi: 0,
        mac: String::new(),
        manufacturer_id: 0,
        identifier: 0,
        state: true,
        rest: 0,
        pi_temp: 0,
        mode: Modes::Unknown,
        msg,
        dest: 255,
    }
}

#[test]
fn cold_start_proceeds_straight() {
    let mut state = RoktrackState::new(1);
    assert_eq!(state.turn_count, -1);
    assert_eq!(state.target_height, 216);
    let fx = Fill::new().handle(&mut state, tick(vec![marker(160, 72, 0)]));
    assert_eq!(fx, vec![Effect::WorkMotorCw, Effect::Forward(0)]);
    assert_eq!(state.diff, 0);
    assert_eq!(state.turn_count, -1);
}

#[test]
fn marker_too_close_is_reached() {
    let mut state = RoktrackState::new(1);
    let fx = Fill::new().handle(&mut state, tick(vec![marker(160, 220, 0)]));
    assert_eq!(
        fx,
        vec![
            Effect::WorkMotorCw,
            Effect::Pause,
            Effect::Speak(Cue::CloseToCone),
            Effect::Left(500)
        ]
    );
    assert_eq!(state.ex_height, 220);
    assert_eq!(state.target_height, 0);
    assert_eq!(state.turn_count, 1);
    assert_eq!(state.msg, 3);
}

#[test]
fn turning_with_marker_lost() {
    let mut state = RoktrackState::new(1);
    state.turn_count = 3;
    let fx = Fill::new().handle(&mut state, tick(vec![]));
    assert_eq!(fx, vec![Effect::WorkMotorCw, Effect::Left(500)]);
    assert_eq!(state.msg, 4);
    assert_eq!(state.ex_height, 264);
    assert_eq!(state.turn_count, 4);
}

#[test]
fn last_ccw_marker_inverts_phase() {
    let mut state = RoktrackState::new(1);
    state.rest = -10_000;
    state.turn_count = 2;
    state.ex_height = 70;
    let fx = Fill::new().handle(&mut state, tick(vec![marker(200, 50, 0)]));
    assert_eq!(fx, vec![Effect::WorkMotorCw, Effect::Pause]);
    assert_eq!(state.phase, Phase::CW);
    assert_eq!(state.rest, 1_000_000);
    assert_eq!(state.turn_count, -1);
    assert!(state.state);
    // The same condition in the clockwise laps ends the mission.
    state.rest = -10_000;
    state.turn_count = 2;
    state.ex_height = 70;
    let fx = Fill::new().handle(&mut state, tick(vec![marker(200, 50, 0)]));
    assert_eq!(fx, vec![Effect::WorkMotorCw, Effect::Stop]);
    assert!(!state.state);
}

#[test]
fn new_target_ramps_height() {
    let mut state = RoktrackState::new(1);
    state.turn_count = 2;
    state.ex_height = 70;
    let fx = Fill::new().handle(&mut state, tick(vec![marker(200, 50, 0)]));
    assert_eq!(fx, vec![Effect::WorkMotorCw, Effect::Speak(Cue::NewConeFound)]);
    assert_eq!(state.rest, 995_000);
    // 50 + (216 - 50) * 0.995^2 = 214.33...
    assert_eq!(state.target_height, 214);
    assert_eq!(state.turn_count, 0);
    assert_eq!(state.msg, 5);
}

#[test]
fn fill_stands_without_detections() {
    let mut state = RoktrackState::new(1);
    let fx = Fill::new().handle(&mut state, tick(vec![]));
    assert_eq!(
        fx,
        vec![Effect::WorkMotorCw, Effect::Vision(VisionMgmtCommand::SwitchSz640)]
    );
    assert_eq!((state.img_width, state.img_height), (640, 480));
    assert_eq!(state.target_height, 432);
    assert_eq!(state.turn_count, 0);
    assert_eq!(state.msg, 4);
}

#[test]
fn turn_limit_halts() {
    let mut state = RoktrackState::new(1);
    state.turn_count = 10;
    let fx = Fill::new().handle(&mut state, tick(vec![]));
    assert_eq!(
        fx,
        vec![
            Effect::WorkMotorCw,
            Effect::Stop,
            Effect::Speak(Cue::ConeNotFound),
            Effect::Vision(VisionMgmtCommand::Off)
        ]
    );
    assert!(!state.state);
    assert_eq!(state.msg, 9);
    let mut state = RoktrackState::new(1);
    state.turn_count = 7;
    let fx = OneWay::new().handle(&mut state, tick(vec![]));
    assert_eq!(fx[1], Effect::Stop);
    assert!(!state.state);
}

#[test]
fn keep_turn_upscales_after_four() {
    let mut state = RoktrackState::new(1);
    state.turn_count = 5;
    state.ex_height = 100;
    let fx = Fill::new().handle(&mut state, tick(vec![marker(100, 99, 0)]));
    assert_eq!(
        fx,
        vec![
            Effect::WorkMotorCw,
            Effect::Left(500),
            Effect::Vision(VisionMgmtCommand::SwitchSz640)
        ]
    );
    assert_eq!(state.turn_count, 6);
    assert_eq!(state.ex_height, 200);
}

#[test]
fn steering_turns_and_trims() {
    // Marker far left of center: diff = (160 - 40) / 320 = 0.375.
    let mut state = RoktrackState::new(1);
    let fx = Fill::new().handle(&mut state, tick(vec![marker(40, 30, 0)]));
    assert_eq!(
        fx,
        vec![Effect::WorkMotorCw, Effect::Left(100), Effect::AdjustPower(-37_500, 37_500)]
    );
    assert_eq!(state.diff, 375_000);
    // Slightly right: diff = (160 - 180) / 320 = -0.0625.
    let mut state = RoktrackState::new(1);
    let fx = Fill::new().handle(&mut state, tick(vec![marker(180, 30, 0)]));
    assert_eq!(
        fx,
        vec![Effect::WorkMotorCw, Effect::AdjustPower(6_250, -6_250), Effect::Forward(0)]
    );
    assert_eq!(state.diff, -62_500);
    // Close marker (taller than half the frame): aim shifts by 64 pixels.
    let mut state = RoktrackState::new(1);
    let fx = Fill::new().handle(&mut state, tick(vec![marker(224, 130, 0)]));
    assert_eq!(fx, vec![Effect::WorkMotorCw, Effect::Forward(0)]);
    // At 640 width a tall enough marker brings vision back to 320.
    let mut state = RoktrackState::new(1);
    state.img_width = 640;
    state.img_height = 480;
    state.target_height = 432;
    let fx = Fill::new().handle(&mut state, tick(vec![marker(320, 30, 0)]));
    assert_eq!(
        fx,
        vec![
            Effect::WorkMotorCw,
            Effect::Forward(0),
            Effect::Vision(VisionMgmtCommand::SwitchSz320)
        ]
    );
    assert_eq!((state.img_width, state.target_height), (320, 216));
}

#[test]
fn fill_picks_outermost_marker() {
    let mut state = RoktrackState::new(1);
    let fx = Fill::new().handle(&mut state, tick(vec![marker(100, 30, 0), marker(300, 30, 0)]));
    // The rightmost (xc 300) is chosen: diff = (160 - 300) / 320 < -0.15.
    assert_eq!(fx[1], Effect::Right(100));
    let mut state = RoktrackState::new(1);
    state.phase = Phase::CW;
    let fx = Fill::new().handle(&mut state, tick(vec![marker(100, 30, 0), marker(300, 30, 0)]));
    assert_eq!(fx[1], Effect::Left(100));
}

#[test]
fn ocr_locks_first_digit() {
    let mut state = RoktrackState::new(1);
    let mut m = marker(160, 72, 0);
    m.ids = vec![4, 2];
    let mut t = tick(vec![m]);
    t.ocr = true;
    let fx = Fill::new().handle(&mut state, t);
    assert_eq!(
        fx,
        vec![
            Effect::Stop,
            Effect::Wait(5000),
            Effect::Speak(Cue::SwitchOcrMode),
            Effect::Speak(Cue::Target(4)),
            Effect::WorkMotorCw,
            Effect::Forward(0)
        ]
    );
    assert_eq!(state.marker_id, Some(4));
    // Afterwards only markers carrying the digit count.
    let mut other = marker(40, 72, 0);
    other.ids = vec![5];
    let mut t = tick(vec![other]);
    t.ocr = true;
    let fx = Fill::new().handle(&mut state, t);
    assert_eq!(fx, vec![Effect::WorkMotorCw, Effect::Vision(VisionMgmtCommand::SwitchSz640)]);
}

#[test]
fn ocr_pass_through_takes_second_marker() {
    let mut state = RoktrackState::new(1);
    state.marker_id = Some(3);
    state.target_height = 100;
    let mut near = marker(300, 150, 0);
    near.ids = vec![3];
    let mut far = marker(200, 40, 0);
    far.ids = vec![3];
    far.x1 = 190;
    let mut t = tick(vec![near, far]);
    t.ocr = true;
    let fx = Fill::new().handle(&mut state, t);
    // The far marker (xc 200, h 40) is aimed at: diff = (160 - 200) / 320.
    assert_eq!(fx, vec![Effect::WorkMotorCw, Effect::AdjustPower(12_500, -12_500), Effect::Forward(0)]);
    assert_eq!(state.marker_height, 40);
}

#[test]
fn safety_prepass() {
    // Off: stop only.
    let mut state = RoktrackState::new(1);
    state.state = false;
    let fx = Fill::new().handle(&mut state, tick(vec![marker(160, 72, 0)]));
    assert_eq!(fx, vec![Effect::Stop]);
    // Hot: stop and say so, in every mode.
    let mut state = RoktrackState::new(1);
    state.pi_temp = 70_001;
    let expect = vec![Effect::Stop, Effect::Speak(Cue::HighTemp)];
    assert_eq!(Fill::new().handle(&mut state, tick(vec![])), expect);
    assert_eq!(OneWay::new().handle(&mut state, tick(vec![])), expect);
    assert_eq!(FollowPerson::new().handle(&mut state, tick(vec![])), expect);
    assert_eq!(RoundTrip::new().handle(&mut state, tick(vec![])), expect);
    assert_eq!(MonitorPerson::new().handle_at(&mut state, tick(vec![]), 5), expect);
    assert_eq!(MonitorAnimal::new().handle_at(&mut state, tick(vec![]), 5), expect);
    // 70.000 degrees is not above the limit.
    let mut state = RoktrackState::new(1);
    state.pi_temp = 70_000;
    assert_eq!(Fill::new().handle(&mut state, tick(vec![marker(160, 72, 0)]))[0], Effect::WorkMotorCw);
    // Bumped: escape in the lap direction and say so.
    let mut state = RoktrackState::new(1);
    let mut t = tick(vec![marker(160, 72, 0)]);
    t.bumped = true;
    let fx = OneWay::new().handle(&mut state, t);
    assert_eq!(
        fx,
        vec![
            Effect::Backward(2000),
            Effect::Wait(2000),
            Effect::Left(500),
            Effect::Wait(500),
            Effect::Forward(2000),
            Effect::Wait(2000),
            Effect::Right(500),
            Effect::Wait(500),
            Effect::Speak(Cue::Bumped)
        ]
    );
    assert_eq!(state.turn_count, -1);
    // A person in view stops the moving modes; another robot too.
    let mut state = RoktrackState::new(1);
    let fx = Fill::new().handle(&mut state, tick(vec![marker(160, 72, 0), marker(10, 50, 1)]));
    assert_eq!(fx, vec![Effect::Stop, Effect::Speak(Cue::PersonDetecting)]);
    let fx = OneWay::new().handle(&mut state, tick(vec![marker(10, 50, 2)]));
    assert_eq!(fx, vec![Effect::Stop]);
}

#[test]
fn monitor_person_notifies_once_per_minute() {
    let mut state = RoktrackState::new(1);
    let mut h = MonitorPerson::new();
    let now = 1_700_000_000_000u64;
    let fx = h.handle_at(&mut state, tick(vec![marker(100, 80, 1)]), now);
    assert_eq!(
        fx,
        vec![Effect::Speak(Cue::PersonDetectingWarn), Effect::Notify(Alert::Person)]
    );
    assert_eq!(h.last_detected_time, now);
    let fx = h.handle_at(&mut state, tick(vec![marker(100, 80, 1)]), now + 10_000);
    assert_eq!(fx, vec![Effect::Speak(Cue::PersonDetectingWarn)]);
    let fx = h.handle_at(&mut state, tick(vec![marker(100, 80, 1)]), now + 70_000);
    assert_eq!(
        fx,
        vec![Effect::Speak(Cue::PersonDetectingWarn), Effect::Notify(Alert::Person)]
    );
    assert_eq!(h.last_detected_time, now + 70_000);
    // No person, or a frame taken while turning: nothing.
    assert!(h.handle_at(&mut state, tick(vec![marker(100, 80, 0)]), now + 200_000).is_empty());
    let mut t = tick(vec![marker(100, 80, 1)]);
    t.turning = true;
    t.shooting_start_time = 1000;
    t.target_time = 900;
    assert!(h.handle_at(&mut state, t, now + 300_000).is_empty());
    // With the real clock the first sighting is notified.
    let mut h = MonitorPerson::new();
    let fx = h.handle(&mut state, tick(vec![marker(100, 80, 1)]));
    assert_eq!(fx.len(), 2);
    assert!(h.last_detected_time > 0);
}

#[test]
fn monitor_animal_reports_class() {
    let mut state = RoktrackState::new(1);
    let mut h = MonitorAnimal::new();
    let fx = h.handle_at(&mut state, tick(vec![marker(100, 80, 2)]), 100_000);
    assert_eq!(
        fx,
        vec![Effect::Speak(Cue::AnimalDetecting), Effect::Notify(Alert::Animal(2))]
    );
    let fx = h.handle_at(&mut state, tick(vec![marker(100, 80, 2)]), 100_001);
    assert_eq!(fx, vec![Effect::Speak(Cue::AnimalDetecting)]);
    assert!(h.handle_at(&mut state, tick(vec![]), 900_000).is_empty());
}

#[test]
fn follow_person_pauses_on_arrival() {
    let mut state = RoktrackState::new(1);
    let fx = FollowPerson::new().handle(&mut state, tick(vec![marker(160, 230, 1), marker(10, 20, 0)]));
    assert_eq!(fx, vec![Effect::Pause]);
    assert_eq!(state.turn_count, -1);
}

#[test]
fn round_trip_switches_target() {
    let mut state = RoktrackState::new(1);
    let mut h = RoundTrip::new();
    assert_eq!(RoundTripObject::to_cls(h.target_object).to_u32(), 0);
    let fx = h.handle(&mut state, tick(vec![marker(160, 230, 0)]));
    assert_eq!(fx, vec![Effect::Pause, Effect::Speak(Cue::CloseToCone), Effect::Left(500)]);
    assert_eq!(h.target_object, RoundTripObject::Person);
    // A pylon is no longer what it looks for.
    let fx = h.handle(&mut state, tick(vec![marker(160, 230, 0)]));
    assert_eq!(fx, vec![Effect::Left(500)]);
}

#[test]
fn controller_off_then_tick() {
    let (d, fx) = DriveLoop::new(9, Modes::Fill, false, 0);
    assert_eq!(
        fx,
        vec![
            Effect::Vision(VisionMgmtCommand::SwitchSessionPylon),
            Effect::Vision(VisionMgmtCommand::SwitchSz320)
        ]
    );
    let mut d = d.unwrap();
    let (fx, payload) = d.on_detections(tick(vec![marker(160, 72, 0)]), 40_000, 700_000, 700_000);
    assert_eq!(fx, vec![Effect::WorkMotorCw, Effect::Forward(0)]);
    assert_eq!(payload[0] & 0x80, 0x80);
    let fx = d.on_neighbor(controller(0));
    assert_eq!(fx, vec![Effect::Stop, Effect::Vision(VisionMgmtCommand::Off)]);
    assert!(!d.state.state);
    let (fx, payload) = d.on_detections(tick(vec![marker(160, 72, 0)]), 40_000, 700_000, 700_000);
    assert_eq!(fx, vec![Effect::Stop]);
    assert_eq!(payload[0] & 0x80, 0);
    assert_eq!(payload[1], 40);
    assert_eq!(payload[6], 70);
}

#[test]
fn router_switches_mode_only_when_off() {
    let mut state = RoktrackState::new(1);
    let (h, fx) = command_to_handler(&mut state, &controller(11), false);
    assert!(h.is_none() && fx.is_empty());
    let (_, fx) = command_to_handler(&mut state, &controller(0), false);
    assert_eq!(fx.len(), 2);
    let (h, fx) = command_to_handler(&mut state, &controller(11), false);
    assert!(matches!(h, Some(PilotHandler::OneWay(_))));
    assert_eq!(state.mode, Modes::OneWay);
    assert_eq!(
        fx,
        vec![
            Effect::Vision(VisionMgmtCommand::SwitchSessionPylon),
            Effect::Vision(VisionMgmtCommand::SwitchSz320)
        ]
    );
    let (h, _) = command_to_handler(&mut state, &controller(15), true);
    assert!(matches!(h, Some(PilotHandler::MonitorAnimal(_))));
    let (h, fx) = command_to_handler(&mut state, &controller(10), true);
    assert!(matches!(h, Some(PilotHandler::Fill(_))));
    assert_eq!(fx[0], Effect::Vision(VisionMgmtCommand::SwitchSessionPylonOcr));
    // Reserved commands, other peers and directed messages do nothing.
    let (h, fx) = command_to_handler(&mut state, &controller(12), false);
    assert!(h.is_none() && fx.is_empty());
    let mut peer = controller(0);
    peer.identifier = 5;
    state.state = true;
    let (_, fx) = command_to_handler(&mut state, &peer, false);
    assert!(fx.is_empty() && state.state);
    let mut directed = controller(0);
    directed.dest = 3;
    let (_, fx) = command_to_handler(&mut state, &directed, false);
    assert!(fx.is_empty() && state.state);
    // On while on does nothing; Reset only when off.
    let (_, fx) = command_to_handler(&mut state, &controller(1), false);
    assert!(fx.is_empty());
    state.rest = 5;
    let _ = command_to_handler(&mut state, &controller(2), false);
    assert_eq!(state.rest, 5);
    state.state = false;
    let _ = command_to_handler(&mut state, &controller(2), false);
    assert_eq!(state.rest, 1_000_000);
    assert!(mode_to_handler(Modes::Climb, false).0.is_none());
}

#[test]
fn identifier_collision_takes_new_id() {
    let (d, _) = DriveLoop::new(42, Modes::OneWay, false, 0);
    let mut d = d.unwrap();
    let mut peer = controller(255);
    peer.identifier = 42;
    peer.dest = 7;
    let fx = d.on_neighbor(peer);
    assert!(fx.is_empty());
    let (_, _payload) = d.on_detections(tick(vec![]), 0, 0, 0);
    assert_ne!(d.state.identifier, 42);
    assert!(d.state.identifier >= 1 && d.state.identifier <= 249);
}

#[test]
fn drive_motor_trim() {
    assert_eq!(adjust_power(700_000, -37_500), 662_500);
    assert_eq!(adjust_power(990_000, 20_000), 990_000);
    assert_eq!(adjust_power(410_000, -20_000), 410_000);
    assert_eq!(adjust_power(500_000, i64::MIN), 500_000);
}

#[test]
fn monitor_handler_via_enum() {
    let mut state = RoktrackState::new(1);
    let mut h = PilotHandler::MonitorPerson(MonitorPerson::new());
    let fx = h.handle_at(&mut state, tick(vec![marker(10, 10, 1)]), 1_000_000);
    assert_eq!(fx.len(), 2);
    match h {
        PilotHandler::MonitorPerson(m) => assert_eq!(m.last_detected_time, 1_000_000),
        _ => panic!("handler changed"),
    }
    let _ = HashMap::<u8, u8>::new();
}

#[test]
fn vision_commands_set_control() {
    let mut c = VisionControl::new();
    assert!(c.on && c.sessions == SessionSet::Pylon && c.session_type == SessionType::Sz320);
    c.apply(VisionMgmtCommand::Off);
    assert!(!c.on);
    c.apply(VisionMgmtCommand::SwitchSessionPylonOcr);
    assert!(c.support_ocr());
    c.apply(VisionMgmtCommand::SwitchSz640);
    assert_eq!(c.session_type, SessionType::Sz640);
    c.apply(VisionMgmtCommand::On);
    assert!(c.on);
    c.apply(VisionMgmtCommand::SwitchSessionAnimal);
    assert!(!c.support_ocr());
}

#[test]
fn oneway_rest_runs_below_zero() {
    let mut state = RoktrackState::new(1);
    state.rest = -1_000_000;
    state.turn_count = 2;
    state.ex_height = 70;
    let fx = OneWay::new().handle(&mut state, tick(vec![marker(200, 50, 0)]));
    assert_eq!(fx, vec![Effect::WorkMotorCw, Effect::Speak(Cue::NewConeFound)]);
    assert_eq!(state.rest, -1_005_000);
    assert_eq!(state.turn_count, 0);
    // 50 + (216 - 50) * 1.005^2 = 217.66...
    assert_eq!(state.target_height, 217);
    // Far below zero the ramp saturates: toward 0.9 of the height it
    // overshoots to the u16 limit, from above it falls to zero.
    state.rest = -9_000_000_000;
    state.turn_count = 2;
    state.ex_height = 70;
    let _ = OneWay::new().handle(&mut state, tick(vec![marker(200, 50, 0)]));
    assert_eq!(state.target_height, 65535);
    state.rest = i64::MIN + 10;
    state.turn_count = 2;
    state.ex_height = 1000;
    state.img_width = 640;
    state.img_height = 480;
    let _ = OneWay::new().handle(&mut state, tick(vec![marker(300, 500, 0)]));
    assert_eq!(state.rest, i64::MIN);
    assert_eq!(state.target_height, 0);
}

#[test]
fn no_marker_is_blank_detection() {
    let mut state = RoktrackState::new(1);
    let d = determine_pass_through(&state, vec![]);
    assert_eq!(d, Detection::new());
    assert_eq!(first_or_blank(vec![]), Detection::new());
    let mut fx: Vec<Effect> = Vec::new();
    assert_eq!(select_marker(false, &mut state, vec![], &mut fx), Detection::new());
    assert_eq!(select_marker(true, &mut state, vec![], &mut fx), Detection::new());
    assert_eq!(state.marker_id, None);
    assert!(fx.is_empty());
}
