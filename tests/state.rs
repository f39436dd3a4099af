use std::collections::HashMap;

use roktrack::base::{calc_constant, downscale, upscale};
use roktrack::com::Neighbor;
use roktrack::effect::{Effect, VisionMgmtCommand};
use roktrack::modes::{Modes, Phase};
use roktrack::state::RoktrackState;

fn peer(identifier: u8) -> Neighbor {
    Neighbor {
        timestamp: String::new(),
        rssi: 0,
        mac: String::new(),
        manufacturer_id: 0,
        identifier,
        state: true,
        rest: 100,
        pi_temp: 40,
        mode: Modes::Fill,
        msg: 255,
        dest: 255,
    }
}

#[test]
fn roktrack_state_test() {
    let mut state = RoktrackState::new(0);
    // reset test (rest in millionths)
    state.rest = 900_000;
    assert_eq!(state.rest, 900_000);
    state.reset();
    assert_eq!(state.rest, 1_000_000);
    // invert phase test
    assert_eq!(state.phase, Phase::CCW);
    state.invert_phase();
    assert_eq!(state.phase, Phase::CW);
    // dump test: a reset state is on, with rest 100 and a centered steering signal
    let neighbors = HashMap::new();
    assert_eq!(
        state.dump(&neighbors, 0, 0, 0),
        [228, 0, 0, 255, 255, 0, 0, 0, 127, 0, 0, 0, 0, 0, 0, 0, 0, 0, 0, 0, 0, 0, 0,]
    )
}

#[test]
fn reset_equals_fresh_but_identifier() {
    let mut state = RoktrackState::new(42);
    state.state = false;
    state.turn_count = 5;
    state.rest = -3000;
    state.marker_id = Some(7);
    state.img_width = 640;
    state.img_height = 480;
    state.mode = Modes::OneWay;
    state.reset();
    let fresh = RoktrackState::new(42);
    assert_eq!(state.state, fresh.state);
    assert_eq!(state.turn_count, -1);
    assert_eq!(state.rest, 1_000_000);
    assert_eq!(state.marker_id, None);
    assert_eq!((state.img_width, state.img_height), (320, 240));
    assert_eq!(state.mode, Modes::Fill);
    assert_eq!(state.target_height, 216);
    assert_eq!(state.identifier, 42);
}

#[test]
fn calc_constant_test() {
    // Values in millionths: 0.005 is 5000, 0.0025 is 2500.
    assert_eq!(calc_constant(0, 240, 120), 5000);
    assert_eq!(calc_constant(0, 240, 12), 5000);
    assert_eq!(calc_constant(0, 240, 6), 2500);
    assert_eq!(calc_constant(0, 240, 6), 2500);
    assert_eq!(calc_constant(5000, 240, 6), 5000);
}

#[test]
fn scale_test() {
    let mut fx: Vec<Effect> = Vec::new();
    // Initialize a test state
    let mut state = RoktrackState::new(0);
    state.ex_height = 100;

    // Test initial state values
    assert_eq!(state.ex_height, 100);
    assert_eq!(state.target_height, 216);
    assert_eq!(state.img_height, 240);
    assert_eq!(state.img_width, 320);

    // Test upscaling
    upscale(&mut state, &mut fx);
    assert_eq!(state.ex_height, 200);
    assert_eq!(state.target_height, 432);
    assert_eq!(state.img_height, 480);
    assert_eq!(state.img_width, 640);

    // Test downscaling
    downscale(&mut state, &mut fx);
    assert_eq!(state.ex_height, 100);
    assert_eq!(state.target_height, 216);
    assert_eq!(state.img_height, 240);
    assert_eq!(state.img_width, 320);
    assert_eq!(
        fx,
        vec![
            Effect::Vision(VisionMgmtCommand::SwitchSz640),
            Effect::Vision(VisionMgmtCommand::SwitchSz320)
        ]
    );
}

#[test]
fn upscale_twice_then_downscale_halves() {
    let mut fx: Vec<Effect> = Vec::new();
    let mut state = RoktrackState::new(0);
    state.ex_height = 101;
    upscale(&mut state, &mut fx);
    downscale(&mut state, &mut fx);
    assert_eq!(state.ex_height, 101);
    upscale(&mut state, &mut fx);
    upscale(&mut state, &mut fx);
    assert_eq!(state.ex_height, 202);
    downscale(&mut state, &mut fx);
    assert_eq!(state.ex_height, 101);
}

#[test]
fn dump_encodes_fields() {
    let mut state = RoktrackState::new(3);
    state.state = false;
    state.rest = 995_000;
    state.pi_temp = 45_678;
    state.mode = Modes::MonitorAnimal;
    state.msg = 5;
    state.diff = -500_000;
    state.marker_height = 120;
    let neighbors = HashMap::new();
    let p = state.dump(&neighbors, 9, 800_000, 650_000);
    assert_eq!(p.len(), 23);
    assert_eq!(&p[..10], &[99, 45, 5, 5, 255, 9, 80, 65, 63, 50]);
    assert!(p[10..].iter().all(|b| *b == 0));
    state.rest = 50_000;
    state.state = true;
    let p = state.dump(&neighbors, 9, 800_000, 650_000);
    assert_eq!(p[0], 128 + 5);
    state.rest = -4000;
    let p = state.dump(&neighbors, 9, 800_000, 650_000);
    assert_eq!(p[0], 128);
    assert_eq!(state.identifier, 3);
}

#[test]
fn dump_takes_free_identifier_on_collision() {
    let mut state = RoktrackState::new(42);
    let mut neighbors = HashMap::new();
    neighbors.insert(42u8, peer(42));
    neighbors.insert(7u8, peer(7));
    for _ in 0..20 {
        state.identifier = 42;
        let _ = state.dump(&neighbors, 0, 0, 0);
        assert!(state.identifier >= 1 && state.identifier <= 249);
        assert!(!neighbors.contains_key(&state.identifier));
    }
    // Only one identifier left free: it is the one taken.
    let mut all = HashMap::new();
    for id in 1u8..=249 {
        if id != 100 {
            all.insert(id, peer(id));
        }
    }
    state.identifier = 42;
    let _ = state.dump(&all, 0, 0, 0);
    assert_eq!(state.identifier, 100);
    // None free: the identifier stays.
    all.insert(100, peer(100));
    state.identifier = 42;
    let _ = state.dump(&all, 0, 0, 0);
    assert_eq!(state.identifier, 42);
}
