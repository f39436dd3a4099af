//! Base actions shared by the mode handlers, the action table, and the
//! marker selection. Each action changes the pilot state and appends what
//! the device, speaker and vision are to do.
use vstd::prelude::*;
use vstd::arithmetic::div_mod::{lemma_fundamental_div_mod, lemma_fundamental_div_mod_converse};
use crate::com::ChildMsg;
use crate::detection::{Detection, filter_id, is_blank, with_id};
use crate::effect::{Cue, Effect, VisionMgmtCommand};
use crate::modes::Phase;
use crate::state::{
    clamp16, fresh_state, scale_down, scale_up, scaled_down, scaled_up, RoktrackState,
    CONSTANT_MAX,
};

verus! {

/// A new state with the effects that lead to it.
pub type Step = (RoktrackState, Seq<Effect>);

/// Message code of `ChildMsg::ReachTarget`.
pub const MSG_REACH_TARGET: u8 = 3;

/// Message code of `ChildMsg::TargetLost`.
pub const MSG_TARGET_LOST: u8 = 4;

/// Message code of `ChildMsg::NewTargetFound`.
pub const MSG_NEW_TARGET_FOUND: u8 = 5;

/// Message code of `ChildMsg::TargetNotFound`.
pub const MSG_TARGET_NOT_FOUND: u8 = 9;

/// A turn in the lap direction.
pub open spec fn turn_effect(phase: Phase, ms: u64) -> Effect {
    match phase {
        Phase::CCW => Effect::Left(ms),
        Phase::CW => Effect::Right(ms),
    }
}

/// A turn against the lap direction.
pub open spec fn counter_turn_effect(phase: Phase, ms: u64) -> Effect {
    match phase {
        Phase::CCW => Effect::Right(ms),
        Phase::CW => Effect::Left(ms),
    }
}

fn turn(phase: Phase, ms: u64) -> (r: Effect)
    ensures
        r == turn_effect(phase, ms),
{
    match phase {
        Phase::CCW => Effect::Left(ms),
        Phase::CW => Effect::Right(ms),
    }
}

fn counter_turn(phase: Phase, ms: u64) -> (r: Effect)
    ensures
        r == counter_turn_effect(phase, ms),
{
    match phase {
        Phase::CCW => Effect::Right(ms),
        Phase::CW => Effect::Left(ms),
    }
}

/// Stop the drive and work motors.
pub fn stop(fx: &mut Vec<Effect>)
    ensures
        final(fx)@ == old(fx)@.push(Effect::Stop),
{
    fx.push(Effect::Stop);
}

/// Backward, turn, forward, counter-turn: the way out after a bump.
pub open spec fn escape_effects(phase: Phase) -> Seq<Effect> {
    seq![
        Effect::Backward(2000),
        Effect::Wait(2000),
        turn_effect(phase, 500),
        Effect::Wait(500),
        Effect::Forward(2000),
        Effect::Wait(2000),
        counter_turn_effect(phase, 500),
        Effect::Wait(500),
    ]
}

/// Recover from an obstacle.
pub fn escape(state: &RoktrackState, fx: &mut Vec<Effect>)
    ensures
        final(fx)@ == old(fx)@ + escape_effects(state.phase),
{
    fx.push(Effect::Backward(2000));
    fx.push(Effect::Wait(2000));
    fx.push(turn(state.phase, 500));
    fx.push(Effect::Wait(500));
    fx.push(Effect::Forward(2000));
    fx.push(Effect::Wait(2000));
    fx.push(counter_turn(state.phase, 500));
    fx.push(Effect::Wait(500));
    assert(final(fx)@ =~= old(fx)@ + escape_effects(state.phase));
}

pub open spec fn halted(s: RoktrackState) -> Step {
    (
        RoktrackState { state: false, msg: MSG_TARGET_NOT_FOUND, ..s },
        seq![
            Effect::Stop,
            Effect::Speak(Cue::ConeNotFound),
            Effect::Vision(VisionMgmtCommand::Off),
        ],
    )
}

/// Stop, switch off, and report that no marker was found.
pub fn halt(state: &mut RoktrackState, fx: &mut Vec<Effect>)
    requires
        old(state).wf(),
    ensures
        *final(state) == halted(*old(state)).0,
        final(fx)@ == old(fx)@ + halted(*old(state)).1,
        final(state).wf(),
{
    state.state = false;
    state.msg = ChildMsg::to_u8(ChildMsg::TargetNotFound);
    fx.push(Effect::Stop);
    fx.push(Effect::Speak(Cue::ConeNotFound));
    fx.push(Effect::Vision(VisionMgmtCommand::Off));
    assert(final(fx)@ =~= old(fx)@ + halted(*old(state)).1);
}

/// Switch vision to 640x480 and rescale the state.
pub fn upscale(state: &mut RoktrackState, fx: &mut Vec<Effect>)
    requires
        old(state).wf(),
    ensures
        *final(state) == scaled_up(*old(state)),
        final(fx)@ == old(fx)@.push(Effect::Vision(VisionMgmtCommand::SwitchSz640)),
        final(state).wf(),
{
    fx.push(Effect::Vision(VisionMgmtCommand::SwitchSz640));
    scale_up(state);
}

/// Switch vision to 320x240 and rescale the state.
pub fn downscale(state: &mut RoktrackState, fx: &mut Vec<Effect>)
    requires
        old(state).wf(),
    ensures
        *final(state) == scaled_down(*old(state)),
        final(fx)@ == old(fx)@.push(Effect::Vision(VisionMgmtCommand::SwitchSz320)),
        final(state).wf(),
{
    fx.push(Effect::Vision(VisionMgmtCommand::SwitchSz320));
    scale_down(state);
}

/// 110% of the image height.
pub open spec fn beyond_frame(img_height: u32) -> u16 {
    (img_height * 11 / 10) as u16
}

pub open spec fn ex_height_reset(s: RoktrackState) -> Step {
    (
        RoktrackState {
            msg: MSG_TARGET_LOST,
            ex_height: beyond_frame(s.img_height),
            turn_count: (s.turn_count + 1) as i8,
            ..s
        },
        seq![turn_effect(s.phase, 500)],
    )
}

/// The marker is lost while turning: forget its height and keep turning.
pub fn reset_ex_height(state: &mut RoktrackState, fx: &mut Vec<Effect>)
    requires
        old(state).wf(),
        old(state).turn_count < 10,
    ensures
        *final(state) == ex_height_reset(*old(state)).0,
        final(fx)@ == old(fx)@ + ex_height_reset(*old(state)).1,
        final(state).wf(),
{
    state.msg = ChildMsg::to_u8(ChildMsg::TargetLost);
    state.ex_height = (state.img_height * 11 / 10) as u16;
    fx.push(turn(state.phase, 500));
    state.turn_count = state.turn_count + 1;
    assert(final(fx)@ =~= old(fx)@ + ex_height_reset(*old(state)).1);
}

/// The per-marker decrement of `rest`: kept when set, else a tenth of the
/// marker's share of the image height, at most 0.005.
pub open spec fn constant_for(cur: int, img_height: int, marker_height: int) -> int {
    if cur == 0 {
        let c = 100_000 * marker_height / img_height;
        if c < CONSTANT_MAX {
            c
        } else {
            CONSTANT_MAX as int
        }
    } else {
        cur
    }
}

/// Calculate the decrement of `rest` from the first marker's relative size.
pub fn calc_constant(cur_constant: i64, img_height: u32, marker_height: u32) -> (r: i64)
    requires
        img_height > 0,
        0 <= cur_constant <= CONSTANT_MAX,
    ensures
        r as int == constant_for(cur_constant as int, img_height as int, marker_height as int),
        0 <= r <= CONSTANT_MAX,
{
    if cur_constant == 0 {
        let c = (100_000u64 * marker_height as u64 / img_height as u64) as i64;
        if c < CONSTANT_MAX {
            c
        } else {
            CONSTANT_MAX
        }
    } else {
        cur_constant
    }
}

pub open spec fn phase_inverted(s: RoktrackState) -> Step {
    (RoktrackState { phase: Phase::CW, ..fresh_state(s.identifier) }, seq![Effect::Pause])
}

/// Start the clockwise laps: reset the state, lap clockwise, pause.
pub fn invert_phase(state: &mut RoktrackState, fx: &mut Vec<Effect>)
    ensures
        *final(state) == phase_inverted(*old(state)).0,
        final(fx)@ == old(fx)@ + phase_inverted(*old(state)).1,
        final(state).wf(),
{
    state.invert_phase();
    fx.push(Effect::Pause);
    assert(final(fx)@ =~= old(fx)@ + phase_inverted(*old(state)).1);
}

pub open spec fn completed(s: RoktrackState) -> Step {
    (RoktrackState { state: false, ..s }, seq![Effect::Stop])
}

/// The mission is done: switch off and stop.
pub fn mission_complete(state: &mut RoktrackState, fx: &mut Vec<Effect>)
    requires
        old(state).wf(),
    ensures
        *final(state) == completed(*old(state)).0,
        final(fx)@ == old(fx)@ + completed(*old(state)).1,
        final(state).wf(),
{
    state.state = false;
    fx.push(Effect::Stop);
    assert(final(fx)@ =~= old(fx)@ + completed(*old(state)).1);
}

pub open spec fn turn_kept(s: RoktrackState) -> Step {
    let s1 = if s.turn_count > 4 { scaled_up(s) } else { s };
    (
        RoktrackState { turn_count: (s.turn_count + 1) as i8, ..s1 },
        if s.turn_count > 4 {
            seq![turn_effect(s.phase, 500), Effect::Vision(VisionMgmtCommand::SwitchSz640)]
        } else {
            seq![turn_effect(s.phase, 500)]
        },
    )
}

/// Keep turning to search for the next marker; after four turns, look at
/// full resolution.
pub fn keep_turn(state: &mut RoktrackState, fx: &mut Vec<Effect>)
    requires
        old(state).wf(),
        old(state).turn_count < 10,
    ensures
        *final(state) == turn_kept(*old(state)).0,
        final(fx)@ == old(fx)@ + turn_kept(*old(state)).1,
        final(state).wf(),
{
    fx.push(turn(state.phase, 500));
    if state.turn_count > 4 {
        upscale(state, fx);
    }
    state.turn_count = state.turn_count + 1;
    assert(final(fx)@ =~= old(fx)@ + turn_kept(*old(state)).1);
}

/// `rest` after one more marker. It runs on below zero; only the limit of
/// its 64-bit representation holds it, at a depth (over 10^15 markers at the
/// largest decrement) that no mission reaches.
pub open spec fn rest_after(rest: int, constant: int) -> int {
    if rest - constant < i64::MIN {
        i64::MIN as int
    } else {
        rest - constant
    }
}

/// Denominator of the target height ramp: ten for 0.9, and the square of a
/// million for `rest` squared.
pub const RAMP_DENOM: u128 = 10_000_000_000_000;

/// The next target height: from the marker height toward 90% of the image
/// height by `rest` squared, truncated and held to a `u16`.
pub open spec fn target_after(h: int, img_height: int, rest: int) -> u16 {
    clamp16(h + ((9 * img_height - 10 * h) * (rest * rest)) / (RAMP_DENOM as int))
}

fn new_target_height(h: u32, img_height: u32, rest: i64) -> (r: u16)
    requires
        img_height == 240 || img_height == 480,
    ensures
        r == target_after(h as int, img_height as int, rest as int),
{
    let d = RAMP_DENOM;
    let r_abs: u128 = if rest < 0 { (-(rest as i128)) as u128 } else { rest as u128 };
    assert(r_abs <= 0x8000_0000_0000_0000);
    assert(r_abs * r_abs <= 0x8000_0000_0000_0000 * 0x8000_0000_0000_0000) by (nonlinear_arith)
        requires r_abs <= 0x8000_0000_0000_0000;
    let r2: u128 = r_abs * r_abs;
    assert(r2 as int == rest as int * rest as int) by (nonlinear_arith)
        requires r2 == r_abs * r_abs, r_abs as int == rest as int || r_abs as int == -(rest as int);
    let nine: u128 = 9 * img_height as u128;
    let ten: u128 = 10 * h as u128;
    let ghost v = h as int + ((9 * img_height as int - 10 * h as int) * (rest as int * rest as int)) / (d as int);
    if nine >= ten {
        let a = nine - ten;
        let ghost x = a as int * r2 as int;
        assert(x == (9 * img_height as int - 10 * h as int) * (rest as int * rest as int));
        match a.checked_mul(r2) {
            Some(p) => {
                let q = p / d;
                let t = h as u128 + q;
                if t > 65535 {
                    65535
                } else {
                    t as u16
                }
            },
            None => {
                proof {
                    lemma_fundamental_div_mod(x, d as int);
                    let q = x / (d as int);
                    let m = x % (d as int);
                    assert(q >= 65536) by (nonlinear_arith)
                        requires x == (d as int) * q + m, 0 <= m < d as int, d as int == 10_000_000_000_000,
                            x > u128::MAX;
                }
                65535
            },
        }
    } else {
        let a = ten - nine;
        let ghost x = a as int * r2 as int;
        assert(-x == (9 * img_height as int - 10 * h as int) * (rest as int * rest as int)) by (nonlinear_arith)
            requires x == a as int * r2 as int, a as int == 10 * h as int - 9 * img_height as int,
                r2 as int == rest as int * rest as int;
        match a.checked_mul(r2) {
            Some(p) => {
                let qq = p / d;
                let m = p % d;
                let q = if m == 0 { qq } else { qq + 1 };
                proof {
                    assert(p as int == qq as int * (d as int) + m as int);
                    if m == 0 {
                        lemma_fundamental_div_mod_converse(-x, d as int, -(qq as int), 0);
                    } else {
                        lemma_fundamental_div_mod_converse(
                            -x,
                            d as int,
                            -(qq as int) - 1,
                            d as int - m as int,
                        );
                    }
                    assert(v == h as int - q as int);
                }
                if q > h as u128 {
                    0
                } else {
                    let t = h as u128 - q;
                    if t > 65535 {
                        65535
                    } else {
                        t as u16
                    }
                }
            },
            None => {
                proof {
                    lemma_fundamental_div_mod(-x, d as int);
                    let q = (-x) / (d as int);
                    let m = (-x) % (d as int);
                    assert(q <= -0x1_0000_0000) by (nonlinear_arith)
                        requires -x == (d as int) * q + m, 0 <= m < d as int, d as int == 10_000_000_000_000,
                            x > u128::MAX;
                    assert(v < 0);
                }
                0
            },
        }
    }
}

pub open spec fn target_set(s: RoktrackState, h: u32) -> Step {
    let rest = rest_after(s.rest as int, s.constant as int);
    (
        RoktrackState {
            msg: MSG_NEW_TARGET_FOUND,
            rest: rest as i64,
            target_height: target_after(h as int, s.img_height as int, rest),
            turn_count: 0,
            ..s
        },
        seq![Effect::Speak(Cue::NewConeFound)],
    )
}

/// Take the marker found while turning as the next target.
pub fn set_new_target(state: &mut RoktrackState, fx: &mut Vec<Effect>, marker_h: u32)
    requires
        old(state).wf(),
    ensures
        *final(state) == target_set(*old(state), marker_h).0,
        final(fx)@ == old(fx)@ + target_set(*old(state), marker_h).1,
        final(state).wf(),
{
    state.msg = ChildMsg::to_u8(ChildMsg::NewTargetFound);
    fx.push(Effect::Speak(Cue::NewConeFound));
    state.rest = if state.rest >= i64::MIN + state.constant {
        state.rest - state.constant
    } else {
        i64::MIN
    };
    state.target_height = new_target_height(marker_h, state.img_height, state.rest);
    state.turn_count = 0;
    assert(final(fx)@ =~= old(fx)@ + target_set(*old(state), marker_h).1);
}

pub open spec fn stood(s: RoktrackState) -> Step {
    (
        RoktrackState { msg: MSG_TARGET_LOST, turn_count: 0, ..scaled_up(s) },
        seq![Effect::Vision(VisionMgmtCommand::SwitchSz640)],
    )
}

/// Hold position and look again at full resolution.
pub fn stand(state: &mut RoktrackState, fx: &mut Vec<Effect>)
    requires
        old(state).wf(),
    ensures
        *final(state) == stood(*old(state)).0,
        final(fx)@ == old(fx)@ + stood(*old(state)).1,
        final(state).wf(),
{
    upscale(state, fx);
    state.msg = ChildMsg::to_u8(ChildMsg::TargetLost);
    state.turn_count = 0;
    assert(final(fx)@ =~= old(fx)@ + stood(*old(state)).1);
}

pub open spec fn turn_started(s: RoktrackState) -> Step {
    (
        RoktrackState {
            turn_count: 1,
            ex_height: beyond_frame(s.img_height),
            target_height: 0,
            ..s
        },
        seq![turn_effect(s.phase, 500)],
    )
}

/// Start turning to search for the next marker.
pub fn start_turn(state: &mut RoktrackState, fx: &mut Vec<Effect>)
    requires
        old(state).wf(),
    ensures
        *final(state) == turn_started(*old(state)).0,
        final(fx)@ == old(fx)@ + turn_started(*old(state)).1,
        final(state).wf(),
{
    fx.push(turn(state.phase, 500));
    state.turn_count = 1;
    state.ex_height = (state.img_height * 11 / 10) as u16;
    state.target_height = 0;
    assert(final(fx)@ =~= old(fx)@ + turn_started(*old(state)).1);
}

pub open spec fn marker_reached(s: RoktrackState, h: u32) -> Step {
    (
        RoktrackState {
            turn_count: 1,
            ex_height: clamp16(h as int),
            target_height: 0,
            msg: MSG_REACH_TARGET,
            ..s
        },
        seq![Effect::Pause, Effect::Speak(Cue::CloseToCone), turn_effect(s.phase, 500)],
    )
}

/// The marker is reached: pause, remember its height, and turn toward the
/// next one.
pub fn reach_marker(state: &mut RoktrackState, fx: &mut Vec<Effect>, marker_h: u32)
    requires
        old(state).wf(),
    ensures
        *final(state) == marker_reached(*old(state), marker_h).0,
        final(fx)@ == old(fx)@ + marker_reached(*old(state), marker_h).1,
        final(state).wf(),
{
    fx.push(Effect::Pause);
    state.turn_count = 1;
    state.ex_height = if marker_h > 65535 { 65535 } else { marker_h as u16 };
    state.target_height = 0;
    state.msg = ChildMsg::to_u8(ChildMsg::ReachTarget);
    fx.push(Effect::Speak(Cue::CloseToCone));
    fx.push(turn(state.phase, 500));
    assert(final(fx)@ =~= old(fx)@ + marker_reached(*old(state), marker_h).1);
}

/// The horizontal gap, in pixels, between the aim point and the marker
/// center. Close to a marker (taller than half the image) the aim point
/// moves by a fifth of the width in the lap direction. Divided by the width
/// this is the steering signal.
pub open spec fn gap(s: RoktrackState, h: u32, xc: u32) -> int {
    let off = if 2 * h > s.img_height { s.img_width as int / 5 } else { 0 };
    let signed = match s.phase {
        Phase::CCW => off,
        Phase::CW => -off,
    };
    s.img_width as int / 2 - xc as int + signed
}

pub open spec fn abs(n: int) -> int {
    if n < 0 {
        -n
    } else {
        n
    }
}

/// The steering signal in millionths, truncated toward zero.
pub open spec fn diff_of(n: int, w: int) -> int {
    if n < 0 {
        -(abs(n) * 1_000_000 / w)
    } else {
        n * 1_000_000 / w
    }
}

/// Steering for a gap `n` in an image `w` wide: beyond 0.15 of the width
/// turn briefly toward the marker, beyond 0.03 trim and go on, else go
/// straight. The trim is a tenth of the signal, in millionths.
pub open spec fn steering(n: int, w: int) -> Seq<Effect> {
    let v = (abs(n) * 100_000 / w) as i64;
    let m = (-(abs(n) * 100_000 / w)) as i64;
    if 20 * n > 3 * w {
        seq![Effect::Left(100), Effect::AdjustPower(m, v)]
    } else if 100 * n > 3 * w {
        seq![Effect::AdjustPower(m, v), Effect::Forward(0)]
    } else if 20 * n < -3 * w {
        seq![Effect::Right(100), Effect::AdjustPower(v, m)]
    } else if 100 * n < -3 * w {
        seq![Effect::AdjustPower(v, m), Effect::Forward(0)]
    } else {
        seq![Effect::Forward(0)]
    }
}

pub open spec fn proceeded(s: RoktrackState, h: u32, xc: u32) -> Step {
    let n = gap(s, h, xc);
    let s1 = RoktrackState { diff: diff_of(n, s.img_width as int) as i64, marker_height: h, ..s };
    if 20 * h > s.img_height && s.img_width == 640 {
        (scaled_down(s1), steering(n, s.img_width as int).push(
            Effect::Vision(VisionMgmtCommand::SwitchSz320),
        ))
    } else {
        (s1, steering(n, s.img_width as int))
    }
}

/// Steer toward the marker; once it is large enough at 640 width, go back
/// to 320.
pub fn proceed(state: &mut RoktrackState, fx: &mut Vec<Effect>, marker_h: u32, marker_xc: u32)
    requires
        old(state).wf(),
    ensures
        *final(state) == proceeded(*old(state), marker_h, marker_xc).0,
        final(fx)@ == old(fx)@ + proceeded(*old(state), marker_h, marker_xc).1,
        final(state).wf(),
{
    let w = state.img_width as i64;
    let off: i64 = if 2 * (marker_h as u64) > state.img_height as u64 { w / 5 } else { 0 };
    let signed = match state.phase {
        Phase::CCW => off,
        Phase::CW => -off,
    };
    let n: i64 = w / 2 - marker_xc as i64 + signed;
    assert(n as int == gap(*old(state), marker_h, marker_xc));
    let mag: i64 = if n < 0 { -n } else { n };
    assert(mag <= 5_000_000_000);
    let v: i64 = mag * 100_000 / w;
    let big: i64 = mag * 1_000_000;
    let q: i64 = big / w;
    assert(q <= big) by (nonlinear_arith)
        requires q == big / w, w >= 1, big >= 0;
    let d: i64 = if n < 0 { -q } else { q };
    let t3: i64 = 3 * w;
    let ghost fx0 = fx@;
    if 20 * n > 3 * w {
        fx.push(Effect::Left(100));
        fx.push(Effect::AdjustPower(-v, v));
    } else if 100 * n > 3 * w {
        fx.push(Effect::AdjustPower(-v, v));
        fx.push(Effect::Forward(0));
    } else if 20 * n < -t3 {
        fx.push(Effect::Right(100));
        fx.push(Effect::AdjustPower(v, -v));
    } else if 100 * n < -t3 {
        fx.push(Effect::AdjustPower(v, -v));
        fx.push(Effect::Forward(0));
    } else {
        fx.push(Effect::Forward(0));
    }
    assert(fx@ =~= fx0 + steering(n as int, w as int));
    state.diff = d;
    state.marker_height = marker_h;
    if 20 * (marker_h as u64) > state.img_height as u64 && state.img_width == 640 {
        downscale(state, fx);
    }
    assert(final(fx)@ =~= old(fx)@ + proceeded(*old(state), marker_h, marker_xc).1);
}

/// The decisions of the action table.
#[derive(Debug, Clone, Copy, PartialEq, Eq, Structural)]
pub enum ActPhase {
    TurnCountExceeded,
    TurnMarkerInvisible,
    TurnMarkerFound,
    InvertPhase,
    MissionComplete,
    TurnKeep,
    Stand,
    StartTurn,
    ReachMarker,
    Proceed,
}

/// Whether a marker of height `h` is lower, by more than 1.5% of the image
/// height, than the last one: the robot has turned past that one.
pub open spec fn past_last(s: RoktrackState, h: u32) -> bool {
    1000 * h + 15 * s.img_height < 1000 * s.ex_height
}

/// The action table. `cap` is the mode's turn limit; `laps` is set for the
/// mode that laps counterclockwise and then clockwise.
pub open spec fn action_of(cap: i8, laps: bool, s: RoktrackState, h: u32) -> Option<ActPhase> {
    if s.turn_count >= cap {
        Some(ActPhase::TurnCountExceeded)
    } else if s.turn_count > 0 {
        if h == 0 {
            Some(ActPhase::TurnMarkerInvisible)
        } else if past_last(s, h) {
            if laps && s.rest < 0 {
                match s.phase {
                    Phase::CW => Some(ActPhase::MissionComplete),
                    Phase::CCW => Some(ActPhase::InvertPhase),
                }
            } else {
                Some(ActPhase::TurnMarkerFound)
            }
        } else {
            Some(ActPhase::TurnKeep)
        }
    } else if h == 0 {
        if s.turn_count == -1 {
            Some(ActPhase::Stand)
        } else if s.turn_count == 0 {
            Some(ActPhase::StartTurn)
        } else {
            None
        }
    } else if h >= s.target_height {
        Some(ActPhase::ReachMarker)
    } else {
        Some(ActPhase::Proceed)
    }
}

/// Assess the situation and decide the action.
pub fn assess_situation(cap: i8, laps: bool, state: &RoktrackState, marker_h: u32) -> (r: Option<ActPhase>)
    requires
        state.wf(),
    ensures
        r == action_of(cap, laps, *state, marker_h),
{
    if state.turn_count >= cap {
        Some(ActPhase::TurnCountExceeded)
    } else if state.turn_count > 0 {
        if marker_h == 0 {
            Some(ActPhase::TurnMarkerInvisible)
        } else if 1000 * (marker_h as u64) + 15 * (state.img_height as u64) < 1000 * (state.ex_height as u64) {
            if laps && state.rest < 0 {
                match state.phase {
                    Phase::CW => Some(ActPhase::MissionComplete),
                    Phase::CCW => Some(ActPhase::InvertPhase),
                }
            } else {
                Some(ActPhase::TurnMarkerFound)
            }
        } else {
            Some(ActPhase::TurnKeep)
        }
    } else if marker_h == 0 {
        if state.turn_count == -1 {
            Some(ActPhase::Stand)
        } else if state.turn_count == 0 {
            Some(ActPhase::StartTurn)
        } else {
            None
        }
    } else if marker_h >= state.target_height as u32 {
        Some(ActPhase::ReachMarker)
    } else {
        Some(ActPhase::Proceed)
    }
}

/// Height of a selected marker; 0 when there is none.
pub open spec fn h_of(m: Option<Detection>) -> u32 {
    match m {
        Some(d) => d.h,
        None => 0,
    }
}

/// Center of a selected marker; 0 when there is none.
pub open spec fn xc_of(m: Option<Detection>) -> u32 {
    match m {
        Some(d) => d.xc,
        None => 0,
    }
}

/// Whether `r` stands for the selection `m`: the selected detection, or
/// the empty one when there is none.
pub open spec fn stands_for(r: Detection, m: Option<Detection>) -> bool {
    &&& r.h == h_of(m)
    &&& r.xc == xc_of(m)
    &&& m matches Some(d) ==> r == d
    &&& m is None ==> is_blank(r)
}

/// The marker to aim at among sorted candidates. When the nearest one is
/// already above the target height and the second lies on the inner side
/// of the frame, the second is taken so that the robot passes the first.
pub open spec fn pass_through(s: RoktrackState, d: Seq<Detection>) -> Option<Detection> {
    if d.len() == 0 {
        None
    } else if d.len() == 1 {
        Some(d[0])
    } else if d[0].h > s.target_height {
        match s.phase {
            Phase::CCW => if d[1].x1 > s.img_width / 3 {
                Some(d[1])
            } else {
                Some(d[0])
            },
            Phase::CW => if d[1].x1 < s.img_width * 2 / 3 {
                Some(d[1])
            } else {
                Some(d[0])
            },
        }
    } else {
        Some(d[0])
    }
}

/// Decide on pass-through among sorted candidates.
pub fn determine_pass_through(state: &RoktrackState, detections: Vec<Detection>) -> (r: Detection)
    requires
        state.wf(),
    ensures
        stands_for(r, pass_through(*state, detections@)),
{
    let mut dets = detections;
    if dets.len() == 0 {
        Detection::new()
    } else if dets.len() == 1 {
        dets.remove(0)
    } else {
        let second = if dets[0].h > state.target_height as u32 {
            match state.phase {
                Phase::CCW => dets[1].x1 > state.img_width / 3,
                Phase::CW => dets[1].x1 < state.img_width * 2 / 3,
            }
        } else {
            false
        };
        if second {
            dets.remove(1)
        } else {
            dets.remove(0)
        }
    }
}

/// The first candidate, if any.
pub open spec fn first_of(d: Seq<Detection>) -> Option<Detection> {
    if d.len() == 0 {
        None
    } else {
        Some(d[0])
    }
}

/// Take the first candidate, or the empty detection.
pub fn first_or_blank(detections: Vec<Detection>) -> (r: Detection)
    ensures
        stands_for(r, first_of(detections@)),
{
    let mut dets = detections;
    if dets.len() == 0 {
        Detection::new()
    } else {
        dets.remove(0)
    }
}

/// Marker selection with its effects. Without OCR it is the first
/// candidate. With OCR and no digit locked yet, the first candidate's first
/// digit is locked (after a stop and a pause) and that candidate taken;
/// once a digit is locked only candidates that carry it count, with
/// pass-through.
pub open spec fn selection(ocr: bool, s: RoktrackState, d: Seq<Detection>) -> (RoktrackState, Seq<Effect>, Option<Detection>) {
    if ocr {
        if s.marker_id is None && d.len() > 0 {
            if d[0].ids@.len() > 0 {
                let id = d[0].ids@[0];
                (
                    RoktrackState { marker_id: Some(id), ..s },
                    seq![
                        Effect::Stop,
                        Effect::Wait(5000),
                        Effect::Speak(Cue::SwitchOcrMode),
                        Effect::Speak(Cue::Target(id)),
                    ],
                    Some(d[0]),
                )
            } else {
                (s, Seq::empty(), Some(d[0]))
            }
        } else {
            match s.marker_id {
                Some(id) => (s, Seq::empty(), pass_through(s, with_id(d, id))),
                None => (s, Seq::empty(), None),
            }
        }
    } else {
        (s, Seq::empty(), first_of(d))
    }
}

/// Select one marker among the sorted detections.
pub fn select_marker(ocr: bool, state: &mut RoktrackState, detections: Vec<Detection>, fx: &mut Vec<Effect>) -> (r: Detection)
    requires
        old(state).wf(),
    ensures
        *final(state) == selection(ocr, *old(state), detections@).0,
        final(fx)@ == old(fx)@ + selection(ocr, *old(state), detections@).1,
        stands_for(r, selection(ocr, *old(state), detections@).2),
        final(state).wf(),
{
    let ghost fx0 = fx@;
    if ocr {
        if state.marker_id.is_none() && detections.len() > 0 {
            let mut dets = detections;
            let first = dets.remove(0);
            if first.ids.len() > 0 {
                let id = first.ids[0];
                fx.push(Effect::Stop);
                fx.push(Effect::Wait(5000));
                fx.push(Effect::Speak(Cue::SwitchOcrMode));
                fx.push(Effect::Speak(Cue::Target(id)));
                state.marker_id = Some(id);
                assert(fx@ =~= fx0 + selection(ocr, *old(state), detections@).1);
            } else {
                assert(fx@ =~= fx0 + Seq::empty());
            }
            first
        } else {
            assert(fx@ =~= fx0 + Seq::empty());
            match state.marker_id {
                Some(id) => {
                    let with = filter_id(detections, id);
                    determine_pass_through(state, with)
                },
                None => Detection::new(),
            }
        }
    } else {
        assert(fx@ =~= fx0 + Seq::empty());
        first_or_blank(detections)
    }
}

} // verus!
