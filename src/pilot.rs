//! The mode handlers. Each one runs the safety pre-pass, picks a marker and
//! acts by the action table; `handle` returns the effects for the drive loop
//! to perform, in order.
use vstd::prelude::*;
use crate::base::{
    first_of, first_or_blank,
    action_of, assess_situation, calc_constant, completed, constant_for, escape, escape_effects,
    ex_height_reset, h_of, halt, halted, invert_phase, keep_turn, marker_reached,
    mission_complete, past_last, phase_inverted, proceed, proceeded, reach_marker, reset_ex_height,
    select_marker, selection, set_new_target, stand, start_turn, stood, stop, target_set,
    turn_kept, turn_started, xc_of, ActPhase, Step,
};
use crate::detection::{
    Detection, RoktrackClasses, roktrack_class_id, PERSON_CLASS, PYLON_CLASS, ROBOT_CLASS, SortKey, any_of_class, filter_class,
    has_class, of_class, sorted_by,
};
use crate::effect::{Alert, Cue, Effect, ends_idle};
use crate::effect::VisionMgmtCommand;
use crate::modes::Phase;
use crate::clock::now_millis;
use crate::sort;
use crate::state::{RoktrackState, CONSTANT_MAX};

verus! {

/// SoC temperature above which the robot stops, in thousandths of a degree.
pub const HIGH_TEMP: i32 = 70_000;

/// Turn limit of the Fill mode.
pub const FILL_CAP: i8 = 10;

/// Turn limit of the other moving modes.
pub const ONEWAY_CAP: i8 = 7;

/// Milliseconds between two notifications of the monitor modes.
pub const ALERT_INTERVAL: u64 = 60_000;

/// Milliseconds after the end of a turn before a frame counts as still.
pub const SETTLE_TIME: u64 = 300;

/// What one tick hands a handler besides the state.
pub struct Tick {
    /// The detection batch of this tick.
    pub detections: Vec<Detection>,
    /// Whether the bump switch is pressed.
    pub bumped: bool,
    /// Whether markers carry digits to lock onto.
    pub ocr: bool,
    /// When the frame was taken, in milliseconds.
    pub shooting_start_time: u64,
    /// Whether a turn is under way.
    pub turning: bool,
    /// When the motion under way ends, in milliseconds.
    pub target_time: u64,
}

/// System risks.
#[derive(Debug, Clone, Copy, PartialEq, Eq, Structural)]
pub enum SystemRisk {
    StateOff,
    HighTemp,
    Bumped,
}

/// The first system risk in order; the bump switch counts only for the
/// moving modes.
pub open spec fn system_risk_of(s: RoktrackState, bumped: bool, moving: bool) -> Option<SystemRisk> {
    if !s.state {
        Some(SystemRisk::StateOff)
    } else if s.pi_temp > HIGH_TEMP {
        Some(SystemRisk::HighTemp)
    } else if moving && bumped {
        Some(SystemRisk::Bumped)
    } else {
        None
    }
}

pub open spec fn system_risk_effects(r: SystemRisk, phase: Phase) -> Seq<Effect> {
    match r {
        SystemRisk::StateOff => seq![Effect::Stop],
        SystemRisk::HighTemp => seq![Effect::Stop, Effect::Speak(Cue::HighTemp)],
        SystemRisk::Bumped => escape_effects(phase).push(Effect::Speak(Cue::Bumped)),
    }
}

/// Identify system risks.
pub fn assess_system_risk(state: &RoktrackState, bumped: bool, moving: bool) -> (r: Option<SystemRisk>)
    ensures
        r == system_risk_of(*state, bumped, moving),
{
    if !state.state {
        Some(SystemRisk::StateOff)
    } else if state.pi_temp > HIGH_TEMP {
        Some(SystemRisk::HighTemp)
    } else if moving && bumped {
        Some(SystemRisk::Bumped)
    } else {
        None
    }
}

/// Handle a system risk.
pub fn handle_system_risk(r: SystemRisk, state: &RoktrackState, fx: &mut Vec<Effect>)
    ensures
        final(fx)@ == old(fx)@ + system_risk_effects(r, state.phase),
{
    match r {
        SystemRisk::StateOff => {
            stop(fx);
        },
        SystemRisk::HighTemp => {
            stop(fx);
            fx.push(Effect::Speak(Cue::HighTemp));
        },
        SystemRisk::Bumped => {
            escape(state, fx);
            fx.push(Effect::Speak(Cue::Bumped));
        },
    }
    assert(final(fx)@ =~= old(fx)@ + system_risk_effects(r, state.phase));
}

/// Vision risks.
#[derive(Debug, Clone, Copy, PartialEq, Eq, Structural)]
pub enum VisionRisk {
    PersonDetected,
    RoktrackDetected,
}

pub open spec fn vision_risk_of(d: Seq<Detection>) -> Option<VisionRisk> {
    if has_class(d, PERSON_CLASS) {
        Some(VisionRisk::PersonDetected)
    } else if has_class(d, ROBOT_CLASS) {
        Some(VisionRisk::RoktrackDetected)
    } else {
        None
    }
}

pub open spec fn vision_risk_effects(r: VisionRisk) -> Seq<Effect> {
    match r {
        VisionRisk::PersonDetected => seq![Effect::Stop, Effect::Speak(Cue::PersonDetecting)],
        VisionRisk::RoktrackDetected => seq![Effect::Stop],
    }
}

/// Identify vision risks.
pub fn assess_vision_risk(dets: &[Detection]) -> (r: Option<VisionRisk>)
    ensures
        r == vision_risk_of(dets@),
{
    if any_of_class(dets, PERSON_CLASS) {
        Some(VisionRisk::PersonDetected)
    } else if any_of_class(dets, ROBOT_CLASS) {
        Some(VisionRisk::RoktrackDetected)
    } else {
        None
    }
}

/// What an action does to the state, with its effects.
pub open spec fn acted(a: Option<ActPhase>, s: RoktrackState, m: Option<Detection>) -> Step {
    match a {
        None => (s, Seq::empty()),
        Some(ActPhase::TurnCountExceeded) => halted(s),
        Some(ActPhase::TurnMarkerInvisible) => ex_height_reset(s),
        Some(ActPhase::TurnMarkerFound) => target_set(s, h_of(m)),
        Some(ActPhase::InvertPhase) => phase_inverted(s),
        Some(ActPhase::MissionComplete) => completed(s),
        Some(ActPhase::TurnKeep) => turn_kept(s),
        Some(ActPhase::Stand) => stood(s),
        Some(ActPhase::StartTurn) => turn_started(s),
        Some(ActPhase::ReachMarker) => marker_reached(s, h_of(m)),
        Some(ActPhase::Proceed) => proceeded(s, h_of(m), xc_of(m)),
    }
}

/// Perform the action that the table chose.
fn act(
    a: Option<ActPhase>,
    state: &mut RoktrackState,
    fx: &mut Vec<Effect>,
    marker: &Detection,
    Ghost(cap): Ghost<i8>,
    Ghost(laps): Ghost<bool>,
    Ghost(m): Ghost<Option<Detection>>,
)
    requires
        old(state).wf(),
        cap <= FILL_CAP,
        marker.h == h_of(m),
        marker.xc == xc_of(m),
        a == action_of(cap, laps, *old(state), marker.h),
    ensures
        *final(state) == acted(a, *old(state), m).0,
        final(fx)@ == old(fx)@ + acted(a, *old(state), m).1,
        final(state).wf(),
{
    let ghost fx0 = fx@;
    match a {
        None => {
            assert(fx@ =~= fx0 + Seq::empty());
        },
        Some(ActPhase::TurnCountExceeded) => halt(state, fx),
        Some(ActPhase::TurnMarkerInvisible) => reset_ex_height(state, fx),
        Some(ActPhase::TurnMarkerFound) => set_new_target(state, fx, marker.h),
        Some(ActPhase::InvertPhase) => invert_phase(state, fx),
        Some(ActPhase::MissionComplete) => mission_complete(state, fx),
        Some(ActPhase::TurnKeep) => keep_turn(state, fx),
        Some(ActPhase::Stand) => stand(state, fx),
        Some(ActPhase::StartTurn) => start_turn(state, fx),
        Some(ActPhase::ReachMarker) => reach_marker(state, fx, marker.h),
        Some(ActPhase::Proceed) => proceed(state, fx, marker.h, marker.xc),
    }
}

/// The sort key of the lap direction: the outermost marker first.
pub open spec fn lap_key(phase: Phase) -> SortKey {
    match phase {
        Phase::CCW => SortKey::Right,
        Phase::CW => SortKey::Left,
    }
}

/// One tick of the Fill mode.
pub open spec fn fill_step(s: RoktrackState, t: Tick) -> Step {
    match system_risk_of(s, t.bumped, true) {
        Some(r) => (s, system_risk_effects(r, s.phase)),
        None => match vision_risk_of(t.detections@) {
            Some(v) => (s, vision_risk_effects(v)),
            None => {
                let sorted = sorted_by(t.detections@, lap_key(s.phase));
                let sel = selection(t.ocr, s, sorted);
                let m = sel.2;
                let s2 = RoktrackState {
                    constant: constant_for(sel.0.constant as int, sel.0.img_height as int, h_of(m) as int) as i64,
                    ..sel.0
                };
                let done = acted(action_of(FILL_CAP, true, s2, h_of(m)), s2, m);
                (done.0, sel.1.push(Effect::WorkMotorCw) + done.1)
            },
        },
    }
}

/// Perimeter fill: counterclockwise laps, then clockwise ones, spiraling
/// inward as `rest` runs down.
#[derive(Debug, Clone, Copy)]
pub struct Fill {}

impl Fill {
    pub fn new() -> (r: Fill) {
        Fill {}
    }

    pub fn handle(&mut self, state: &mut RoktrackState, tick: Tick) -> (r: Vec<Effect>)
        requires
            old(state).wf(),
        ensures
            (*final(state), r@) == fill_step(*old(state), tick),
            final(state).wf(),
            !final(state).state ==> ends_idle(r@),
            old(state).rest >= -CONSTANT_MAX ==> final(state).rest >= -CONSTANT_MAX,
    {
        let mut fx: Vec<Effect> = Vec::new();
        let ghost s0 = *state;
        match assess_system_risk(state, tick.bumped, true) {
            Some(r) => {
                handle_system_risk(r, state, &mut fx);
                proof { lemma_risk_idle(r, s0, fx@); }
                return fx;
            },
            None => {},
        }
        match assess_vision_risk(tick.detections.as_slice()) {
            Some(v) => {
                match v {
                    VisionRisk::PersonDetected => {
                        stop(&mut fx);
                        fx.push(Effect::Speak(Cue::PersonDetecting));
                    },
                    VisionRisk::RoktrackDetected => {
                        stop(&mut fx);
                    },
                }
                assert(fx@ =~= vision_risk_effects(v));
                return fx;
            },
            None => {},
        }
        let ghost dets0 = tick.detections@;
        let dets = match state.phase {
            Phase::CCW => sort::right(tick.detections),
            Phase::CW => sort::left(tick.detections),
        };
        assert(dets@ == sorted_by(dets0, lap_key(s0.phase)));
        let marker = select_marker(tick.ocr, state, dets, &mut fx);
        let ghost sel = selection(tick.ocr, s0, sorted_by(dets0, lap_key(s0.phase)));
        fx.push(Effect::WorkMotorCw);
        state.constant = calc_constant(state.constant, state.img_height, marker.h);
        let ghost s2 = *state;
        let ghost fx1 = fx@;
        let action = assess_situation(FILL_CAP, true, state, marker.h);
        act(action, state, &mut fx, &marker, Ghost(FILL_CAP), Ghost(true), Ghost(sel.2));
        proof {
            assert(fx@ =~= sel.1.push(Effect::WorkMotorCw) + acted(action, s2, sel.2).1);
            lemma_acted_idle(action, s2, sel.2, fx1);
            if s0.rest >= -CONSTANT_MAX {
                lemma_acted_rest(FILL_CAP, true, s2, sel.2);
            }
        }
        fx
    }
}

proof fn lemma_risk_idle(r: SystemRisk, s: RoktrackState, fx: Seq<Effect>)
    requires
        fx == system_risk_effects(r, s.phase),
    ensures
        r == SystemRisk::StateOff ==> ends_idle(fx),
{
    if r == SystemRisk::StateOff {
        assert(fx[0] is Stop);
    }
}

/// When an action leaves the robot off, its effects end with the drive
/// motors idle, whatever came before.
proof fn lemma_acted_idle(a: Option<ActPhase>, s: RoktrackState, m: Option<Detection>, pre: Seq<Effect>)
    requires
        s.state,
    ensures
        !acted(a, s, m).0.state ==> ends_idle(pre + acted(a, s, m).1),
{
    let fx = pre + acted(a, s, m).1;
    if !acted(a, s, m).0.state {
        assert(a == Some(ActPhase::TurnCountExceeded) || a == Some(ActPhase::MissionComplete));
        assert(fx[pre.len() as int] is Stop);
    }
}

/// In the lapping mode `rest` goes below zero by at most one decrement.
proof fn lemma_acted_rest(cap: i8, laps: bool, s: RoktrackState, m: Option<Detection>)
    requires
        s.wf(),
        laps,
        s.rest >= -CONSTANT_MAX,
    ensures
        acted(action_of(cap, laps, s, h_of(m)), s, m).0.rest >= -CONSTANT_MAX,
{
}


/// One turn of the table keeps the turn counter within the cap.
proof fn lemma_acted_turns(cap: i8, laps: bool, s: RoktrackState, m: Option<Detection>)
    requires
        s.wf(),
        1 <= cap <= FILL_CAP,
        -1 <= s.turn_count <= cap,
    ensures
        -1 <= acted(action_of(cap, laps, s, h_of(m)), s, m).0.turn_count <= cap,
{
}

/// The key of the OneWay mode: on the first turn the farther, shorter
/// marker first, else the outermost one.
pub open spec fn oneway_key(s: RoktrackState) -> SortKey {
    if s.turn_count == 1 {
        SortKey::Small
    } else {
        lap_key(s.phase)
    }
}

/// One tick of the OneWay mode.
pub open spec fn oneway_step(s: RoktrackState, t: Tick) -> Step {
    match system_risk_of(s, t.bumped, true) {
        Some(r) => (s, system_risk_effects(r, s.phase)),
        None => match vision_risk_of(t.detections@) {
            Some(v) => (s, vision_risk_effects(v)),
            None => {
                let m = first_of(sorted_by(t.detections@, oneway_key(s)));
                let done = acted(action_of(ONEWAY_CAP, false, s, h_of(m)), s, m);
                (done.0, seq![Effect::WorkMotorCw] + done.1)
            },
        },
    }
}

fn handle_vision_risk(v: VisionRisk, fx: &mut Vec<Effect>)
    ensures
        final(fx)@ == old(fx)@ + vision_risk_effects(v),
{
    match v {
        VisionRisk::PersonDetected => {
            stop(fx);
            fx.push(Effect::Speak(Cue::PersonDetecting));
        },
        VisionRisk::RoktrackDetected => {
            stop(fx);
        },
    }
    assert(final(fx)@ =~= old(fx)@ + vision_risk_effects(v));
}

/// Straight traversal through a corridor of marker pairs.
#[derive(Debug, Clone, Copy)]
pub struct OneWay {}

impl OneWay {
    pub fn new() -> (r: OneWay) {
        OneWay {}
    }

    pub fn handle(&mut self, state: &mut RoktrackState, tick: Tick) -> (r: Vec<Effect>)
        requires
            old(state).wf(),
        ensures
            (*final(state), r@) == oneway_step(*old(state), tick),
            final(state).wf(),
            !final(state).state ==> ends_idle(r@),
            -1 <= old(state).turn_count <= ONEWAY_CAP ==> -1 <= final(state).turn_count <= ONEWAY_CAP,
    {
        let mut fx: Vec<Effect> = Vec::new();
        let ghost s0 = *state;
        match assess_system_risk(state, tick.bumped, true) {
            Some(r) => {
                handle_system_risk(r, state, &mut fx);
                proof { lemma_risk_idle(r, s0, fx@); }
                return fx;
            },
            None => {},
        }
        match assess_vision_risk(tick.detections.as_slice()) {
            Some(v) => {
                handle_vision_risk(v, &mut fx);
                assert(fx@ =~= vision_risk_effects(v));
                return fx;
            },
            None => {},
        }
        let ghost dets0 = tick.detections@;
        let dets = if state.turn_count == 1 {
            sort::small(tick.detections)
        } else {
            match state.phase {
                Phase::CCW => sort::right(tick.detections),
                Phase::CW => sort::left(tick.detections),
            }
        };
        let ghost m = first_of(sorted_by(dets0, oneway_key(s0)));
        let marker = first_or_blank(dets);
        fx.push(Effect::WorkMotorCw);
        let ghost fx1 = fx@;
        let action = assess_situation(ONEWAY_CAP, false, state, marker.h);
        act(action, state, &mut fx, &marker, Ghost(ONEWAY_CAP), Ghost(false), Ghost(m));
        proof {
            assert(fx@ =~= seq![Effect::WorkMotorCw] + acted(action, s0, m).1);
            lemma_acted_idle(action, s0, m, fx1);
            if -1 <= s0.turn_count <= ONEWAY_CAP {
                lemma_acted_turns(ONEWAY_CAP, false, s0, m);
            }
        }
        fx
    }
}

/// The person to follow: the tallest one.
pub open spec fn followed(t: Tick) -> Option<Detection> {
    first_of(of_class(sorted_by(t.detections@, SortKey::Big), PERSON_CLASS))
}

/// One tick of the FollowPerson mode: the OneWay table aimed at the nearest
/// person, pausing instead of turning on arrival.
pub open spec fn follow_step(s: RoktrackState, t: Tick) -> Step {
    match system_risk_of(s, t.bumped, true) {
        Some(r) => (s, system_risk_effects(r, s.phase)),
        None => {
            let m = followed(t);
            let a = action_of(ONEWAY_CAP, false, s, h_of(m));
            if a == Some(ActPhase::ReachMarker) {
                (s, seq![Effect::Pause])
            } else {
                acted(a, s, m)
            }
        },
    }
}

/// Follows the nearest person at arm's length.
#[derive(Debug, Clone, Copy)]
pub struct FollowPerson {}

impl FollowPerson {
    pub fn new() -> (r: FollowPerson) {
        FollowPerson {}
    }

    pub fn handle(&mut self, state: &mut RoktrackState, tick: Tick) -> (r: Vec<Effect>)
        requires
            old(state).wf(),
        ensures
            (*final(state), r@) == follow_step(*old(state), tick),
            final(state).wf(),
            !final(state).state ==> ends_idle(r@),
            -1 <= old(state).turn_count <= ONEWAY_CAP ==> -1 <= final(state).turn_count <= ONEWAY_CAP,
    {
        let mut fx: Vec<Effect> = Vec::new();
        let ghost s0 = *state;
        match assess_system_risk(state, tick.bumped, true) {
            Some(r) => {
                handle_system_risk(r, state, &mut fx);
                proof { lemma_risk_idle(r, s0, fx@); }
                return fx;
            },
            None => {},
        }
        let ghost m = followed(tick);
        let dets = filter_class(sort::big(tick.detections), PERSON_CLASS);
        let marker = first_or_blank(dets);
        let action = assess_situation(ONEWAY_CAP, false, state, marker.h);
        match action {
            Some(ActPhase::ReachMarker) => {
                fx.push(Effect::Pause);
                assert(fx@ =~= seq![Effect::Pause]);
            },
            _ => {
                act(action, state, &mut fx, &marker, Ghost(ONEWAY_CAP), Ghost(false), Ghost(m));
                proof {
                    assert(fx@ =~= Seq::<Effect>::empty() + acted(action, s0, m).1);
                    lemma_acted_idle(action, s0, m, Seq::empty());
                    if -1 <= s0.turn_count <= ONEWAY_CAP {
                        lemma_acted_turns(ONEWAY_CAP, false, s0, m);
                    }
                }
            },
        }
        fx
    }
}

/// What the round trip heads for.
#[derive(Debug, Clone, Copy, PartialEq, Eq, Structural)]
pub enum RoundTripObject {
    Marker,
    Person,
}

pub open spec fn object_class(o: RoundTripObject) -> RoktrackClasses {
    match o {
        RoundTripObject::Marker => RoktrackClasses::PYLON,
        RoundTripObject::Person => RoktrackClasses::PERSON,
    }
}

pub open spec fn other_object(o: RoundTripObject) -> RoundTripObject {
    match o {
        RoundTripObject::Marker => RoundTripObject::Person,
        RoundTripObject::Person => RoundTripObject::Marker,
    }
}

impl RoundTripObject {
    /// The detection class of the object.
    pub fn to_cls(target: RoundTripObject) -> (r: RoktrackClasses)
        ensures
            r == object_class(target),
    {
        match target {
            RoundTripObject::Marker => RoktrackClasses::PYLON,
            RoundTripObject::Person => RoktrackClasses::PERSON,
        }
    }
}

/// The nearest detection of the object headed for.
pub open spec fn headed_for(o: RoundTripObject, t: Tick) -> Option<Detection> {
    first_of(of_class(sorted_by(t.detections@, SortKey::Big), roktrack_class_id(object_class(o))))
}

/// One tick of the RoundTrip mode: the OneWay table aimed at the nearest
/// object headed for; on arrival the other object is headed for.
pub open spec fn round_trip_step(o: RoundTripObject, s: RoktrackState, t: Tick) -> (RoundTripObject, RoktrackState, Seq<Effect>) {
    match system_risk_of(s, t.bumped, true) {
        Some(r) => (o, s, system_risk_effects(r, s.phase)),
        None => {
            let m = headed_for(o, t);
            let a = action_of(ONEWAY_CAP, false, s, h_of(m));
            let done = acted(a, s, m);
            let o2 = if a == Some(ActPhase::ReachMarker) { other_object(o) } else { o };
            (o2, done.0, done.1)
        },
    }
}

/// Shuttles between a person and a marker.
#[derive(Debug, Clone, Copy)]
pub struct RoundTrip {
    pub target_object: RoundTripObject,
}

impl RoundTrip {
    pub fn new() -> (r: RoundTrip)
        ensures
            r.target_object == RoundTripObject::Marker,
    {
        RoundTrip { target_object: RoundTripObject::Marker }
    }

    pub fn handle(&mut self, state: &mut RoktrackState, tick: Tick) -> (r: Vec<Effect>)
        requires
            old(state).wf(),
        ensures
            (final(self).target_object, *final(state), r@) == round_trip_step(
                old(self).target_object,
                *old(state),
                tick,
            ),
            final(state).wf(),
            !final(state).state ==> ends_idle(r@),
            -1 <= old(state).turn_count <= ONEWAY_CAP ==> -1 <= final(state).turn_count <= ONEWAY_CAP,
    {
        let mut fx: Vec<Effect> = Vec::new();
        let ghost s0 = *state;
        match assess_system_risk(state, tick.bumped, true) {
            Some(r) => {
                handle_system_risk(r, state, &mut fx);
                proof { lemma_risk_idle(r, s0, fx@); }
                return fx;
            },
            None => {},
        }
        let ghost m = headed_for(self.target_object, tick);
        let cls = RoundTripObject::to_cls(self.target_object).to_u32();
        let dets = filter_class(sort::big(tick.detections), cls);
        let marker = first_or_blank(dets);
        let action = assess_situation(ONEWAY_CAP, false, state, marker.h);
        match action {
            Some(ActPhase::ReachMarker) => {
                self.target_object = match self.target_object {
                    RoundTripObject::Marker => RoundTripObject::Person,
                    RoundTripObject::Person => RoundTripObject::Marker,
                };
            },
            _ => {},
        }
        act(action, state, &mut fx, &marker, Ghost(ONEWAY_CAP), Ghost(false), Ghost(m));
        proof {
            assert(fx@ =~= Seq::<Effect>::empty() + acted(action, s0, m).1);
            lemma_acted_idle(action, s0, m, Seq::empty());
            if -1 <= s0.turn_count <= ONEWAY_CAP {
                lemma_acted_turns(ONEWAY_CAP, false, s0, m);
            }
        }
        fx
    }
}

/// Whether a frame was taken before the robot settled after a turn.
pub open spec fn blurred(t: Tick) -> bool {
    t.turning && t.shooting_start_time < t.target_time + SETTLE_TIME
}

/// Whether the alert interval has passed since the last alert.
pub open spec fn alert_due(last: u64, now: u64) -> bool {
    last + ALERT_INTERVAL < now
}

fn interval_passed(last: u64, now: u64) -> (r: bool)
    ensures
        r == alert_due(last, now),
{
    now > last && now - last > ALERT_INTERVAL
}

/// One tick of the MonitorPerson mode: warn of a person in a still frame,
/// and notify at most once per interval.
pub open spec fn monitor_person_step(last: u64, s: RoktrackState, t: Tick, now: u64) -> (u64, RoktrackState, Seq<Effect>) {
    match system_risk_of(s, t.bumped, false) {
        Some(r) => (last, s, system_risk_effects(r, s.phase)),
        None => if blurred(t) || !has_class(t.detections@, PERSON_CLASS) {
            (last, s, Seq::empty())
        } else if alert_due(last, now) {
            (now, s, seq![Effect::Speak(Cue::PersonDetectingWarn), Effect::Notify(Alert::Person)])
        } else {
            (last, s, seq![Effect::Speak(Cue::PersonDetectingWarn)])
        },
    }
}

/// Stationary surveillance for people.
#[derive(Debug, Clone, Copy)]
pub struct MonitorPerson {
    /// When the last notification went out, in milliseconds.
    pub last_detected_time: u64,
}

impl MonitorPerson {
    pub fn new() -> (r: MonitorPerson)
        ensures
            r.last_detected_time == 0,
    {
        MonitorPerson { last_detected_time: 0 }
    }

    /// One tick at the given time.
    pub fn handle_at(&mut self, state: &mut RoktrackState, tick: Tick, now: u64) -> (r: Vec<Effect>)
        ensures
            (final(self).last_detected_time, *final(state), r@) == monitor_person_step(
                old(self).last_detected_time,
                *old(state),
                tick,
                now,
            ),
    {
        let mut fx: Vec<Effect> = Vec::new();
        match assess_system_risk(state, tick.bumped, false) {
            Some(r) => {
                handle_system_risk(r, state, &mut fx);
                return fx;
            },
            None => {},
        }
        if tick.turning && (tick.shooting_start_time as u128) < (tick.target_time as u128) + (SETTLE_TIME as u128) {
            return fx;
        }
        if any_of_class(tick.detections.as_slice(), PERSON_CLASS) {
            fx.push(Effect::Speak(Cue::PersonDetectingWarn));
            if interval_passed(self.last_detected_time, now) {
                self.last_detected_time = now;
                fx.push(Effect::Notify(Alert::Person));
            }
        }
        assert(fx@ =~= monitor_person_step(old(self).last_detected_time, *old(state), tick, now).2);
        fx
    }

    /// One tick now.
    pub fn handle(&mut self, state: &mut RoktrackState, tick: Tick) -> (r: Vec<Effect>)
        ensures
            exists|now: u64|
                (final(self).last_detected_time, *final(state), r@) == monitor_person_step(
                    old(self).last_detected_time,
                    *old(state),
                    tick,
                    now,
                ),
    {
        let now = now_millis();
        self.handle_at(state, tick, now)
    }
}

/// One tick of the MonitorAnimal mode: warn of any detection, and notify
/// with the first one's class at most once per interval.
pub open spec fn monitor_animal_step(last: u64, s: RoktrackState, t: Tick, now: u64) -> (u64, RoktrackState, Seq<Effect>) {
    match system_risk_of(s, t.bumped, false) {
        Some(r) => (last, s, system_risk_effects(r, s.phase)),
        None => if t.detections@.len() == 0 {
            (last, s, Seq::empty())
        } else if alert_due(last, now) {
            (
                now,
                s,
                seq![
                    Effect::Speak(Cue::AnimalDetecting),
                    Effect::Notify(Alert::Animal(t.detections@[0].cls)),
                ],
            )
        } else {
            (last, s, seq![Effect::Speak(Cue::AnimalDetecting)])
        },
    }
}

/// Stationary surveillance for animals.
#[derive(Debug, Clone, Copy)]
pub struct MonitorAnimal {
    /// When the last notification went out, in milliseconds.
    pub last_detected_time: u64,
}

impl MonitorAnimal {
    pub fn new() -> (r: MonitorAnimal)
        ensures
            r.last_detected_time == 0,
    {
        MonitorAnimal { last_detected_time: 0 }
    }

    /// One tick at the given time.
    pub fn handle_at(&mut self, state: &mut RoktrackState, tick: Tick, now: u64) -> (r: Vec<Effect>)
        ensures
            (final(self).last_detected_time, *final(state), r@) == monitor_animal_step(
                old(self).last_detected_time,
                *old(state),
                tick,
                now,
            ),
    {
        let mut fx: Vec<Effect> = Vec::new();
        match assess_system_risk(state, tick.bumped, false) {
            Some(r) => {
                handle_system_risk(r, state, &mut fx);
                return fx;
            },
            None => {},
        }
        if tick.detections.len() > 0 {
            fx.push(Effect::Speak(Cue::AnimalDetecting));
            if interval_passed(self.last_detected_time, now) {
                self.last_detected_time = now;
                fx.push(Effect::Notify(Alert::Animal(tick.detections[0].cls)));
            }
        }
        assert(fx@ =~= monitor_animal_step(old(self).last_detected_time, *old(state), tick, now).2);
        fx
    }

    /// One tick now.
    pub fn handle(&mut self, state: &mut RoktrackState, tick: Tick) -> (r: Vec<Effect>)
        ensures
            exists|now: u64|
                (final(self).last_detected_time, *final(state), r@) == monitor_animal_step(
                    old(self).last_detected_time,
                    *old(state),
                    tick,
                    now,
                ),
    {
        let now = now_millis();
        self.handle_at(state, tick, now)
    }
}

/// In Fill, a robot that waits (turn counter -1) and sees nothing holds its
/// position and switches to full resolution.
pub proof fn lemma_fill_stands_without_detections(s: RoktrackState, t: Tick)
    requires
        s.wf(),
        s.state,
        s.pi_temp <= HIGH_TEMP,
        !t.bumped,
        t.detections@.len() == 0,
        s.turn_count == -1,
    ensures
        fill_step(s, t).0 == stood(s).0,
        fill_step(s, t).0.img_width == 640,
        fill_step(s, t).1 == seq![
            Effect::WorkMotorCw,
            Effect::Vision(VisionMgmtCommand::SwitchSz640),
        ],
{
    let sorted = sorted_by(t.detections@, lap_key(s.phase));
    assert(sorted.len() == 0);
    assert(!has_class(t.detections@, PERSON_CLASS));
    assert(!has_class(t.detections@, ROBOT_CLASS));
    let sel = selection(t.ocr, s, sorted);
    assert(sel.0 == s && sel.1 == Seq::<Effect>::empty() && sel.2 is None);
    let s2 = RoktrackState {
        constant: constant_for(s.constant as int, s.img_height as int, 0) as i64,
        ..s
    };
    assert(s2 == s);
    assert(sel.1.push(Effect::WorkMotorCw) + stood(s).1 =~= seq![
        Effect::WorkMotorCw,
        Effect::Vision(VisionMgmtCommand::SwitchSz640),
    ]);
}

/// In Fill, once `rest` is below zero, finding the next marker while turning
/// ends the lap: counterclockwise laps give way to clockwise ones from a
/// fresh state, and after the clockwise laps the robot switches off.
pub proof fn lemma_fill_lap_ends(s: RoktrackState, t: Tick)
    requires
        s.wf(),
        s.state,
        s.pi_temp <= HIGH_TEMP,
        !t.bumped,
        vision_risk_of(t.detections@) is None,
        0 < s.turn_count < FILL_CAP,
        s.rest < 0,
        h_of(selection(t.ocr, s, sorted_by(t.detections@, lap_key(s.phase))).2) > 0,
        past_last(s, h_of(selection(t.ocr, s, sorted_by(t.detections@, lap_key(s.phase))).2)),
    ensures
        s.phase == Phase::CCW ==> fill_step(s, t).0 == (RoktrackState {
            phase: Phase::CW,
            ..crate::state::fresh_state(s.identifier)
        }),
        s.phase == Phase::CW ==> !fill_step(s, t).0.state,
{
}

} // verus!
