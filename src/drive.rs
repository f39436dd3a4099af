//! The drive loop's decisions: the active handler, the command router, and
//! one tick from a detection batch to the broadcast payload. The loop itself
//! (channels, sleeps, hardware) runs outside and performs the effects.
use vstd::prelude::*;
use std::collections::HashMap;
use crate::com::{Neighbor, ParentMsg, parent_of_code};
use crate::base::escape_effects;
use crate::clock::now_millis;
use crate::effect::{Cue, Effect, VisionMgmtCommand, ends_idle};
use crate::modes::Modes;
use crate::pilot::{
    fill_step, follow_step, monitor_animal_step, monitor_person_step, oneway_step,
    round_trip_step, Fill, FollowPerson, MonitorAnimal, MonitorPerson, OneWay, RoundTrip,
    RoundTripObject, Tick, HIGH_TEMP, ONEWAY_CAP,
};
use crate::state::{fresh_state, id_free, payload, RoktrackState};

verus! {

broadcast use vstd::std_specs::hash::group_hash_axioms;

/// The active mode handler; each variant carries its own fields.
#[derive(Debug, Clone, Copy)]
pub enum PilotHandler {
    Fill(Fill),
    OneWay(OneWay),
    MonitorPerson(MonitorPerson),
    MonitorAnimal(MonitorAnimal),
    RoundTrip(RoundTrip),
    FollowPerson(FollowPerson),
}

/// One tick of whichever handler is active, at time `now`.
pub open spec fn pilot_step(h: PilotHandler, s: RoktrackState, t: Tick, now: u64) -> (PilotHandler, RoktrackState, Seq<Effect>) {
    match h {
        PilotHandler::Fill(f) => {
            let r = fill_step(s, t);
            (h, r.0, r.1)
        },
        PilotHandler::OneWay(o) => {
            let r = oneway_step(s, t);
            (h, r.0, r.1)
        },
        PilotHandler::FollowPerson(f) => {
            let r = follow_step(s, t);
            (h, r.0, r.1)
        },
        PilotHandler::RoundTrip(rt) => {
            let r = round_trip_step(rt.target_object, s, t);
            (PilotHandler::RoundTrip(RoundTrip { target_object: r.0 }), r.1, r.2)
        },
        PilotHandler::MonitorPerson(mp) => {
            let r = monitor_person_step(mp.last_detected_time, s, t, now);
            (PilotHandler::MonitorPerson(MonitorPerson { last_detected_time: r.0 }), r.1, r.2)
        },
        PilotHandler::MonitorAnimal(ma) => {
            let r = monitor_animal_step(ma.last_detected_time, s, t, now);
            (PilotHandler::MonitorAnimal(MonitorAnimal { last_detected_time: r.0 }), r.1, r.2)
        },
    }
}

/// Whether the handler's turn counter stays within the mode's cap.
pub open spec fn within_cap(h: PilotHandler, s: RoktrackState) -> bool {
    match h {
        PilotHandler::Fill(_) => -1 <= s.turn_count <= 10,
        PilotHandler::MonitorPerson(_) | PilotHandler::MonitorAnimal(_) => true,
        _ => -1 <= s.turn_count <= ONEWAY_CAP,
    }
}

impl PilotHandler {
    /// One tick at the given time.
    pub fn handle_at(&mut self, state: &mut RoktrackState, tick: Tick, now: u64) -> (r: Vec<Effect>)
        requires
            old(state).wf(),
        ensures
            (*final(self), *final(state), r@) == pilot_step(*old(self), *old(state), tick, now),
            final(state).wf(),
            !final(state).state ==> ends_idle(r@),
            within_cap(*old(self), *old(state)) ==> within_cap(*final(self), *final(state)),
    {
        match self {
            PilotHandler::Fill(f) => f.handle(state, tick),
            PilotHandler::OneWay(o) => o.handle(state, tick),
            PilotHandler::FollowPerson(f) => f.handle(state, tick),
            PilotHandler::RoundTrip(rt) => rt.handle(state, tick),
            PilotHandler::MonitorPerson(mp) => {
                let r = mp.handle_at(state, tick, now);
                proof {
                    if !state.state {
                        assert(r@[0] is Stop);
                    }
                }
                r
            },
            PilotHandler::MonitorAnimal(ma) => {
                let r = ma.handle_at(state, tick, now);
                proof {
                    if !state.state {
                        assert(r@[0] is Stop);
                    }
                }
                r
            },
        }
    }

    /// One tick now.
    pub fn handle(&mut self, state: &mut RoktrackState, tick: Tick) -> (r: Vec<Effect>)
        requires
            old(state).wf(),
        ensures
            exists|now: u64|
                (*final(self), *final(state), r@) == pilot_step(*old(self), *old(state), tick, now),
            final(state).wf(),
            !final(state).state ==> ends_idle(r@),
            within_cap(*old(self), *old(state)) ==> within_cap(*final(self), *final(state)),
    {
        let now = now_millis();
        self.handle_at(state, tick, now)
    }
}

/// The vision commands at the entry of a mode, and its fresh handler; none
/// for the reserved modes.
pub open spec fn handler_for(mode: Modes, ocr: bool) -> (Option<PilotHandler>, Seq<Effect>) {
    let sz = Effect::Vision(VisionMgmtCommand::SwitchSz320);
    let pylon = Effect::Vision(VisionMgmtCommand::SwitchSessionPylon);
    match mode {
        Modes::Fill => (
            Some(PilotHandler::Fill(Fill {})),
            seq![
                Effect::Vision(
                    if ocr {
                        VisionMgmtCommand::SwitchSessionPylonOcr
                    } else {
                        VisionMgmtCommand::SwitchSessionPylon
                    },
                ),
                sz,
            ],
        ),
        Modes::OneWay => (Some(PilotHandler::OneWay(OneWay {})), seq![pylon, sz]),
        Modes::MonitorPerson => (
            Some(PilotHandler::MonitorPerson(MonitorPerson { last_detected_time: 0 })),
            seq![pylon, sz],
        ),
        Modes::MonitorAnimal => (
            Some(PilotHandler::MonitorAnimal(MonitorAnimal { last_detected_time: 0 })),
            seq![Effect::Vision(VisionMgmtCommand::SwitchSessionAnimal), sz],
        ),
        Modes::RoundTrip => (
            Some(PilotHandler::RoundTrip(RoundTrip { target_object: RoundTripObject::Marker })),
            seq![pylon, sz],
        ),
        Modes::FollowPerson => (Some(PilotHandler::FollowPerson(FollowPerson {})), seq![pylon, sz]),
        _ => (None, Seq::empty()),
    }
}

/// A fresh handler for a mode, with the vision commands that enter it.
pub fn mode_to_handler(mode: Modes, ocr: bool) -> (r: (Option<PilotHandler>, Vec<Effect>))
    ensures
        (r.0, r.1@) == handler_for(mode, ocr),
{
    let mut fx: Vec<Effect> = Vec::new();
    let h = match mode {
        Modes::Fill => {
            if ocr {
                fx.push(Effect::Vision(VisionMgmtCommand::SwitchSessionPylonOcr));
            } else {
                fx.push(Effect::Vision(VisionMgmtCommand::SwitchSessionPylon));
            }
            Some(PilotHandler::Fill(Fill::new()))
        },
        Modes::OneWay => {
            fx.push(Effect::Vision(VisionMgmtCommand::SwitchSessionPylon));
            Some(PilotHandler::OneWay(OneWay::new()))
        },
        Modes::MonitorPerson => {
            fx.push(Effect::Vision(VisionMgmtCommand::SwitchSessionPylon));
            Some(PilotHandler::MonitorPerson(MonitorPerson::new()))
        },
        Modes::MonitorAnimal => {
            fx.push(Effect::Vision(VisionMgmtCommand::SwitchSessionAnimal));
            Some(PilotHandler::MonitorAnimal(MonitorAnimal::new()))
        },
        Modes::RoundTrip => {
            fx.push(Effect::Vision(VisionMgmtCommand::SwitchSessionPylon));
            Some(PilotHandler::RoundTrip(RoundTrip::new()))
        },
        Modes::FollowPerson => {
            fx.push(Effect::Vision(VisionMgmtCommand::SwitchSessionPylon));
            Some(PilotHandler::FollowPerson(FollowPerson::new()))
        },
        _ => None,
    };
    if h.is_some() {
        fx.push(Effect::Vision(VisionMgmtCommand::SwitchSz320));
    }
    assert(fx@ =~= handler_for(mode, ocr).1);
    (h, fx)
}

/// The mode that a controller command selects, if it selects one.
pub open spec fn commanded_mode(m: ParentMsg) -> Option<Modes> {
    match m {
        ParentMsg::Fill => Some(Modes::Fill),
        ParentMsg::Oneway => Some(Modes::OneWay),
        ParentMsg::MonitorPerson => Some(Modes::MonitorPerson),
        ParentMsg::MonitorAnimal => Some(Modes::MonitorAnimal),
        ParentMsg::RoundTrip => Some(Modes::RoundTrip),
        ParentMsg::FollowPerson => Some(Modes::FollowPerson),
        _ => None,
    }
}

/// What a peer message does: only the controller's broadcasts count. Off
/// and On switch the robot when it is in the other state, Reset resets an
/// idle robot, and a mode command switches an idle robot to another mode.
///
/// Reset gives the state of a robot that starts: on, in the Fill mode. It
/// keeps the active handler and sends vision nothing, so after a Reset in
/// another mode the reported mode and the handler differ, vision stays off,
/// and a later On is ignored because the robot already counts as on.
pub open spec fn route(s: RoktrackState, n: Neighbor, ocr: bool) -> (RoktrackState, Option<PilotHandler>, Seq<Effect>) {
    if n.identifier == 0 && n.dest == 255 {
        let m = parent_of_code(n.msg);
        if m == ParentMsg::Off {
            if s.state {
                (
                    RoktrackState { state: false, ..s },
                    None,
                    seq![Effect::Stop, Effect::Vision(VisionMgmtCommand::Off)],
                )
            } else {
                (s, None, Seq::empty())
            }
        } else if m == ParentMsg::On {
            if !s.state {
                (RoktrackState { state: true, ..s }, None, seq![Effect::Vision(VisionMgmtCommand::On)])
            } else {
                (s, None, Seq::empty())
            }
        } else if m == ParentMsg::Reset {
            if !s.state {
                (fresh_state(s.identifier), None, Seq::empty())
            } else {
                (s, None, Seq::empty())
            }
        } else {
            match commanded_mode(m) {
                Some(mode) => if !s.state && s.mode != mode {
                    let h = handler_for(mode, ocr);
                    (RoktrackState { mode, ..s }, h.0, h.1)
                } else {
                    (s, None, Seq::empty())
                },
                None => (s, None, Seq::empty()),
            }
        }
    } else {
        (s, None, Seq::empty())
    }
}

/// Apply a peer message; a new handler is returned when the mode changed.
pub fn command_to_handler(state: &mut RoktrackState, neighbor: &Neighbor, ocr: bool) -> (r: (Option<PilotHandler>, Vec<Effect>))
    requires
        old(state).wf(),
    ensures
        (*final(state), r.0, r.1@) == route(*old(state), *neighbor, ocr),
        final(state).wf(),
{
    let mut fx: Vec<Effect> = Vec::new();
    if neighbor.identifier == 0 && neighbor.dest == 255 {
        let m = ParentMsg::from_u8(neighbor.msg);
        match m {
            ParentMsg::Off => {
                if state.state {
                    state.state = false;
                    fx.push(Effect::Stop);
                    fx.push(Effect::Vision(VisionMgmtCommand::Off));
                }
                assert(fx@ =~= route(*old(state), *neighbor, ocr).2);
                (None, fx)
            },
            ParentMsg::On => {
                if !state.state {
                    state.state = true;
                    fx.push(Effect::Vision(VisionMgmtCommand::On));
                }
                assert(fx@ =~= route(*old(state), *neighbor, ocr).2);
                (None, fx)
            },
            ParentMsg::Reset => {
                if !state.state {
                    state.reset();
                }
                (None, fx)
            },
            ParentMsg::Fill | ParentMsg::Oneway | ParentMsg::MonitorPerson
            | ParentMsg::MonitorAnimal | ParentMsg::RoundTrip | ParentMsg::FollowPerson => {
                let mode = match m {
                    ParentMsg::Fill => Modes::Fill,
                    ParentMsg::Oneway => Modes::OneWay,
                    ParentMsg::MonitorPerson => Modes::MonitorPerson,
                    ParentMsg::MonitorAnimal => Modes::MonitorAnimal,
                    ParentMsg::RoundTrip => Modes::RoundTrip,
                    _ => Modes::FollowPerson,
                };
                if !state.state && state.mode != mode {
                    state.mode = mode;
                    mode_to_handler(mode, ocr)
                } else {
                    (None, fx)
                }
            },
            _ => (None, fx),
        }
    } else {
        (None, fx)
    }
}

/// A handler tick after the temperature is sampled.
pub open spec fn tick_step(h: PilotHandler, s: RoktrackState, pi_temp: i32, t: Tick, now: u64) -> (PilotHandler, RoktrackState, Seq<Effect>) {
    pilot_step(h, RoktrackState { pi_temp, ..s }, t, now)
}

/// What the drive loop owns: the state, the active handler and the table of
/// neighbors by identifier, with the settings that its decisions read.
pub struct DriveLoop {
    pub state: RoktrackState,
    pub handler: PilotHandler,
    pub neighbors: HashMap<u8, Neighbor>,
    /// Whether markers carry digits.
    pub ocr: bool,
    /// The appearance byte that the payload reports.
    pub appearance: u8,
}

impl DriveLoop {
    /// The state is well formed.
    pub open spec fn inv(&self) -> bool {
        self.state.wf()
    }

    /// A loop in the configured mode, with the vision commands that enter
    /// it; `None` for a mode without a handler.
    pub fn new(identifier: u8, mode: Modes, ocr: bool, appearance: u8) -> (r: (Option<DriveLoop>, Vec<Effect>))
        ensures
            r.0 is Some <==> handler_for(mode, ocr).0 is Some,
            r.0 matches Some(d) ==> {
                &&& d.inv()
                &&& d.state == fresh_state(identifier)
                &&& Some(d.handler) == handler_for(mode, ocr).0
                &&& d.neighbors@ == Map::<u8, Neighbor>::empty()
                &&& d.ocr == ocr
                &&& d.appearance == appearance
            },
            r.1@ == handler_for(mode, ocr).1,
    {
        let (h, fx) = mode_to_handler(mode, ocr);
        match h {
            Some(handler) => (
                Some(
                    DriveLoop {
                        state: RoktrackState::new(identifier),
                        handler,
                        neighbors: HashMap::new(),
                        ocr,
                        appearance,
                    },
                ),
                fx,
            ),
            None => (None, fx),
        }
    }

    /// A peer message arrived: record the neighbor by identifier, route the
    /// command, and swap in a new handler if the mode changed.
    pub fn on_neighbor(&mut self, neighbor: Neighbor) -> (r: Vec<Effect>)
        requires
            old(self).inv(),
        ensures
            final(self).inv(),
            final(self).neighbors@ == old(self).neighbors@.insert(neighbor.identifier, neighbor),
            (final(self).state, r@) == (route(old(self).state, neighbor, old(self).ocr).0, route(
                old(self).state,
                neighbor,
                old(self).ocr,
            ).2),
            final(self).handler == match route(old(self).state, neighbor, old(self).ocr).1 {
                Some(h) => h,
                None => old(self).handler,
            },
            final(self).ocr == old(self).ocr,
            final(self).appearance == old(self).appearance,
    {
        let (h, fx) = command_to_handler(&mut self.state, &neighbor, self.ocr);
        match h {
            Some(handler) => {
                self.handler = handler;
            },
            None => {},
        }
        self.neighbors.insert(neighbor.identifier, neighbor);
        fx
    }

    /// A detection batch arrived: record the SoC temperature, run the
    /// handler, then take a free identifier if a neighbor uses this one and
    /// build the broadcast payload.
    pub fn on_detections(&mut self, tick: Tick, pi_temp: i32, left_power: u32, right_power: u32) -> (r: (Vec<Effect>, Vec<u8>))
        requires
            old(self).inv(),
        ensures
            final(self).inv(),
            exists|now: u64| {
                let st = #[trigger] tick_step(old(self).handler, old(self).state, pi_temp, tick, now);
                &&& final(self).handler == st.0
                &&& final(self).state == RoktrackState { identifier: final(self).state.identifier, ..st.1 }
                &&& r.0@ == st.2
            },
            !final(self).state.state ==> ends_idle(r.0@),
            within_cap(old(self).handler, old(self).state) ==> within_cap(final(self).handler, final(self).state),
            (exists|id: u8| id_free(final(self).neighbors@, id)) ==> !final(self).neighbors@.contains_key(
                final(self).state.identifier,
            ),
            r.1@ == payload(final(self).state, final(self).appearance, left_power, right_power),
            final(self).neighbors@ == old(self).neighbors@,
            final(self).ocr == old(self).ocr,
            final(self).appearance == old(self).appearance,
    {
        let ghost h0 = self.handler;
        let ghost s0 = self.state;
        self.state.pi_temp = pi_temp;
        let now = now_millis();
        let fx = self.handler.handle_at(&mut self.state, tick, now);
        let ghost st = tick_step(h0, s0, pi_temp, tick, now);
        assert(self.handler == st.0 && self.state == st.1 && fx@ == st.2);
        let payload = self.state.dump(&self.neighbors, self.appearance, left_power, right_power);
        (fx, payload)
    }
}

/// Whether a handler drives the robot (the monitor modes do not move).
pub open spec fn is_moving(h: PilotHandler) -> bool {
    !(h is MonitorPerson || h is MonitorAnimal)
}

/// With the bump switch pressed, every moving handler escapes, says so, and
/// changes nothing else.
pub proof fn lemma_bump_escapes(h: PilotHandler, s: RoktrackState, t: Tick, now: u64)
    requires
        s.state,
        s.pi_temp <= HIGH_TEMP,
        t.bumped,
        is_moving(h),
    ensures
        pilot_step(h, s, t, now) == (h, s, escape_effects(s.phase).push(Effect::Speak(Cue::Bumped))),
{
}

/// Above the temperature limit, every handler stops, says so, and changes
/// nothing else.
pub proof fn lemma_high_temp_stops(h: PilotHandler, s: RoktrackState, t: Tick, now: u64)
    requires
        s.state,
        s.pi_temp > HIGH_TEMP,
    ensures
        pilot_step(h, s, t, now) == (h, s, seq![Effect::Stop, Effect::Speak(Cue::HighTemp)]),
{
}

} // verus!
