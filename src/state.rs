//! The pilot state that the drive loop owns, its resolution scaling and its
//! broadcast payload.
use vstd::prelude::*;
use std::collections::HashMap;
use crate::com::Neighbor;
use crate::modes::{Modes, Phase, mode_code};
use rand::seq::SliceRandom;

verus! {

broadcast use vstd::std_specs::hash::group_hash_axioms;

/// `rest` when no work is done yet: 1.0 in millionths.
pub const REST_FULL: i64 = 1_000_000;

/// The largest per-marker decrement of `rest`: 0.005 in millionths.
pub const CONSTANT_MAX: i64 = 5000;

/// A bound on the magnitude of the steering signal, far above any that a
/// frame can give.
pub const DIFF_BOUND: i64 = 0x20_0000_0000_0000;

/// Message code that means "no message".
pub const NO_MSG: u8 = 255;

/// State for the auto-pilot. `rest`, `constant` and `diff` are in
/// millionths, `pi_temp` in thousandths of a degree Celsius.
#[derive(Debug, Clone)]
pub struct RoktrackState {
    /// On / Off.
    pub state: bool,
    pub mode: Modes,
    /// `-1` waiting, `0` just reached a marker, `1..` turning.
    pub turn_count: i8,
    /// Height of the last seen marker.
    pub ex_height: u16,
    /// Remaining work.
    pub rest: i64,
    /// Marker height that means "arrived".
    pub target_height: u16,
    pub phase: Phase,
    /// Decrement of `rest` per marker.
    pub constant: i64,
    /// Digit that the tracked marker carries, in OCR mode.
    pub marker_id: Option<u8>,
    pub pi_temp: i32,
    /// Last message code, 255 for none.
    pub msg: u8,
    pub identifier: u8,
    pub img_width: u32,
    pub img_height: u32,
    /// Last steering signal.
    pub diff: i64,
    /// Last marker height in pixels.
    pub marker_height: u32,
}

/// The state of a robot that starts, with the given peer identifier.
pub open spec fn fresh_state(identifier: u8) -> RoktrackState {
    RoktrackState {
        state: true,
        mode: Modes::Fill,
        turn_count: -1i8,
        ex_height: 0,
        rest: REST_FULL,
        target_height: 216,
        phase: Phase::CCW,
        constant: CONSTANT_MAX,
        marker_id: None,
        pi_temp: 0,
        msg: NO_MSG,
        identifier,
        img_width: 320,
        img_height: 240,
        diff: 0,
        marker_height: 0,
    }
}

/// `v` held to the range of a `u16`.
pub open spec fn clamp16(v: int) -> u16 {
    if v < 0 {
        0
    } else if v > 65535 {
        65535
    } else {
        v as u16
    }
}

/// `v` held to the range of a `u8`.
pub open spec fn clamp8(v: int) -> u8 {
    if v < 0 {
        0
    } else if v > 255 {
        255
    } else {
        v as u8
    }
}

impl RoktrackState {
    /// The resolution is one of the two that vision offers, the turn counter
    /// is within the largest cap, `constant` is in range and `rest` is at
    /// most 1.0.
    pub open spec fn wf(&self) -> bool {
        &&& ((self.img_width == 320 && self.img_height == 240) || (self.img_width == 640
            && self.img_height == 480))
        &&& -1 <= self.turn_count <= 10
        &&& 0 <= self.constant <= CONSTANT_MAX
        &&& self.rest <= REST_FULL
        &&& -DIFF_BOUND <= self.diff <= DIFF_BOUND
    }

    /// Create a new state with default values.
    pub fn new(identifier: u8) -> (r: RoktrackState)
        ensures
            r == fresh_state(identifier),
            r.wf(),
    {
        RoktrackState {
            state: true,
            mode: Modes::Fill,
            turn_count: -1,
            ex_height: 0,
            rest: REST_FULL,
            target_height: 216,
            phase: Phase::CCW,
            constant: CONSTANT_MAX,
            marker_id: None,
            pi_temp: 0,
            msg: NO_MSG,
            identifier,
            img_width: 320,
            img_height: 240,
            diff: 0,
            marker_height: 0,
        }
    }

    /// Reset every field to its initial value, except the identifier.
    pub fn reset(&mut self)
        ensures
            *final(self) == fresh_state(old(self).identifier),
            final(self).wf(),
    {
        *self = RoktrackState::new(self.identifier);
    }

    /// Reset, then lap clockwise.
    pub fn invert_phase(&mut self)
        ensures
            *final(self) == (RoktrackState { phase: Phase::CW, ..fresh_state(old(self).identifier) }),
            final(self).wf(),
    {
        self.reset();
        self.phase = Phase::CW;
    }
}

/// A reset state is a fresh one but for the identifier, which it keeps.
pub proof fn lemma_reset_is_fresh(kept: u8, other: u8)
    ensures
        fresh_state(kept) == (RoktrackState { identifier: kept, ..fresh_state(other) }),
{
}

/// The state after switching to 640x480: heights scale by the width ratio.
pub open spec fn scaled_up(s: RoktrackState) -> RoktrackState {
    RoktrackState {
        img_width: 640,
        img_height: 480,
        ex_height: if s.img_width == 320 { clamp16(2 * s.ex_height) } else { s.ex_height },
        target_height: if s.img_width == 320 {
            clamp16(2 * s.target_height)
        } else {
            s.target_height
        },
        ..s
    }
}

/// The state after switching to 320x240: heights scale by the width ratio,
/// truncated.
pub open spec fn scaled_down(s: RoktrackState) -> RoktrackState {
    RoktrackState {
        img_width: 320,
        img_height: 240,
        ex_height: if s.img_width == 640 { (s.ex_height / 2) as u16 } else { s.ex_height },
        target_height: if s.img_width == 640 {
            (s.target_height / 2) as u16
        } else {
            s.target_height
        },
        ..s
    }
}

/// Rescales the state to 640x480.
pub fn scale_up(s: &mut RoktrackState)
    requires
        old(s).wf(),
    ensures
        *final(s) == scaled_up(*old(s)),
        final(s).wf(),
{
    if s.img_width == 320 {
        s.ex_height = if s.ex_height > 32767 { 65535 } else { s.ex_height * 2 };
        s.target_height = if s.target_height > 32767 { 65535 } else { s.target_height * 2 };
    }
    s.img_width = 640;
    s.img_height = 480;
}

/// Rescales the state to 320x240.
pub fn scale_down(s: &mut RoktrackState)
    requires
        old(s).wf(),
    ensures
        *final(s) == scaled_down(*old(s)),
        final(s).wf(),
{
    if s.img_width == 640 {
        s.ex_height = s.ex_height / 2;
        s.target_height = s.target_height / 2;
    }
    s.img_width = 320;
    s.img_height = 240;
}

/// Scaling up from 320x240 and back down restores the resolution and both
/// heights, as long as doubling a height does not overflow.
pub proof fn lemma_scale_round_trip(s: RoktrackState)
    requires
        s.wf(),
        s.img_width == 320,
        s.ex_height <= 32767,
        s.target_height <= 32767,
    ensures
        scaled_down(scaled_up(s)) == s,
{
}

/// Byte 0 of the payload: the on flag in the high bit, `rest` in hundredths
/// (truncated, at least 0, at most 127) in the low seven.
pub open spec fn state_rest_byte(on: bool, rest: int) -> u8 {
    let pct = if rest <= 0 { 0 } else if rest / 10000 > 127 { 127 } else { rest / 10000 };
    ((if on { 128int } else { 0int }) + pct) as u8
}

/// The 23-byte broadcast payload of a state.
pub open spec fn payload(s: RoktrackState, appearance: u8, left_power: u32, right_power: u32) -> Seq<u8> {
    seq![
        state_rest_byte(s.state, s.rest as int),
        clamp8(if s.pi_temp <= 0 { 0 } else { s.pi_temp as int / 1000 }),
        mode_code(s.mode),
        s.msg,
        255u8,
        appearance,
        clamp8(left_power as int / 10000),
        clamp8(right_power as int / 10000),
        clamp8(if s.diff <= -1_000_000 { 0 } else { (s.diff as int + 1_000_000) * 127 / 1_000_000 }),
        clamp8(s.marker_height as int * 100 / s.img_height as int),
    ] + Seq::new(13, |i: int| 0u8)
}

/// Whether an identifier is free for a robot: in `1..=249` and unused.
pub open spec fn id_free(used: Map<u8, Neighbor>, id: u8) -> bool {
    1 <= id <= 249 && !used.contains_key(id)
}

/// Relies on rand's `SliceRandom::choose` with the thread-local generator:
/// `None` for an empty slice, else one of its elements.
#[verifier::external_body]
fn choose_one(pool: &Vec<u8>) -> (r: Option<u8>)
    ensures
        r is None <==> pool@.len() == 0,
        r matches Some(x) ==> pool@.contains(x),
{
    pool.choose(&mut rand::thread_rng()).copied()
}

fn clamp_to_u8(v: i64) -> (r: u8)
    ensures
        r == clamp8(v as int),
{
    if v < 0 {
        0
    } else if v > 255 {
        255
    } else {
        v as u8
    }
}

impl RoktrackState {
    /// Takes a new identifier when a neighbor uses this one, then builds the
    /// broadcast payload. The new identifier is drawn at random among the
    /// free ones; when none is free the identifier stays.
    pub fn dump(
        &mut self,
        neighbors: &HashMap<u8, Neighbor>,
        appearance: u8,
        left_power: u32,
        right_power: u32,
    ) -> (r: Vec<u8>)
        requires
            old(self).wf(),
        ensures
            final(self).wf(),
            *final(self) == (RoktrackState { identifier: final(self).identifier, ..*old(self) }),
            !neighbors@.contains_key(old(self).identifier) ==> final(self).identifier == old(
                self,
            ).identifier,
            (exists|id: u8| id_free(neighbors@, id)) ==> !neighbors@.contains_key(
                final(self).identifier,
            ),
            neighbors@.contains_key(old(self).identifier) && (exists|id: u8|
                id_free(neighbors@, id)) ==> id_free(neighbors@, final(self).identifier),
            !(exists|id: u8| id_free(neighbors@, id)) ==> final(self).identifier == old(
                self,
            ).identifier,
            r@ == payload(*final(self), appearance, left_power, right_power),
    {
        if neighbors.contains_key(&self.identifier) {
            let mut pool: Vec<u8> = Vec::new();
            let mut x: u8 = 1;
            while x < 250
                invariant
                    1 <= x <= 250,
                    forall|i: int|
                        0 <= i < pool@.len() ==> id_free(neighbors@, #[trigger] pool@[i]),
                    forall|id: u8| 1 <= id < x && id_free(neighbors@, id) ==> pool@.contains(id),
                decreases 250 - x,
            {
                let ghost before = pool@;
                if !neighbors.contains_key(&x) {
                    pool.push(x);
                }
                proof {
                    assert forall|id: u8| 1 <= id < x + 1 && id_free(neighbors@, id) implies #[trigger] pool@.contains(id) by {
                        if id == x {
                            assert(pool@[pool@.len() - 1] == x);
                        } else {
                            assert(before.contains(id));
                            let j = choose|j: int| 0 <= j < before.len() && before[j] == id;
                            assert(pool@[j] == id);
                        }
                    }
                }
                x = x + 1;
            }
            proof {
                if exists|id: u8| id_free(neighbors@, id) {
                    let id = choose|id: u8| id_free(neighbors@, id);
                    assert(pool@.contains(id));
                }
            }
            match choose_one(&pool) {
                Some(id) => {
                    self.identifier = id;
                },
                None => {},
            }
        }
        let pct: i64 = if self.rest <= 0 {
            0
        } else if self.rest / 10000 > 127 {
            127
        } else {
            self.rest / 10000
        };
        let first: u8 = ((if self.state { 128i64 } else { 0i64 }) + pct) as u8;
        assert(first == state_rest_byte(self.state, self.rest as int));
        let temp: i64 = if self.pi_temp <= 0 { 0 } else { self.pi_temp as i64 / 1000 };
        assert(temp as int == (if self.pi_temp <= 0 { 0 } else { self.pi_temp as int / 1000 }));
        let mut val: Vec<u8> = Vec::new();
        val.push(first);
        val.push(clamp_to_u8(temp));
        val.push(Modes::to_u8(self.mode));
        val.push(self.msg);
        val.push(255);
        val.push(appearance);
        val.push(clamp_to_u8(left_power as i64 / 10000));
        val.push(clamp_to_u8(right_power as i64 / 10000));
        val.push(clamp_to_u8(if self.diff <= -1_000_000 { 0 } else { (self.diff + 1_000_000) * 127 / 1_000_000 }));
        val.push(clamp_to_u8((self.marker_height as i64) * 100 / (self.img_height as i64)));
        let ghost head = val@;
        assert(head =~= payload(*self, appearance, left_power, right_power).subrange(0, 10));
        let mut k: usize = 0;
        while k < 13
            invariant
                k <= 13,
                val@.subrange(0, 10) == head,
                val@.len() == 10 + k,
                forall|i: int| 10 <= i < 10 + k ==> val@[i] == 0,
            decreases 13 - k,
        {
            val.push(0);
            k = k + 1;
        }
        assert forall|i: int| 0 <= i < 10 implies val@[i] == head[i] by {
            assert(val@.subrange(0, 10)[i] == val@[i]);
        }
        let ghost p = payload(*self, appearance, left_power, right_power);
        assert forall|i: int| 10 <= i < 23 implies p[i] == 0 by {
            assert(p[i] == Seq::new(13, |j: int| 0u8)[i - 10]);
        }
        assert forall|i: int| 0 <= i < 10 implies val@[i] == p[i] by {
            assert(head[i] == p.subrange(0, 10)[i]);
        }
        assert(val@.len() == p.len());
        assert(val@ =~= p);
        val
    }
}

} // verus!
