//! Merging of overlapping detections, as the detector's raw boxes are
//! deduplicated. In order, each box not yet taken seeds a group; the group
//! takes every untaken box of the seed's class whose intersection over union
//! with the seed is at least 0.7, and stands as their hull.
use vstd::prelude::*;
use crate::detection::Detection;

verus! {

/// A box by its corners.
#[derive(Debug, Clone, Copy, PartialEq, Eq, Structural)]
pub struct Rect {
    pub x1: u32,
    pub y1: u32,
    pub x2: u32,
    pub y2: u32,
}

pub open spec fn rect_of(d: Detection) -> Rect {
    Rect { x1: d.x1, y1: d.y1, x2: d.x2, y2: d.y2 }
}

/// Corners in order.
pub open spec fn ordered(r: Rect) -> bool {
    r.x1 <= r.x2 && r.y1 <= r.y2
}

pub open spec fn min_u32(a: u32, b: u32) -> u32 {
    if a <= b { a } else { b }
}

pub open spec fn max_u32(a: u32, b: u32) -> u32 {
    if a >= b { a } else { b }
}

/// The smallest box holding both.
pub open spec fn hull(a: Rect, b: Rect) -> Rect {
    Rect {
        x1: min_u32(a.x1, b.x1),
        y1: min_u32(a.y1, b.y1),
        x2: max_u32(a.x2, b.x2),
        y2: max_u32(a.y2, b.y2),
    }
}

/// Overlap width (or height) of two spans, zero when they do not overlap.
pub open spec fn overlap(lo1: u32, hi1: u32, lo2: u32, hi2: u32) -> int {
    let lo = max_u32(lo1, lo2) as int;
    let hi = min_u32(hi1, hi2) as int;
    if hi - lo > 0 { hi - lo } else { 0 }
}

/// Area counted inclusively, as pixels.
pub open spec fn area(r: Rect) -> int {
    (r.x2 - r.x1 + 1) * (r.y2 - r.y1 + 1)
}

/// Whether the intersection over union of two boxes is at least 0.7.
pub open spec fn overlaps(a: Rect, b: Rect) -> bool {
    let inter = overlap(a.x1, a.x2, b.x1, b.x2) * overlap(a.y1, a.y2, b.y1, b.y2);
    10 * inter >= 7 * (area(a) + area(b) - inter)
}

/// Scans the boxes from `j` on for those that the seed `i` takes.
pub open spec fn scan(s: Seq<Detection>, i: int, j: int, used: Seq<bool>, b: Rect, any: bool) -> (Seq<bool>, Rect, bool)
    decreases s.len() - j,
{
    if j >= s.len() {
        (used, b, any)
    } else if !used[j] && s[i].cls == s[j].cls && overlaps(rect_of(s[i]), rect_of(s[j])) {
        scan(s, i, j + 1, used.update(j, true), hull(b, rect_of(s[j])), true)
    } else {
        scan(s, i, j + 1, used, b, any)
    }
}

/// The groups from box `i` on: for each box, `None` when an earlier group
/// took it, else the group's hull and whether it took any other box.
pub open spec fn groups(s: Seq<Detection>, i: int, used: Seq<bool>) -> Seq<Option<(Rect, bool)>>
    decreases s.len() - i,
{
    if i >= s.len() {
        Seq::empty()
    } else if used[i] {
        seq![None].add(groups(s, i + 1, used))
    } else {
        let r = scan(s, i, 0, used.update(i, true), rect_of(s[i]), false);
        seq![Some((r.1, r.2))].add(groups(s, i + 1, r.0))
    }
}

/// The groups of all boxes.
pub open spec fn all_groups(s: Seq<Detection>) -> Seq<Option<(Rect, bool)>> {
    groups(s, 0, Seq::new(s.len(), |k: int| false))
}

/// Whether `d` is the box that stands for a group seeded by `seed`: the
/// seed itself when it took nothing, else the hull with its center, the
/// seed's class and probability, and no digits.
pub open spec fn stands_for_group(d: Detection, seed: Detection, g: (Rect, bool)) -> bool {
    if !g.1 {
        d == seed
    } else {
        &&& rect_of(d) == g.0
        &&& d.w == g.0.x2 - g.0.x1
        &&& d.h == g.0.y2 - g.0.y1
        &&& d.xc == g.0.x1 + (g.0.x2 - g.0.x1) / 2
        &&& d.yc == g.0.y1 + (g.0.y2 - g.0.y1) / 2
        &&& d.cls == seed.cls
        &&& d.prob == seed.prob
        &&& d.ids@.len() == 0
    }
}

/// Whether `out` holds one detection for each group of `p` over the boxes
/// `s`, in the order of the seeds.
pub open spec fn stand_ins(out: Seq<Detection>, s: Seq<Detection>, p: Seq<Option<(Rect, bool)>>) -> bool
    decreases p.len(),
{
    if p.len() == 0 {
        out.len() == 0
    } else {
        match p.last() {
            None => stand_ins(out, s.drop_last(), p.drop_last()),
            Some(g) => out.len() > 0 && stands_for_group(out.last(), s.last(), g) && stand_ins(
                out.drop_last(),
                s.drop_last(),
                p.drop_last(),
            ),
        }
    }
}

fn rect(d: &Detection) -> (r: Rect)
    ensures
        r == rect_of(*d),
{
    Rect { x1: d.x1, y1: d.y1, x2: d.x2, y2: d.y2 }
}

fn exec_hull(a: Rect, b: Rect) -> (r: Rect)
    ensures
        r == hull(a, b),
{
    Rect {
        x1: if a.x1 <= b.x1 { a.x1 } else { b.x1 },
        y1: if a.y1 <= b.y1 { a.y1 } else { b.y1 },
        x2: if a.x2 >= b.x2 { a.x2 } else { b.x2 },
        y2: if a.y2 >= b.y2 { a.y2 } else { b.y2 },
    }
}

fn exec_overlap(lo1: u32, hi1: u32, lo2: u32, hi2: u32) -> (r: u64)
    ensures
        r as int == overlap(lo1, hi1, lo2, hi2),
{
    let lo = if lo1 >= lo2 { lo1 } else { lo2 };
    let hi = if hi1 <= hi2 { hi1 } else { hi2 };
    if hi > lo {
        (hi - lo) as u64
    } else {
        0
    }
}

fn exec_overlaps(a: Rect, b: Rect) -> (r: bool)
    requires
        ordered(a),
        ordered(b),
    ensures
        r == overlaps(a, b),
{
    let w = exec_overlap(a.x1, a.x2, b.x1, b.x2);
    let h = exec_overlap(a.y1, a.y2, b.y1, b.y2);
    assert(w <= 0xFFFF_FFFF && h <= 0xFFFF_FFFF);
    assert(w * h <= 0xFFFF_FFFF * 0xFFFF_FFFF) by (nonlinear_arith)
        requires w <= 0xFFFF_FFFF, h <= 0xFFFF_FFFF;
    let inter = (w as u128) * (h as u128);
    let aw = (a.x2 - a.x1) as u128 + 1;
    let ah = (a.y2 - a.y1) as u128 + 1;
    let bw = (b.x2 - b.x1) as u128 + 1;
    let bh = (b.y2 - b.y1) as u128 + 1;
    assert(aw * ah <= 0x1_0000_0000 * 0x1_0000_0000) by (nonlinear_arith)
        requires aw <= 0x1_0000_0000, ah <= 0x1_0000_0000;
    assert(bw * bh <= 0x1_0000_0000 * 0x1_0000_0000) by (nonlinear_arith)
        requires bw <= 0x1_0000_0000, bh <= 0x1_0000_0000;
    let areas = aw * ah + bw * bh;
    assert(area(a) == aw * ah);
    assert(area(b) == bw * bh);
    10 * inter + 7 * inter >= 7 * areas
}

/// Merges overlapping boxes of one class; see the module documentation.
pub fn merge_bboxes(bboxes: Vec<Detection>) -> (r: Vec<Detection>)
    requires
        forall|k: int| 0 <= k < bboxes@.len() ==> ordered(rect_of(#[trigger] bboxes@[k])),
    ensures
        stand_ins(r@, bboxes@, all_groups(bboxes@)),
{
    let n = bboxes.len();
    let ghost s = bboxes@;
    let mut used: Vec<bool> = Vec::new();
    let mut k: usize = 0;
    while k < n
        invariant
            k <= n,
            n == s.len(),
            used@ == Seq::new(k as nat, |t: int| false),
        decreases n - k,
    {
        used.push(false);
        k = k + 1;
        assert(used@ =~= Seq::new(k as nat, |t: int| false));
    }
    let mut plan: Vec<Option<(Rect, bool)>> = Vec::new();
    let mut i: usize = 0;
    while i < n
        invariant
            i <= n,
            n == s.len(),
            bboxes@ == s,
            used@.len() == n,
            plan@.len() == i,
            all_groups(s) == plan@ + groups(s, i as int, used@),
            forall|k: int| 0 <= k < s.len() ==> ordered(rect_of(#[trigger] s[k])),
            forall|k: int| 0 <= k < plan@.len() ==> (#[trigger] plan@[k] matches Some(g) ==> ordered(g.0)),
        decreases n - i,
    {
        if used[i] {
            plan.push(None);
            proof {
                assert(groups(s, i as int, used@) == seq![None].add(groups(s, i + 1, used@)));
                assert(plan@ + groups(s, i + 1, used@) =~= plan@.drop_last() + groups(s, i as int, used@));
            }
        } else {
            let ghost used0 = used@;
            used.set(i, true);
            let mut b = rect(&bboxes[i]);
            let mut any = false;
            let mut j: usize = 0;
            while j < n
                invariant
                    i < n,
                    j <= n,
                    n == s.len(),
                    bboxes@ == s,
                    used@.len() == n,
                    ordered(b),
                    scan(s, i as int, j as int, used@, b, any) == scan(
                        s,
                        i as int,
                        0,
                        used0.update(i as int, true),
                        rect_of(s[i as int]),
                        false,
                    ),
                    forall|k: int| 0 <= k < s.len() ==> ordered(rect_of(#[trigger] s[k])),
                decreases n - j,
            {
                let seed = rect(&bboxes[i]);
                let other = rect(&bboxes[j]);
                proof {
                    assert(ordered(rect_of(s[i as int])));
                    assert(ordered(rect_of(s[j as int])));
                }
                if !used[j] && bboxes[i].cls == bboxes[j].cls && exec_overlaps(seed, other) {
                    b = exec_hull(b, other);
                    used.set(j, true);
                    any = true;
                }
                j = j + 1;
            }
            plan.push(Some((b, any)));
            proof {
                let r = scan(s, i as int, 0, used0.update(i as int, true), rect_of(s[i as int]), false);
                assert(groups(s, i as int, used0) == seq![Some((r.1, r.2))].add(groups(s, i + 1, r.0)));
                assert(plan@ + groups(s, i + 1, used@) =~= plan@.drop_last() + groups(s, i as int, used0));
            }
        }
        i = i + 1;
    }
    assert(groups(s, n as int, used@) == Seq::<Option<(Rect, bool)>>::empty());
    assert(plan@ =~= all_groups(s));
    let mut out: Vec<Detection> = Vec::new();
    let mut rest = bboxes;
    let mut t: usize = 0;
    assert(s.subrange(0, 0) =~= Seq::<Detection>::empty());
    assert(plan@.subrange(0, 0) =~= Seq::<Option<(Rect, bool)>>::empty());
    while rest.len() > 0
        invariant
            t <= n,
            n == s.len(),
            plan@ == all_groups(s),
            plan@.len() == n,
            rest@ == s.subrange(t as int, n as int),
            stand_ins(out@, s.subrange(0, t as int), plan@.subrange(0, t as int)),
            forall|k: int| 0 <= k < plan@.len() ==> (#[trigger] plan@[k] matches Some(g) ==> ordered(g.0)),
        decreases rest.len(),
    {
        let d = rest.remove(0);
        let ghost out0 = out@;
        proof {
            let s1 = s.subrange(0, t + 1);
            let p1 = plan@.subrange(0, t + 1);
            assert(s1.drop_last() =~= s.subrange(0, t as int));
            assert(p1.drop_last() =~= plan@.subrange(0, t as int));
            assert(s1.last() == d);
            assert(p1.last() == plan@[t as int]);
        }
        match plan[t] {
            None => {},
            Some((g, any)) => {
                if any {
                    let w = g.x2 - g.x1;
                    let h = g.y2 - g.y1;
                    out.push(Detection {
                        x1: g.x1,
                        y1: g.y1,
                        x2: g.x2,
                        y2: g.y2,
                        xc: g.x1 + w / 2,
                        yc: g.y1 + h / 2,
                        cls: d.cls,
                        prob: d.prob,
                        w,
                        h,
                        ids: Vec::new(),
                    });
                } else {
                    out.push(d);
                }
            },
        }
        proof {
            if out@.len() > out0.len() {
                assert(out@.drop_last() =~= out0);
            }
        }
        t = t + 1;
    }
    assert(s.subrange(0, n as int) =~= s);
    assert(plan@.subrange(0, n as int) =~= plan@);
    out
}

} // verus!
