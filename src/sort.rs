//! Orderings of detections. Each one is stable: detections that tie keep
//! their order.
use vstd::prelude::*;
use crate::detection::{Detection, SortKey, sort_by_key, sorted_by};

verus! {

/// Rightmost center first.
pub fn right(dets: Vec<Detection>) -> (r: Vec<Detection>)
    ensures
        r@ == sorted_by(dets@, SortKey::Right),
{
    sort_by_key(dets, SortKey::Right)
}

/// Leftmost center first.
pub fn left(dets: Vec<Detection>) -> (r: Vec<Detection>)
    ensures
        r@ == sorted_by(dets@, SortKey::Left),
{
    sort_by_key(dets, SortKey::Left)
}

/// Topmost center first.
pub fn top(dets: Vec<Detection>) -> (r: Vec<Detection>)
    ensures
        r@ == sorted_by(dets@, SortKey::Top),
{
    sort_by_key(dets, SortKey::Top)
}

/// Lowest center first.
pub fn bottom(dets: Vec<Detection>) -> (r: Vec<Detection>)
    ensures
        r@ == sorted_by(dets@, SortKey::Bottom),
{
    sort_by_key(dets, SortKey::Bottom)
}

/// Tallest first.
pub fn big(dets: Vec<Detection>) -> (r: Vec<Detection>)
    ensures
        r@ == sorted_by(dets@, SortKey::Big),
{
    sort_by_key(dets, SortKey::Big)
}

/// Shortest first.
pub fn small(dets: Vec<Detection>) -> (r: Vec<Detection>)
    ensures
        r@ == sorted_by(dets@, SortKey::Small),
{
    sort_by_key(dets, SortKey::Small)
}

} // verus!
