//! Detections as the vision collaborator hands them over, their classes, and
//! the orderings and filters that the pilot applies to them.
use vstd::prelude::*;

verus! {

/// One detected object, in pixels of the current frame. The center is
/// truncated to whole pixels and the probability is in thousandths.
#[derive(Debug, Clone, PartialEq)]
pub struct Detection {
    pub x1: u32,
    pub y1: u32,
    pub x2: u32,
    pub y2: u32,
    pub xc: u32,
    pub yc: u32,
    pub cls: u32,
    pub prob: u32,
    pub w: u32,
    pub h: u32,
    pub ids: Vec<u8>,
}

/// The empty detection, which stands for "no marker".
pub open spec fn is_blank(d: Detection) -> bool {
    &&& d.x1 == 0 && d.y1 == 0 && d.x2 == 0 && d.y2 == 0
    &&& d.xc == 0 && d.yc == 0 && d.cls == 0 && d.prob == 0
    &&& d.w == 0 && d.h == 0 && d.ids@.len() == 0
}

impl Detection {
    /// The empty detection.
    pub fn new() -> (r: Detection)
        ensures
            is_blank(r),
    {
        Detection {
            x1: 0,
            y1: 0,
            x2: 0,
            y2: 0,
            xc: 0,
            yc: 0,
            cls: 0,
            prob: 0,
            w: 0,
            h: 0,
            ids: Vec::new(),
        }
    }
}

/// Classes of the base model.
#[derive(Debug, Clone, Copy, PartialEq, Eq, Structural)]
pub enum RoktrackClasses {
    PYLON,
    PERSON,
    ROKTRACK,
}

/// Class id of a pylon.
pub const PYLON_CLASS: u32 = 0;

/// Class id of a person.
pub const PERSON_CLASS: u32 = 1;

/// Class id of another robot.
pub const ROBOT_CLASS: u32 = 2;

pub open spec fn roktrack_class_id(c: RoktrackClasses) -> u32 {
    match c {
        RoktrackClasses::PYLON => 0,
        RoktrackClasses::PERSON => 1,
        RoktrackClasses::ROKTRACK => 2,
    }
}

impl RoktrackClasses {
    /// The class with the given id, if there is one.
    pub fn from_u32(i: u32) -> (r: Option<RoktrackClasses>)
        ensures
            r is Some <==> i <= 2,
            r matches Some(c) ==> roktrack_class_id(c) == i,
    {
        match i {
            0 => Some(RoktrackClasses::PYLON),
            1 => Some(RoktrackClasses::PERSON),
            2 => Some(RoktrackClasses::ROKTRACK),
            _ => None,
        }
    }

    /// The id of the class.
    pub fn to_u32(&self) -> (r: u32)
        ensures
            r == roktrack_class_id(*self),
    {
        match self {
            RoktrackClasses::PYLON => 0,
            RoktrackClasses::PERSON => 1,
            RoktrackClasses::ROKTRACK => 2,
        }
    }
}

/// Classes of the animal model.
#[derive(Debug, Clone, Copy, PartialEq, Eq, Structural)]
pub enum AnimalClasses {
    BEAR,
    DEER,
    MONKEY,
    BOAR,
    BADGER,
    CAT,
    CIVET,
    DOG,
    FOX,
    HARE,
    RACOON,
    SQUIRREL,
}

pub open spec fn animal_class_id(c: AnimalClasses) -> u32 {
    match c {
        AnimalClasses::BEAR => 0,
        AnimalClasses::DEER => 1,
        AnimalClasses::MONKEY => 2,
        AnimalClasses::BOAR => 3,
        AnimalClasses::BADGER => 4,
        AnimalClasses::CAT => 5,
        AnimalClasses::CIVET => 6,
        AnimalClasses::DOG => 7,
        AnimalClasses::FOX => 8,
        AnimalClasses::HARE => 9,
        AnimalClasses::RACOON => 10,
        AnimalClasses::SQUIRREL => 11,
    }
}

impl AnimalClasses {
    /// The class with the given id, if there is one.
    pub fn from_u32(i: u32) -> (r: Option<AnimalClasses>)
        ensures
            r is Some <==> i <= 11,
            r matches Some(c) ==> animal_class_id(c) == i,
    {
        match i {
            0 => Some(AnimalClasses::BEAR),
            1 => Some(AnimalClasses::DEER),
            2 => Some(AnimalClasses::MONKEY),
            3 => Some(AnimalClasses::BOAR),
            4 => Some(AnimalClasses::BADGER),
            5 => Some(AnimalClasses::CAT),
            6 => Some(AnimalClasses::CIVET),
            7 => Some(AnimalClasses::DOG),
            8 => Some(AnimalClasses::FOX),
            9 => Some(AnimalClasses::HARE),
            10 => Some(AnimalClasses::RACOON),
            11 => Some(AnimalClasses::SQUIRREL),
            _ => None,
        }
    }

    /// The id of the class.
    pub fn to_u32(&self) -> (r: u32)
        ensures
            r == animal_class_id(*self),
    {
        match self {
            AnimalClasses::BEAR => 0,
            AnimalClasses::DEER => 1,
            AnimalClasses::MONKEY => 2,
            AnimalClasses::BOAR => 3,
            AnimalClasses::BADGER => 4,
            AnimalClasses::CAT => 5,
            AnimalClasses::CIVET => 6,
            AnimalClasses::DOG => 7,
            AnimalClasses::FOX => 8,
            AnimalClasses::HARE => 9,
            AnimalClasses::RACOON => 10,
            AnimalClasses::SQUIRREL => 11,
        }
    }
}

/// Input sizes of the detector sessions.
#[derive(Debug, Clone, Copy, PartialEq, Eq, Structural)]
pub enum SessionType {
    Sz320,
    Sz640,
    Ocr,
}

impl SessionType {
    /// Side length in pixels of the square image that the session takes.
    pub fn get_imgsz(&self) -> (r: u32)
        ensures
            r == match *self {
                SessionType::Sz320 => 320u32,
                SessionType::Sz640 => 640u32,
                SessionType::Ocr => 96u32,
            },
    {
        match self {
            SessionType::Sz320 => 320,
            SessionType::Sz640 => 640,
            SessionType::Ocr => 96,
        }
    }
}

/// The detections of one class, in their order.
pub open spec fn of_class(s: Seq<Detection>, cls: u32) -> Seq<Detection>
    decreases s.len(),
{
    if s.len() == 0 {
        Seq::empty()
    } else if s.last().cls == cls {
        of_class(s.drop_last(), cls).push(s.last())
    } else {
        of_class(s.drop_last(), cls)
    }
}

/// The detections whose digit list holds `id`, in their order.
pub open spec fn with_id(s: Seq<Detection>, id: u8) -> Seq<Detection>
    decreases s.len(),
{
    if s.len() == 0 {
        Seq::empty()
    } else if s.last().ids@.contains(id) {
        with_id(s.drop_last(), id).push(s.last())
    } else {
        with_id(s.drop_last(), id)
    }
}

/// Keeps the detections of class `cls`, in their order.
pub fn filter_class(dets: Vec<Detection>, cls: u32) -> (r: Vec<Detection>)
    ensures
        r@ == of_class(dets@, cls),
{
    let ghost orig = dets@;
    let mut rest = dets;
    let mut out: Vec<Detection> = Vec::new();
    let mut i: usize = 0;
    assert(orig.len() == rest.len());
    while rest.len() > 0
        invariant
            i <= orig.len(),
            orig.len() <= usize::MAX,
            rest@ == orig.subrange(i as int, orig.len() as int),
            out@ == of_class(orig.subrange(0, i as int), cls),
        decreases rest.len(),
    {
        let d = rest.remove(0);
        proof {
            let t = orig.subrange(0, i + 1);
            assert(t.drop_last() == orig.subrange(0, i as int));
            assert(t.last() == d);
        }
        if d.cls == cls {
            out.push(d);
        }
        i = i + 1;
    }
    assert(orig.subrange(0, orig.len() as int) == orig);
    out
}

/// Keeps the detections whose digit list holds `id`, in their order.
pub fn filter_id(dets: Vec<Detection>, id: u8) -> (r: Vec<Detection>)
    ensures
        r@ == with_id(dets@, id),
{
    let ghost orig = dets@;
    let mut rest = dets;
    let mut out: Vec<Detection> = Vec::new();
    let mut i: usize = 0;
    assert(orig.len() == rest.len());
    while rest.len() > 0
        invariant
            i <= orig.len(),
            orig.len() <= usize::MAX,
            rest@ == orig.subrange(i as int, orig.len() as int),
            out@ == with_id(orig.subrange(0, i as int), id),
        decreases rest.len(),
    {
        let d = rest.remove(0);
        proof {
            let t = orig.subrange(0, i + 1);
            assert(t.drop_last() == orig.subrange(0, i as int));
            assert(t.last() == d);
        }
        if contains_id(&d.ids, id) {
            out.push(d);
        }
        i = i + 1;
    }
    assert(orig.subrange(0, orig.len() as int) == orig);
    out
}

fn contains_id(ids: &Vec<u8>, id: u8) -> (r: bool)
    ensures
        r == ids@.contains(id),
{
    let mut i: usize = 0;
    while i < ids.len()
        invariant
            i <= ids@.len(),
            forall|j: int| 0 <= j < i ==> ids@[j] != id,
        decreases ids@.len() - i,
    {
        if ids[i] == id {
            return true;
        }
        i = i + 1;
    }
    false
}

/// Whether some detection is of class `cls`.
pub open spec fn has_class(s: Seq<Detection>, cls: u32) -> bool {
    exists|i: int| 0 <= i < s.len() && (#[trigger] s[i]).cls == cls
}

/// Whether some detection is of class `cls`.
pub fn any_of_class(dets: &[Detection], cls: u32) -> (r: bool)
    ensures
        r == has_class(dets@, cls),
{
    let mut i: usize = 0;
    while i < dets.len()
        invariant
            i <= dets@.len(),
            forall|j: int| 0 <= j < i ==> dets@[j].cls != cls,
        decreases dets@.len() - i,
    {
        if dets[i].cls == cls {
            return true;
        }
        i = i + 1;
    }
    false
}

/// Filtering detections by class.
pub trait FilterClass {
    /// The detections of class `cls_id`, in their order.
    fn filter(dets: Vec<Detection>, cls_id: u32) -> (r: Vec<Detection>)
        ensures
            r@ == of_class(dets@, cls_id),
    ;
}

impl FilterClass for RoktrackClasses {
    fn filter(dets: Vec<Detection>, cls_id: u32) -> (r: Vec<Detection>) {
        filter_class(dets, cls_id)
    }
}

impl FilterClass for AnimalClasses {
    fn filter(dets: Vec<Detection>, cls_id: u32) -> (r: Vec<Detection>) {
        filter_class(dets, cls_id)
    }
}

/// What detections are ordered by; the order is ascending in the key.
#[derive(Debug, Clone, Copy, PartialEq, Eq, Structural)]
pub enum SortKey {
    /// Rightmost first.
    Right,
    /// Leftmost first.
    Left,
    /// Topmost first.
    Top,
    /// Lowest first.
    Bottom,
    /// Tallest first.
    Big,
    /// Shortest first.
    Small,
}

pub open spec fn key_of(d: Detection, k: SortKey) -> int {
    match k {
        SortKey::Right => -(d.xc as int),
        SortKey::Left => d.xc as int,
        SortKey::Top => d.yc as int,
        SortKey::Bottom => -(d.yc as int),
        SortKey::Big => -(d.h as int),
        SortKey::Small => d.h as int,
    }
}

/// Puts `d` into `s` before the first element whose key is larger.
pub open spec fn insert_by(s: Seq<Detection>, d: Detection, k: SortKey) -> Seq<Detection>
    decreases s.len(),
{
    if s.len() == 0 {
        seq![d]
    } else if key_of(d, k) < key_of(s[0], k) {
        seq![d] + s
    } else {
        seq![s[0]] + insert_by(s.drop_first(), d, k)
    }
}

/// The stable ascending order of `s` by key: elements with equal keys keep
/// their relative order.
pub open spec fn sorted_by(s: Seq<Detection>, k: SortKey) -> Seq<Detection>
    decreases s.len(),
{
    if s.len() == 0 {
        Seq::empty()
    } else {
        insert_by(sorted_by(s.drop_last(), k), s.last(), k)
    }
}

proof fn lemma_insert_at(s: Seq<Detection>, d: Detection, k: SortKey, p: int)
    requires
        0 <= p <= s.len(),
        forall|j: int| 0 <= j < p ==> key_of(#[trigger] s[j], k) <= key_of(d, k),
        p < s.len() ==> key_of(d, k) < key_of(s[p], k),
    ensures
        insert_by(s, d, k) == s.subrange(0, p) + seq![d] + s.subrange(p, s.len() as int),
    decreases p,
{
    if p == 0 {
        if s.len() == 0 {
            assert(s.subrange(0, 0) + seq![d] + s.subrange(0, 0) == seq![d]);
        } else {
            assert(s.subrange(0, 0) + seq![d] + s.subrange(0, s.len() as int) == seq![d] + s);
        }
    } else {
        let t = s.drop_first();
        assert forall|j: int| 0 <= j < p - 1 implies key_of(#[trigger] t[j], k) <= key_of(d, k) by {
            assert(t[j] == s[j + 1]);
        }
        if p - 1 < t.len() {
            assert(t[p - 1] == s[p]);
        }
        lemma_insert_at(t, d, k, p - 1);
        assert(key_of(s[0], k) <= key_of(d, k));
        assert(seq![s[0]] + (t.subrange(0, p - 1) + seq![d] + t.subrange(p - 1, t.len() as int))
            == s.subrange(0, p) + seq![d] + s.subrange(p, s.len() as int));
    }
}

fn exec_key(d: &Detection, k: SortKey) -> (r: i64)
    ensures
        r as int == key_of(*d, k),
{
    match k {
        SortKey::Right => -(d.xc as i64),
        SortKey::Left => d.xc as i64,
        SortKey::Top => d.yc as i64,
        SortKey::Bottom => -(d.yc as i64),
        SortKey::Big => -(d.h as i64),
        SortKey::Small => d.h as i64,
    }
}

/// Orders detections by key, stably.
pub fn sort_by_key(dets: Vec<Detection>, k: SortKey) -> (r: Vec<Detection>)
    ensures
        r@ == sorted_by(dets@, k),
{
    let ghost orig = dets@;
    let mut rest = dets;
    let mut out: Vec<Detection> = Vec::new();
    let mut i: usize = 0;
    assert(orig.len() == rest.len());
    while rest.len() > 0
        invariant
            i <= orig.len(),
            orig.len() <= usize::MAX,
            rest@ == orig.subrange(i as int, orig.len() as int),
            out@ == sorted_by(orig.subrange(0, i as int), k),
        decreases rest.len(),
    {
        let d = rest.remove(0);
        let kd = exec_key(&d, k);
        let mut p: usize = 0;
        while p < out.len() && exec_key(&out[p], k) <= kd
            invariant
                p <= out@.len(),
                kd as int == key_of(d, k),
                forall|j: int| 0 <= j < p ==> key_of(#[trigger] out@[j], k) <= key_of(d, k),
            decreases out@.len() - p,
        {
            p = p + 1;
        }
        proof {
            lemma_insert_at(out@, d, k, p as int);
            let t = orig.subrange(0, i + 1);
            assert(t.drop_last() == orig.subrange(0, i as int));
            assert(t.last() == d);
        }
        out.insert(p, d);
        i = i + 1;
    }
    assert(orig.subrange(0, orig.len() as int) == orig);
    out
}

} // verus!
