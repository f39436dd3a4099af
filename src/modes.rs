//! Operation modes and lap direction.
use vstd::prelude::*;

verus! {

/// Automatic operation modes.
#[derive(Debug, Clone, Copy, PartialEq, Eq, Structural)]
pub enum Modes {
    Fill,
    OneWay,
    Climb,
    Around,
    MonitorPerson,
    MonitorAnimal,
    RoundTrip,
    FollowPerson,
    Unknown,
}

/// The wire code of a mode: `0..=7` for the named modes, 255 for `Unknown`.
pub open spec fn mode_code(m: Modes) -> u8 {
    match m {
        Modes::Fill => 0,
        Modes::OneWay => 1,
        Modes::Climb => 2,
        Modes::Around => 3,
        Modes::MonitorPerson => 4,
        Modes::MonitorAnimal => 5,
        Modes::RoundTrip => 6,
        Modes::FollowPerson => 7,
        Modes::Unknown => 255,
    }
}

/// The mode that a wire code stands for.
pub open spec fn mode_of_code(i: u8) -> Modes {
    if i == 0 {
        Modes::Fill
    } else if i == 1 {
        Modes::OneWay
    } else if i == 2 {
        Modes::Climb
    } else if i == 3 {
        Modes::Around
    } else if i == 4 {
        Modes::MonitorPerson
    } else if i == 5 {
        Modes::MonitorAnimal
    } else if i == 6 {
        Modes::RoundTrip
    } else if i == 7 {
        Modes::FollowPerson
    } else {
        Modes::Unknown
    }
}

/// The mode that a configuration name stands for.
pub open spec fn mode_of_name(s: Seq<char>) -> Modes {
    if s == "fill"@ {
        Modes::Fill
    } else if s == "oneway"@ {
        Modes::OneWay
    } else if s == "climb"@ {
        Modes::Climb
    } else if s == "around"@ {
        Modes::Around
    } else if s == "monitor_animal"@ {
        Modes::MonitorAnimal
    } else if s == "monitor_person"@ {
        Modes::MonitorPerson
    } else if s == "round_trip"@ {
        Modes::RoundTrip
    } else if s == "follow_person"@ {
        Modes::FollowPerson
    } else {
        Modes::Unknown
    }
}

/// Whether two strings hold the same characters.
pub fn str_equal(a: &str, b: &str) -> (r: bool)
    ensures
        r == (a@ == b@),
{
    let n = a.unicode_len();
    if n != b.unicode_len() {
        return false;
    }
    let mut i: usize = 0;
    while i < n
        invariant
            n == a@.len(),
            n == b@.len(),
            i <= n,
            a@.subrange(0, i as int) == b@.subrange(0, i as int),
        decreases n - i,
    {
        if a.get_char(i) != b.get_char(i) {
            assert(a@[i as int] != b@[i as int]);
            return false;
        }
        assert(a@.subrange(0, i + 1) == a@.subrange(0, i as int).push(a@[i as int]));
        assert(b@.subrange(0, i + 1) == b@.subrange(0, i as int).push(b@[i as int]));
        i = i + 1;
    }
    assert(a@ == a@.subrange(0, n as int));
    assert(b@ == b@.subrange(0, n as int));
    true
}

impl Modes {
    /// Convert a string to an operation mode.
    pub fn from_string(s: &str) -> (r: Modes)
        ensures
            r == mode_of_name(s@),
    {
        if str_equal(s, "fill") {
            Modes::Fill
        } else if str_equal(s, "oneway") {
            Modes::OneWay
        } else if str_equal(s, "climb") {
            Modes::Climb
        } else if str_equal(s, "around") {
            Modes::Around
        } else if str_equal(s, "monitor_animal") {
            Modes::MonitorAnimal
        } else if str_equal(s, "monitor_person") {
            Modes::MonitorPerson
        } else if str_equal(s, "round_trip") {
            Modes::RoundTrip
        } else if str_equal(s, "follow_person") {
            Modes::FollowPerson
        } else {
            Modes::Unknown
        }
    }

    /// Convert an integer to an operation mode.
    pub fn from_u8(i: u8) -> (r: Modes)
        ensures
            r == mode_of_code(i),
    {
        match i {
            0 => Modes::Fill,
            1 => Modes::OneWay,
            2 => Modes::Climb,
            3 => Modes::Around,
            4 => Modes::MonitorPerson,
            5 => Modes::MonitorAnimal,
            6 => Modes::RoundTrip,
            7 => Modes::FollowPerson,
            _ => Modes::Unknown,
        }
    }

    /// Convert an operation mode to an integer.
    pub fn to_u8(mode: Modes) -> (r: u8)
        ensures
            r == mode_code(mode),
    {
        match mode {
            Modes::Fill => 0,
            Modes::OneWay => 1,
            Modes::Climb => 2,
            Modes::Around => 3,
            Modes::MonitorPerson => 4,
            Modes::MonitorAnimal => 5,
            Modes::RoundTrip => 6,
            Modes::FollowPerson => 7,
            Modes::Unknown => 255,
        }
    }
}

/// Decoding the code of a mode gives the mode back, and each code of
/// `0..=7` or 255 is the code of the mode that it decodes to.
pub proof fn lemma_mode_code_round_trip(m: Modes, i: u8)
    ensures
        mode_of_code(mode_code(m)) == m,
        (i <= 7 || i == 255) ==> mode_code(mode_of_code(i)) == i,
{
}

/// The direction of laps.
#[derive(Debug, Clone, Copy, PartialEq, Eq, Structural)]
pub enum Phase {
    CW,
    CCW,
}

} // verus!
