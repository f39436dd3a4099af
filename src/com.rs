//! Peer messages: the codes that robots and the controller exchange, and the
//! reading of a received advertisement into a `Neighbor`.
use vstd::prelude::*;
use crate::modes::{Modes, mode_of_code};
use vstd::slice::slice_subrange;
use crate::clock::timestamp_now;

verus! {

/// A message that a robot reports about itself.
#[derive(Debug, Clone, Copy, PartialEq, Eq, Structural)]
pub enum ChildMsg {
    Halt,
    Bumped,
    PersonFoundPause,
    ReachTarget,
    TargetLost,
    NewTargetFound,
    FromCwToCcw,
    PiTempHighHalt,
    MissionComplete,
    TargetNotFound,
    LeaderWaiting,
    TarailerPrepaired,
    ClimbUp,
    ClimbDown,
    Ack,
    PersonFoundWarn,
    AnimalFound,
    Unknown,
}

/// The wire code of a child message: its place in the list, 255 for `Unknown`.
pub open spec fn child_code(m: ChildMsg) -> u8 {
    match m {
        ChildMsg::Halt => 0,
        ChildMsg::Bumped => 1,
        ChildMsg::PersonFoundPause => 2,
        ChildMsg::ReachTarget => 3,
        ChildMsg::TargetLost => 4,
        ChildMsg::NewTargetFound => 5,
        ChildMsg::FromCwToCcw => 6,
        ChildMsg::PiTempHighHalt => 7,
        ChildMsg::MissionComplete => 8,
        ChildMsg::TargetNotFound => 9,
        ChildMsg::LeaderWaiting => 10,
        ChildMsg::TarailerPrepaired => 11,
        ChildMsg::ClimbUp => 12,
        ChildMsg::ClimbDown => 13,
        ChildMsg::Ack => 14,
        ChildMsg::PersonFoundWarn => 15,
        ChildMsg::AnimalFound => 16,
        ChildMsg::Unknown => 255,
    }
}

impl ChildMsg {
    /// Converts a u8 value to a ChildMsg: the message whose code it is, else `Unknown`.
    pub fn from_u8(i: u8) -> (r: ChildMsg)
        ensures
            i <= 16 ==> child_code(r) == i,
            i > 16 ==> r == ChildMsg::Unknown,
    {
        match i {
            0 => ChildMsg::Halt,
            1 => ChildMsg::Bumped,
            2 => ChildMsg::PersonFoundPause,
            3 => ChildMsg::ReachTarget,
            4 => ChildMsg::TargetLost,
            5 => ChildMsg::NewTargetFound,
            6 => ChildMsg::FromCwToCcw,
            7 => ChildMsg::PiTempHighHalt,
            8 => ChildMsg::MissionComplete,
            9 => ChildMsg::TargetNotFound,
            10 => ChildMsg::LeaderWaiting,
            11 => ChildMsg::TarailerPrepaired,
            12 => ChildMsg::ClimbUp,
            13 => ChildMsg::ClimbDown,
            14 => ChildMsg::Ack,
            15 => ChildMsg::PersonFoundWarn,
            16 => ChildMsg::AnimalFound,
            _ => ChildMsg::Unknown,
        }
    }

    /// Converts a ChildMsg to its u8 code.
    pub fn to_u8(msg: ChildMsg) -> (r: u8)
        ensures
            r == child_code(msg),
    {
        match msg {
            ChildMsg::Halt => 0,
            ChildMsg::Bumped => 1,
            ChildMsg::PersonFoundPause => 2,
            ChildMsg::ReachTarget => 3,
            ChildMsg::TargetLost => 4,
            ChildMsg::NewTargetFound => 5,
            ChildMsg::FromCwToCcw => 6,
            ChildMsg::PiTempHighHalt => 7,
            ChildMsg::MissionComplete => 8,
            ChildMsg::TargetNotFound => 9,
            ChildMsg::LeaderWaiting => 10,
            ChildMsg::TarailerPrepaired => 11,
            ChildMsg::ClimbUp => 12,
            ChildMsg::ClimbDown => 13,
            ChildMsg::Ack => 14,
            ChildMsg::PersonFoundWarn => 15,
            ChildMsg::AnimalFound => 16,
            ChildMsg::Unknown => 255,
        }
    }
}

/// A command from the controller.
#[derive(Debug, Clone, Copy, PartialEq, Eq, Structural)]
pub enum ParentMsg {
    Off,
    On,
    Reset,
    Stop,
    Forward,
    Backward,
    Left,
    Right,
    Fill,
    Oneway,
    Climb,
    Around,
    MonitorPerson,
    MonitorAnimal,
    RoundTrip,
    FollowPerson,
    Unknown,
}

/// The command that a controller code stands for.
pub open spec fn parent_of_code(i: u8) -> ParentMsg {
    if i == 0 {
        ParentMsg::Off
    } else if i == 1 {
        ParentMsg::On
    } else if i == 2 {
        ParentMsg::Reset
    } else if i == 3 {
        ParentMsg::Stop
    } else if i == 4 {
        ParentMsg::Forward
    } else if i == 5 {
        ParentMsg::Backward
    } else if i == 6 {
        ParentMsg::Left
    } else if i == 7 {
        ParentMsg::Right
    } else if i == 10 {
        ParentMsg::Fill
    } else if i == 11 {
        ParentMsg::Oneway
    } else if i == 12 {
        ParentMsg::Climb
    } else if i == 13 {
        ParentMsg::Around
    } else if i == 14 {
        ParentMsg::MonitorPerson
    } else if i == 15 {
        ParentMsg::MonitorAnimal
    } else if i == 16 {
        ParentMsg::RoundTrip
    } else if i == 17 {
        ParentMsg::FollowPerson
    } else {
        ParentMsg::Unknown
    }
}

impl ParentMsg {
    /// Converts a u8 value to a ParentMsg.
    pub fn from_u8(i: u8) -> (r: ParentMsg)
        ensures
            r == parent_of_code(i),
    {
        match i {
            0 => ParentMsg::Off,
            1 => ParentMsg::On,
            2 => ParentMsg::Reset,
            3 => ParentMsg::Stop,
            4 => ParentMsg::Forward,
            5 => ParentMsg::Backward,
            6 => ParentMsg::Left,
            7 => ParentMsg::Right,
            10 => ParentMsg::Fill,
            11 => ParentMsg::Oneway,
            12 => ParentMsg::Climb,
            13 => ParentMsg::Around,
            14 => ParentMsg::MonitorPerson,
            15 => ParentMsg::MonitorAnimal,
            16 => ParentMsg::RoundTrip,
            17 => ParentMsg::FollowPerson,
            _ => ParentMsg::Unknown,
        }
    }
}

/// State of a peer as its advertisement reports it.
#[derive(Debug, Clone)]
pub struct Neighbor {
    pub timestamp: String,
    pub rssi: u8,
    pub mac: String,
    pub manufacturer_id: u16,
    pub identifier: u8,
    pub state: bool,
    pub rest: u8,
    pub pi_temp: u8,
    pub mode: Modes,
    pub msg: u8,
    pub dest: u8,
}

/// Relies on bitreader's `BitReader::read_u8`, which reads bits from the most
/// significant one down: one bit and then seven bits of a single byte.
#[verifier::external_body]
fn split_state_byte(byte: u8) -> (r: (bool, u8))
    ensures
        r.0 == (byte >= 128),
        r.1 == byte % 128,
{
    let buf = [byte];
    let mut reader = bitreader::BitReader::new(&buf);
    let state = reader.read_u8(1).unwrap() != 0;
    let rest = reader.read_u8(7).unwrap();
    (state, rest)
}

/// What `Neighbor::from_manufacture_data_at` reads from a payload.
pub open spec fn neighbor_fields_match(n: Neighbor, data: Seq<u8>) -> bool {
    &&& n.identifier == data[0]
    &&& n.state == (data[1] >= 128)
    &&& n.rest == data[1] % 128
    &&& n.pi_temp == data[2]
    &&& n.mode == mode_of_code(data[3])
    &&& n.msg == data[4]
    &&& n.dest == data[5]
}

impl Neighbor {
    /// Reads neighbor state from a payload, stamped with the given time:
    /// identifier, then state (high bit) and rest (low seven bits), SoC
    /// temperature, mode, message and destination.
    pub fn from_manufacture_data_at(data: &[u8], timestamp: String) -> (r: Neighbor)
        requires
            data@.len() >= 6,
        ensures
            neighbor_fields_match(r, data@),
            r.timestamp@ == timestamp@,
            r.rssi == 0,
            r.mac@ == Seq::<char>::empty(),
            r.manufacturer_id == 0,
    {
        let (state, rest) = split_state_byte(data[1]);
        Neighbor {
            timestamp,
            rssi: 0,
            mac: String::new(),
            manufacturer_id: 0,
            identifier: data[0],
            state,
            rest,
            pi_temp: data[2],
            mode: Modes::from_u8(data[3]),
            msg: data[4],
            dest: data[5],
        }
    }

    /// Reads neighbor state from a payload, stamped with the present time.
    pub fn from_manufacture_data(data: &[u8]) -> (r: Neighbor)
        requires
            data@.len() >= 6,
        ensures
            neighbor_fields_match(r, data@),
            r.rssi == 0,
            r.mac@ == Seq::<char>::empty(),
            r.manufacturer_id == 0,
    {
        let now = timestamp_now();
        Self::from_manufacture_data_at(data, now)
    }
}

/// The decimal digit `d` as a character.
pub open spec fn digit_char(d: int) -> char {
    if d == 0 {
        '0'
    } else if d == 1 {
        '1'
    } else if d == 2 {
        '2'
    } else if d == 3 {
        '3'
    } else if d == 4 {
        '4'
    } else if d == 5 {
        '5'
    } else if d == 6 {
        '6'
    } else if d == 7 {
        '7'
    } else if d == 8 {
        '8'
    } else {
        '9'
    }
}

/// A byte written in decimal, without leading zeros.
pub open spec fn decimal(b: u8) -> Seq<char> {
    let n = b as int;
    if n < 10 {
        seq![digit_char(n)]
    } else if n < 100 {
        seq![digit_char(n / 10), digit_char(n % 10)]
    } else {
        seq![digit_char(n / 100), digit_char((n / 10) % 10), digit_char(n % 10)]
    }
}

/// Bytes written in decimal and joined by colons.
pub open spec fn colon_decimal(s: Seq<u8>) -> Seq<char>
    decreases s.len(),
{
    if s.len() == 0 {
        Seq::empty()
    } else if s.len() == 1 {
        decimal(s[0])
    } else {
        colon_decimal(s.drop_last()) + seq![':'] + decimal(s.last())
    }
}

fn push_digit(out: &mut String, d: u8)
    requires
        d < 10,
    ensures
        final(out)@ == old(out)@.push(digit_char(d as int)),
{
    let t = match d {
        0 => "0",
        1 => "1",
        2 => "2",
        3 => "3",
        4 => "4",
        5 => "5",
        6 => "6",
        7 => "7",
        8 => "8",
        _ => "9",
    };
    proof {
        reveal_strlit("0");
        reveal_strlit("1");
        reveal_strlit("2");
        reveal_strlit("3");
        reveal_strlit("4");
        reveal_strlit("5");
        reveal_strlit("6");
        reveal_strlit("7");
        reveal_strlit("8");
        reveal_strlit("9");
    }
    out.append(t);
}

fn push_decimal(out: &mut String, b: u8)
    ensures
        final(out)@ == old(out)@ + decimal(b),
{
    if b < 10 {
        push_digit(out, b);
    } else if b < 100 {
        push_digit(out, b / 10);
        push_digit(out, b % 10);
    } else {
        push_digit(out, b / 100);
        push_digit(out, (b / 10) % 10);
        push_digit(out, b % 10);
    }
}

/// The bytes written in decimal and joined by colons, as a hardware address is shown.
pub fn mac_text(bytes: &[u8]) -> (r: String)
    ensures
        r@ == colon_decimal(bytes@),
{
    let mut out = String::new();
    let mut i: usize = 0;
    while i < bytes.len()
        invariant
            i <= bytes@.len(),
            out@ == colon_decimal(bytes@.subrange(0, i as int)),
        decreases bytes@.len() - i,
    {
        let ghost before = out@;
        if i > 0 {
            proof {
                reveal_strlit(":");
            }
            out.append(":");
        }
        push_decimal(&mut out, bytes[i]);
        proof {
            let s = bytes@.subrange(0, i + 1);
            assert(s.drop_last() == bytes@.subrange(0, i as int));
            assert(s.last() == bytes@[i as int]);
            if i == 0 {
                assert(s.len() == 1);
            }
        }
        i = i + 1;
    }
    assert(bytes@.subrange(0, bytes@.len() as int) == bytes@);
    out
}

/// Handler of broadcast advertisements.
pub struct BleBroadCast {}

/// Sender side of broadcast advertisements.
pub struct BleBroadCastInner {}

impl BleBroadCast {
    /// Reads a raw advertisement report: the sender's address from bytes
    /// `7..13`, the signal strength from the last byte and the payload from
    /// byte 23 on.
    pub fn bytes_to_neighbor(bytes: &[u8]) -> (r: Neighbor)
        requires
            bytes@.len() >= 29,
        ensures
            neighbor_fields_match(r, bytes@.subrange(23, bytes@.len() as int)),
            r.mac@ == colon_decimal(bytes@.subrange(7, 13)),
            r.manufacturer_id == 65535,
            r.rssi == bytes@.last(),
    {
        let mac = mac_text(slice_subrange(bytes, 7, 13));
        let rssi = bytes[bytes.len() - 1];
        let data = slice_subrange(bytes, 23, bytes.len());
        let mut neighbor = Neighbor::from_manufacture_data(data);
        neighbor.mac = mac;
        neighbor.manufacturer_id = 65535;
        neighbor.rssi = rssi;
        neighbor
    }
}

/// The hex digit value of a character, if it is one.
pub open spec fn hex_value(c: char) -> Option<u8> {
    if '0' <= c && c <= '9' {
        Some((c as u32 - '0' as u32) as u8)
    } else if 'a' <= c && c <= 'f' {
        Some((c as u32 - 'a' as u32 + 10) as u8)
    } else if 'A' <= c && c <= 'F' {
        Some((c as u32 - 'A' as u32 + 10) as u8)
    } else {
        None
    }
}

/// Whether text is an even number of hex digits.
pub open spec fn is_hex_text(s: Seq<char>) -> bool {
    &&& s.len() % 2 == 0
    &&& forall|i: int| 0 <= i < s.len() ==> (#[trigger] hex_value(s[i])) is Some
}

/// The bytes that hex text stands for, two digits each, high digit first.
pub open spec fn hex_bytes(s: Seq<char>) -> Seq<u8> {
    Seq::new(
        (s.len() / 2) as nat,
        |i: int| (hex_value(s[2 * i])->0 * 16 + hex_value(s[2 * i + 1])->0) as u8,
    )
}

/// Relies on hex's `decode`: it accepts an even number of hex digits of
/// either case and gives a byte for each pair, high digit first; anything
/// else is an error.
#[verifier::external_body]
fn hex_decode(s: &str) -> (r: Option<Vec<u8>>)
    ensures
        r is Some <==> is_hex_text(s@),
        r matches Some(b) ==> b@ == hex_bytes(s@),
{
    hex::decode(s).ok()
}

/// Whether raw report bytes are a vendor advertisement of this fleet: an LE
/// meta event (4, 62) whose manufacturer id at bytes 20 and 21 is 0xFFFF.
pub open spec fn is_fleet_report(b: Seq<u8>) -> bool {
    b.len() > 22 && b[0] == 4 && b[1] == 62 && b[20] == 255 && b[21] == 255
}

/// Reads one advertisement report given as hex text: `None` unless the text
/// is hex, its bytes are a fleet report, and it is long enough to hold a
/// payload.
pub fn parse_report(text: &str) -> (r: Option<Neighbor>)
    ensures
        r is Some <==> (is_hex_text(text@) && is_fleet_report(hex_bytes(text@))
            && hex_bytes(text@).len() >= 29),
        r matches Some(n) ==> {
            let b = hex_bytes(text@);
            &&& neighbor_fields_match(n, b.subrange(23, b.len() as int))
            &&& n.mac@ == colon_decimal(b.subrange(7, 13))
            &&& n.rssi == b.last()
        },
{
    match hex_decode(text) {
        Some(b) => {
            if b.len() >= 29 && b[0] == 4 && b[1] == 62 && b[20] == 255 && b[21] == 255 {
                Some(BleBroadCast::bytes_to_neighbor(b.as_slice()))
            } else {
                None
            }
        },
        None => None,
    }
}

/// Whether the character at `k` is kept in report text: spaces go, and so
/// does a `>` that a space follows.
pub open spec fn kept_at(s: Seq<char>, k: int) -> bool {
    s[k] != ' ' && !(s[k] == '>' && k + 1 < s.len() && s[k + 1] == ' ')
}

/// The kept characters among the first `k` of `s`.
pub open spec fn kept_prefix(s: Seq<char>, k: int) -> Seq<char>
    decreases k,
{
    if k <= 0 {
        Seq::empty()
    } else if kept_at(s, k - 1) {
        kept_prefix(s, k - 1).push(s[k - 1])
    } else {
        kept_prefix(s, k - 1)
    }
}

/// The kept characters of `s`, in order.
pub open spec fn report_chars(s: Seq<char>) -> Seq<char> {
    kept_prefix(s, s.len() as int)
}

/// Relies on `String::push`: the string gains the character at its end.
#[verifier::external_body]
fn append_one(s: &mut String, c: char)
    ensures
        final(s)@ == old(s)@.push(c),
{
    s.push(c);
}

/// The hex text of a raw report as the HCI dump prints it: without the
/// `> ` marker and without spaces.
pub fn report_text(buf: &str) -> (r: String)
    ensures
        r@ == report_chars(buf@),
{
    let n = buf.unicode_len();
    let mut out = String::new();
    let mut k: usize = 0;
    while k < n
        invariant
            k <= n,
            n == buf@.len(),
            out@ == kept_prefix(buf@, k as int),
        decreases n - k,
    {
        let c = buf.get_char(k);
        let next_space = k + 1 < n && buf.get_char(k + 1) == ' ';
        if c != ' ' && !(c == '>' && next_space) {
            append_one(&mut out, c);
        }
        k = k + 1;
    }
    out
}

/// Whether a dump line starts a new report.
pub open spec fn starts_report(line: Seq<char>) -> bool {
    line.len() >= 2 && line[0] == '>' && line[1] == ' '
}

/// Takes one line of the HCI dump. A line that starts a report ends the
/// one gathered so far, which is read and returned; the new line is kept.
/// Other lines extend a report under way and are dropped otherwise.
pub fn take_line(buf: &mut String, line: &str) -> (r: Option<Neighbor>)
    ensures
        starts_report(line@) ==> {
            &&& final(buf)@ == line@
            &&& r is Some <==> (is_hex_text(report_chars(old(buf)@)) && is_fleet_report(
                hex_bytes(report_chars(old(buf)@)),
            ) && hex_bytes(report_chars(old(buf)@)).len() >= 29)
        },
        !starts_report(line@) ==> {
            &&& r is None
            &&& final(buf)@ == if old(buf)@.len() > 0 {
                old(buf)@ + line@
            } else {
                old(buf)@
            }
        },
{
    let n = line.unicode_len();
    if n >= 2 && line.get_char(0) == '>' && line.get_char(1) == ' ' {
        let text = report_text(buf.as_str());
        let r = parse_report(text.as_str());
        *buf = String::from_str(line);
        r
    } else {
        if buf.as_str().unicode_len() > 0 {
            buf.append(line);
        }
        None
    }
}

} // verus!
