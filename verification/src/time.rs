//! The time model: a clock reading within a day, an absolute local
//! timestamp, and the strict `HH:MM:SS` parsing and formatting the clock
//! displays and accepts.

use vstd::prelude::*;

verus! {

/// A wall-clock reading, split into the fields the display shows.
#[derive(Clone, Copy, PartialEq, Eq, Structural, Debug)]
pub struct TimeOfDay {
    pub hour: u8,
    pub minute: u8,
    pub second: u8,
}

impl TimeOfDay {
    /// Every field stays inside its clock range.
    pub open spec fn wf(self) -> bool {
        self.hour < 24 && self.minute < 60 && self.second < 60
    }

    /// Seconds elapsed since the day's midnight.
    pub open spec fn as_seconds(self) -> int {
        self.hour * 3600 + self.minute * 60 + self.second
    }

    pub fn new(hour: u8, minute: u8, second: u8) -> (t: TimeOfDay)
        requires
            hour < 24,
            minute < 60,
            second < 60,
        ensures
            t == (TimeOfDay { hour, minute, second }),
            t.wf(),
    {
        TimeOfDay { hour, minute, second }
    }

    /// Seconds since midnight, as a machine integer.
    pub fn day_seconds(&self) -> (s: u32)
        requires
            self.wf(),
        ensures
            s == self.as_seconds(),
    {
        self.hour as u32 * 3600 + self.minute as u32 * 60 + self.second as u32
    }
}

/// An absolute local timestamp: a day number and the time within that day.
/// Two timestamps compare by the single axis of `as_seconds`.
#[derive(Clone, Copy, PartialEq, Eq, Structural, Debug)]
pub struct Timestamp {
    pub day: u64,
    pub time: TimeOfDay,
}

impl Timestamp {
    pub open spec fn wf(self) -> bool {
        self.time.wf()
    }

    /// The timestamp on a single axis: later instants are strictly larger.
    pub open spec fn as_seconds(self) -> int {
        self.day * 86400 + self.time.as_seconds()
    }

    pub fn new(day: u64, time: TimeOfDay) -> (t: Timestamp)
        requires
            time.wf(),
        ensures
            t == (Timestamp { day, time }),
            t.wf(),
    {
        Timestamp { day, time }
    }

    /// `self` is at or before `other` on the absolute time axis.
    pub fn le(&self, other: &Timestamp) -> (r: bool)
        requires
            self.wf(),
            other.wf(),
        ensures
            r == (self.as_seconds() <= other.as_seconds()),
    {
        proof {
            assert(self.time.as_seconds() < 86400);
            assert(other.time.as_seconds() < 86400);
        }
        if self.day != other.day {
            self.day < other.day
        } else {
            self.time.day_seconds() <= other.time.day_seconds()
        }
    }
}

/// The character that displays a single decimal digit.
pub open spec fn digit_char(d: int) -> char {
    if d == 0 {
        '0'
    } else if d == 1 {
        '1'
    } else if d == 2 {
        '2'
    } else if d == 3 {
        '3'
    } else if d == 4 {
        '4'
    } else if d == 5 {
        '5'
    } else if d == 6 {
        '6'
    } else if d == 7 {
        '7'
    } else if d == 8 {
        '8'
    } else {
        '9'
    }
}

/// The zero-padded two-digit display of `n`.
pub open spec fn two_digits(n: int) -> Seq<char> {
    seq![digit_char(n / 10), digit_char(n % 10)]
}

/// The `HH:MM:SS` display of a clock reading.
pub open spec fn time_text(t: TimeOfDay) -> Seq<char> {
    two_digits(t.hour as int) + seq![':'] + two_digits(t.minute as int) + seq![':'] + two_digits(
        t.second as int,
    )
}

fn digit_str(d: u8) -> (r: &'static str)
    requires
        d < 10,
    ensures
        r@ == seq![digit_char(d as int)],
{
    let r: &'static str = if d == 0 {
        "0"
    } else if d == 1 {
        "1"
    } else if d == 2 {
        "2"
    } else if d == 3 {
        "3"
    } else if d == 4 {
        "4"
    } else if d == 5 {
        "5"
    } else if d == 6 {
        "6"
    } else if d == 7 {
        "7"
    } else if d == 8 {
        "8"
    } else {
        "9"
    };
    proof {
        reveal_strlit("0");
        reveal_strlit("1");
        reveal_strlit("2");
        reveal_strlit("3");
        reveal_strlit("4");
        reveal_strlit("5");
        reveal_strlit("6");
        reveal_strlit("7");
        reveal_strlit("8");
        reveal_strlit("9");
        assert(r@ =~= seq![digit_char(d as int)]);
    }
    r
}

/// Render `t` as zero-padded `HH:MM:SS`.
pub fn format_time(t: &TimeOfDay) -> (r: String)
    requires
        t.wf(),
    ensures
        r@ == time_text(*t),
{
    let mut s = String::new();
    s.append(digit_str(t.hour / 10));
    s.append(digit_str(t.hour % 10));
    s.append(":");
    s.append(digit_str(t.minute / 10));
    s.append(digit_str(t.minute % 10));
    s.append(":");
    s.append(digit_str(t.second / 10));
    s.append(digit_str(t.second % 10));
    proof {
        reveal_strlit(":");
        assert(s@ =~= time_text(*t));
    }
    s
}

/// A character that stands for a decimal digit.
pub open spec fn is_digit_char(c: char) -> bool {
    ||| c == '0'
    ||| c == '1'
    ||| c == '2'
    ||| c == '3'
    ||| c == '4'
    ||| c == '5'
    ||| c == '6'
    ||| c == '7'
    ||| c == '8'
    ||| c == '9'
}

/// The value of a decimal digit character (9 for anything that is no digit).
pub open spec fn digit_value(c: char) -> int {
    if c == '0' {
        0
    } else if c == '1' {
        1
    } else if c == '2' {
        2
    } else if c == '3' {
        3
    } else if c == '4' {
        4
    } else if c == '5' {
        5
    } else if c == '6' {
        6
    } else if c == '7' {
        7
    } else if c == '8' {
        8
    } else {
        9
    }
}

pub open spec fn parsed_hour(s: Seq<char>) -> int {
    digit_value(s[0]) * 10 + digit_value(s[1])
}

pub open spec fn parsed_minute(s: Seq<char>) -> int {
    digit_value(s[3]) * 10 + digit_value(s[4])
}

pub open spec fn parsed_second(s: Seq<char>) -> int {
    digit_value(s[6]) * 10 + digit_value(s[7])
}

/// `s` is a well-formed `HH:MM:SS` clock reading: exactly eight characters,
/// colons between zero-padded two-digit fields, every field in range.
pub open spec fn valid_time_text(s: Seq<char>) -> bool {
    &&& s.len() == 8
    &&& is_digit_char(s[0])
    &&& is_digit_char(s[1])
    &&& s[2] == ':'
    &&& is_digit_char(s[3])
    &&& is_digit_char(s[4])
    &&& s[5] == ':'
    &&& is_digit_char(s[6])
    &&& is_digit_char(s[7])
    &&& parsed_hour(s) < 24
    &&& parsed_minute(s) < 60
    &&& parsed_second(s) < 60
}

fn digit_of(c: char) -> (r: Option<u8>)
    ensures
        r is Some <==> is_digit_char(c),
        r is Some ==> r.unwrap() as int == digit_value(c),
{
    if c == '0' {
        Some(0)
    } else if c == '1' {
        Some(1)
    } else if c == '2' {
        Some(2)
    } else if c == '3' {
        Some(3)
    } else if c == '4' {
        Some(4)
    } else if c == '5' {
        Some(5)
    } else if c == '6' {
        Some(6)
    } else if c == '7' {
        Some(7)
    } else if c == '8' {
        Some(8)
    } else if c == '9' {
        Some(9)
    } else {
        None
    }
}

/// Parse a strict `HH:MM:SS` clock reading; anything else is rejected.
pub fn parse_time(s: &str) -> (r: Option<TimeOfDay>)
    ensures
        r is Some <==> valid_time_text(s@),
        r is Some ==> {
            &&& r.unwrap().wf()
            &&& r.unwrap().hour as int == parsed_hour(s@)
            &&& r.unwrap().minute as int == parsed_minute(s@)
            &&& r.unwrap().second as int == parsed_second(s@)
        },
{
    if s.unicode_len() != 8 {
        return None;
    }
    if s.get_char(2) != ':' || s.get_char(5) != ':' {
        return None;
    }
    let h10 = match digit_of(s.get_char(0)) {
        Some(d) => d,
        None => {
            return None;
        },
    };
    let h1 = match digit_of(s.get_char(1)) {
        Some(d) => d,
        None => {
            return None;
        },
    };
    let m10 = match digit_of(s.get_char(3)) {
        Some(d) => d,
        None => {
            return None;
        },
    };
    let m1 = match digit_of(s.get_char(4)) {
        Some(d) => d,
        None => {
            return None;
        },
    };
    let s10 = match digit_of(s.get_char(6)) {
        Some(d) => d,
        None => {
            return None;
        },
    };
    let s1 = match digit_of(s.get_char(7)) {
        Some(d) => d,
        None => {
            return None;
        },
    };
    let hour = h10 * 10 + h1;
    let minute = m10 * 10 + m1;
    let second = s10 * 10 + s1;
    if hour >= 24 || minute >= 60 || second >= 60 {
        return None;
    }
    Some(TimeOfDay { hour, minute, second })
}

/// Formatting and parsing agree: the display of a well-formed clock reading
/// is itself a valid `HH:MM:SS` text, and parsing it back yields the same
/// fields.
pub proof fn lemma_time_text_round_trip(t: TimeOfDay)
    requires
        t.wf(),
    ensures
        valid_time_text(time_text(t)),
        parsed_hour(time_text(t)) == t.hour,
        parsed_minute(time_text(t)) == t.minute,
        parsed_second(time_text(t)) == t.second,
{
    let s = time_text(t);
    assert(s[0] == digit_char(t.hour as int / 10));
    assert(s[1] == digit_char(t.hour as int % 10));
    assert(s[2] == ':');
    assert(s[3] == digit_char(t.minute as int / 10));
    assert(s[4] == digit_char(t.minute as int % 10));
    assert(s[5] == ':');
    assert(s[6] == digit_char(t.second as int / 10));
    assert(s[7] == digit_char(t.second as int % 10));
    assert(forall|d: int| 0 <= d < 10 ==> is_digit_char(#[trigger] digit_char(d)));
    assert(forall|d: int| 0 <= d < 10 ==> digit_value(#[trigger] digit_char(d)) == d);
}

} // verus!
