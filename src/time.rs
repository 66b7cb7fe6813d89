//! Time units, decimal numbers, and the clock display of playback positions.
use vstd::prelude::*;

verus! {

/// A unit in which a playback position can be given.
#[derive(Clone, Copy, Debug, PartialEq, Eq, Structural)]
pub enum TimeUnit {
    /// Hours (1 hour = 60 minutes).
    Hours,
    /// Minutes (1 minute = 60 seconds).
    Minutes,
    /// Seconds (1 second = 1,000 milliseconds).
    Seconds,
    /// Milliseconds (1 millisecond = 1,000 microseconds).
    Milliseconds,
    /// Microseconds, the protocol's own unit.
    Microseconds,
}

/// The number of microseconds in one of the unit.
pub open spec fn micros_per(u: TimeUnit) -> nat {
    match u {
        TimeUnit::Hours => 3_600_000_000,
        TimeUnit::Minutes => 60_000_000,
        TimeUnit::Seconds => 1_000_000,
        TimeUnit::Milliseconds => 1_000,
        TimeUnit::Microseconds => 1,
    }
}

/// The short written suffix of the unit.
pub open spec fn unit_suffix(u: TimeUnit) -> Seq<char> {
    match u {
        TimeUnit::Hours => seq!['h'],
        TimeUnit::Minutes => seq!['m'],
        TimeUnit::Seconds => seq!['s'],
        TimeUnit::Milliseconds => seq!['m', 's'],
        TimeUnit::Microseconds => seq!['u', 's'],
    }
}

/// The unit chosen by a set of unit flags: the largest unit flagged, or
/// microseconds when none is.
pub open spec fn unit_for_flags(h: bool, m: bool, s: bool, ms: bool) -> TimeUnit {
    if h {
        TimeUnit::Hours
    } else if m {
        TimeUnit::Minutes
    } else if s {
        TimeUnit::Seconds
    } else if ms {
        TimeUnit::Milliseconds
    } else {
        TimeUnit::Microseconds
    }
}

impl TimeUnit {
    /// Returns the suffix of the unit.
    pub fn suffix(&self) -> (r: &'static str)
        ensures
            r@ == unit_suffix(*self),
    {
        match *self {
            TimeUnit::Hours => {
                proof {
                    reveal_strlit("h");
                }
                "h"
            },
            TimeUnit::Minutes => {
                proof {
                    reveal_strlit("m");
                }
                "m"
            },
            TimeUnit::Seconds => {
                proof {
                    reveal_strlit("s");
                }
                "s"
            },
            TimeUnit::Milliseconds => {
                proof {
                    reveal_strlit("ms");
                }
                "ms"
            },
            TimeUnit::Microseconds => {
                proof {
                    reveal_strlit("us");
                }
                "us"
            },
        }
    }

    /// Returns the number of microseconds in one of the unit.
    pub fn unit_micros(&self) -> (r: u64)
        ensures
            r == micros_per(*self),
    {
        match *self {
            TimeUnit::Hours => 3_600_000_000,
            TimeUnit::Minutes => 60_000_000,
            TimeUnit::Seconds => 1_000_000,
            TimeUnit::Milliseconds => 1_000,
            TimeUnit::Microseconds => 1,
        }
    }

    /// Returns the equivalent of `n` of the unit in microseconds.
    pub fn as_micros(&self, n: u64) -> (r: u64)
        requires
            n * micros_per(*self) <= u64::MAX,
        ensures
            r == n * micros_per(*self),
    {
        n * self.unit_micros()
    }

    /// Picks a unit from a series of unit flags; larger units take precedence.
    pub fn from_flags(h: bool, m: bool, s: bool, ms: bool) -> (r: TimeUnit)
        ensures
            r == unit_for_flags(h, m, s, ms),
    {
        if h {
            TimeUnit::Hours
        } else if m {
            TimeUnit::Minutes
        } else if s {
            TimeUnit::Seconds
        } else if ms {
            TimeUnit::Milliseconds
        } else {
            TimeUnit::Microseconds
        }
    }
}

/// Converts a position given in the unit picked by the flags to microseconds.
pub fn pos_to_micros(pos: u64, h: bool, m: bool, s: bool, ms: bool) -> (r: u64)
    requires
        pos * micros_per(unit_for_flags(h, m, s, ms)) <= u64::MAX,
    ensures
        r == pos * micros_per(unit_for_flags(h, m, s, ms)),
{
    let unit = TimeUnit::from_flags(h, m, s, ms);
    unit.as_micros(pos)
}

/// The decimal digit character for a value below ten.
pub open spec fn digit_char(d: nat) -> char {
    if d == 0 {
        '0'
    } else if d == 1 {
        '1'
    } else if d == 2 {
        '2'
    } else if d == 3 {
        '3'
    } else if d == 4 {
        '4'
    } else if d == 5 {
        '5'
    } else if d == 6 {
        '6'
    } else if d == 7 {
        '7'
    } else if d == 8 {
        '8'
    } else {
        '9'
    }
}

/// The decimal numeral of `n`, without leading zeros.
pub open spec fn decimal(n: nat) -> Seq<char>
    decreases n,
{
    if n < 10 {
        seq![digit_char(n)]
    } else {
        decimal(n / 10) + seq![digit_char(n % 10)]
    }
}

/// A number below one hundred as two digits, with a leading zero if needed.
pub open spec fn two_digits(n: nat) -> Seq<char> {
    seq![digit_char(n / 10), digit_char(n % 10)]
}

/// The clock display of a position in microseconds: `H:MM:SS`, where the
/// hours and their separator are left out when there are no whole hours.
pub open spec fn clock_text(us: nat) -> Seq<char> {
    let h = us / 3_600_000_000;
    let m = (us / 60_000_000) % 60;
    let s = (us / 1_000_000) % 60;
    (if h > 0 {
        decimal(h) + seq![':']
    } else {
        Seq::empty()
    }) + two_digits(m) + seq![':'] + two_digits(s)
}

/// Whether a character is an ASCII decimal digit.
pub open spec fn is_digit(c: char) -> bool {
    '0' <= c <= '9'
}

/// The value of a decimal digit character.
pub open spec fn digit_value(c: char) -> nat {
    (c as u32 - '0' as u32) as nat
}

/// Whether every character is a decimal digit.
pub open spec fn all_digits(s: Seq<char>) -> bool {
    forall|i: int| 0 <= i < s.len() ==> is_digit(#[trigger] s[i])
}

/// The value of a string of decimal digits.
pub open spec fn decimal_value(s: Seq<char>) -> nat
    decreases s.len(),
{
    if s.len() == 0 {
        0
    } else {
        decimal_value(s.drop_last()) * 10 + digit_value(s.last())
    }
}

/// What a count of microseconds written in decimal reads as: a non-empty
/// run of digits whose value fits in 64 bits, or nothing.
pub open spec fn micros_reading(s: Seq<char>) -> Option<u64> {
    if s.len() > 0 && all_digits(s) && decimal_value(s) <= u64::MAX {
        Some(decimal_value(s) as u64)
    } else {
        None
    }
}

/// A prefix of a string of digits is worth no more than the whole.
proof fn lemma_prefix_value_le(s: Seq<char>, i: int)
    requires
        0 <= i <= s.len(),
    ensures
        decimal_value(s.take(i)) <= decimal_value(s),
    decreases s.len(),
{
    if i < s.len() {
        assert(s.drop_last().take(i) =~= s.take(i));
        lemma_prefix_value_le(s.drop_last(), i);
    } else {
        assert(s.take(i) =~= s);
    }
}

/// The digit string for a value below ten.
fn digit_str(d: u64) -> (r: &'static str)
    requires
        d < 10,
    ensures
        r@ == seq![digit_char(d as nat)],
{
    proof {
        reveal_strlit("0");
        reveal_strlit("1");
        reveal_strlit("2");
        reveal_strlit("3");
        reveal_strlit("4");
        reveal_strlit("5");
        reveal_strlit("6");
        reveal_strlit("7");
        reveal_strlit("8");
        reveal_strlit("9");
    }
    let r = if d == 0 {
        "0"
    } else if d == 1 {
        "1"
    } else if d == 2 {
        "2"
    } else if d == 3 {
        "3"
    } else if d == 4 {
        "4"
    } else if d == 5 {
        "5"
    } else if d == 6 {
        "6"
    } else if d == 7 {
        "7"
    } else if d == 8 {
        "8"
    } else {
        "9"
    };
    assert(r@ =~= seq![digit_char(d as nat)]);
    r
}

/// Appends the decimal numeral of `n` to `out`.
pub fn push_decimal(out: &mut String, n: u64)
    ensures
        final(out)@ == old(out)@ + decimal(n as nat),
    decreases n,
{
    if n >= 10 {
        push_decimal(out, n / 10);
    }
    let ghost mid = out@;
    out.append(digit_str(n % 10));
    assert(out@ =~= old(out)@ + decimal(n as nat));
}

/// Appends a number below one hundred as two digits.
fn push_two_digits(out: &mut String, n: u64)
    requires
        n < 100,
    ensures
        final(out)@ == old(out)@ + two_digits(n as nat),
{
    out.append(digit_str(n / 10));
    out.append(digit_str(n % 10));
    assert(out@ =~= old(out)@ + two_digits(n as nat));
}

/// Formats a position in microseconds for display as `H:MM:SS`, leaving
/// out the hours when there are none.
pub fn format_clock(us: u64) -> (r: String)
    ensures
        r@ == clock_text(us as nat),
{
    let h = us / 3_600_000_000;
    let m = (us / 60_000_000) % 60;
    let s = (us / 1_000_000) % 60;
    let mut out = String::new();
    proof {
        reveal_strlit(":");
    }
    if h > 0 {
        push_decimal(&mut out, h);
        out.append(":");
    }
    push_two_digits(&mut out, m);
    out.append(":");
    push_two_digits(&mut out, s);
    assert(out@ =~= clock_text(us as nat));
    out
}

/// Reads a count of microseconds written as a run of decimal digits.
pub fn parse_micros(s: &str) -> (r: Option<u64>)
    ensures
        r == micros_reading(s@),
{
    let n = s.unicode_len();
    if n == 0 {
        return None;
    }
    let mut v: u64 = 0;
    let mut i: usize = 0;
    while i < n
        invariant
            n == s@.len(),
            i <= n,
            all_digits(s@.take(i as int)),
            v == decimal_value(s@.take(i as int)),
        decreases n - i,
    {
        let c = s.get_char(i);
        if !('0' <= c && c <= '9') {
            assert(!all_digits(s@));
            return None;
        }
        let d = (c as u32 - '0' as u32) as u64;
        proof {
            let t = s@.take(i + 1);
            assert(t.drop_last() =~= s@.take(i as int));
            assert(t.last() == c);
        }
        match v.checked_mul(10) {
            Some(w) => match w.checked_add(d) {
                Some(x) => {
                    v = x;
                },
                None => {
                    proof {
                        lemma_prefix_value_le(s@, i + 1);
                    }
                    return None;
                },
            },
            None => {
                proof {
                    lemma_prefix_value_le(s@, i + 1);
                }
                return None;
            },
        }
        i = i + 1;
        assert(all_digits(s@.take(i as int)));
    }
    assert(s@.take(n as int) =~= s@);
    Some(v)
}

} // verus!
