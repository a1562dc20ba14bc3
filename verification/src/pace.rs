//! The study pace of a course: a study-time mode combined with a load
//! percentage. Two independent textual decodings exist — a long form
//! `"<Time display> <N>"` and a compact wire form `"<letter><N>"` — and one
//! rendering, the long display form with a trailing percent sign.

use vstd::prelude::*;
use crate::domain::Time;
use crate::percentage::Percentage;
use crate::text;

verus! {

broadcast use vstd::string::group_string_axioms;

/// A wire-form pace string was malformed: bad time letter, or a load that
/// is not an integer in 0..=100.
#[derive(Debug, Clone, Copy, PartialEq, Eq, Structural)]
pub struct InvalidFormat;

/// A study pace: a time mode and a load percentage.
#[derive(Debug, Clone, Copy, Hash, PartialEq, Eq, Structural)]
pub struct Pace {
    pub time: Time,
    pub percentage: Percentage,
}

/// The canonical long textual form without the percent sign:
/// `"<Time display> <N>"`.
pub open spec fn spec_long_form(t: Time, v: int) -> Seq<char> {
    t.spec_display() + seq![' '] + text::spec_dec(v as nat)
}

/// Index of the last space in `s`, or -1 when there is none.
pub open spec fn spec_last_space(s: Seq<char>) -> int
    decreases s.len(),
{
    if s.len() == 0 {
        -1
    } else if s.last() == ' ' {
        s.len() - 1
    } else {
        spec_last_space(s.drop_last())
    }
}

/// Long-form decoding: split at the last space, read the left side as a
/// time display string (up to ASCII case) and the right side as an integer
/// load in 0..=100.
pub open spec fn spec_parse_long(s: Seq<char>) -> Option<(Time, int)> {
    let i = spec_last_space(s);
    if i < 0 {
        None
    } else {
        match Time::spec_from_display(s.subrange(0, i)) {
            Some(t) => match text::spec_parse_percent(s.subrange(i + 1, s.len() as int)) {
                Some(v) => Some((t, v)),
                None => None,
            },
            None => None,
        }
    }
}

/// Wire-form decoding: the first character picks the time mode (`d`, `w` or
/// `m`), the rest is an integer load in 0..=100.
pub open spec fn spec_parse_wire(s: Seq<char>) -> Option<(Time, int)> {
    if s.len() == 0 {
        None
    } else {
        let t = if s[0] == 'd' {
            Some(Time::Day)
        } else if s[0] == 'w' {
            Some(Time::Weekend)
        } else if s[0] == 'm' {
            Some(Time::Mixed)
        } else {
            None
        };
        match t {
            Some(t) => match text::spec_parse_percent(s.subrange(1, s.len() as int)) {
                Some(v) => Some((t, v)),
                None => None,
            },
            None => None,
        }
    }
}

impl Pace {
    /// Combines a time mode and a load percentage.
    pub fn new(time: Time, percentage: Percentage) -> (r: Pace)
        ensures
            r.time == time,
            r.percentage == percentage,
    {
        Pace { time, percentage }
    }

    /// The display form: `"<Time display> <N>%"`.
    pub open spec fn spec_render(self) -> Seq<char> {
        spec_long_form(self.time, self.percentage.spec_value()) + seq!['%']
    }

    /// Renders the pace for display, e.g. `Dagtid 50%`.
    pub fn render(self) -> (r: String)
        ensures
            r@ == self.spec_render(),
    {
        let mut s = self.time.display_name().to_owned();
        s.push(' ');
        let p = self.percentage.render();
        s.append(p.as_str());
        proof {
            assert(s@ =~= self.spec_render());
        }
        s
    }

    /// Parses the long form `"<Time display> <N>"`. Any malformed input
    /// yields one opaque failure.
    pub fn parse_long(s: &str) -> (r: Option<Pace>)
        ensures
            match r {
                Some(p) => spec_parse_long(s@) == Some((p.time, p.percentage.spec_value())),
                None => spec_parse_long(s@) is None,
            },
    {
        let len = s.unicode_len();
        let mut last: Option<usize> = None;
        let mut i: usize = 0;
        while i < len
            invariant
                0 <= i <= len,
                len == s@.len(),
                match last {
                    None => spec_last_space(s@.subrange(0, i as int)) == -1,
                    Some(k) => k < i && spec_last_space(s@.subrange(0, i as int)) == k as int,
                },
            decreases len - i,
        {
            let c = s.get_char(i);
            proof {
                let q = s@.subrange(0, i + 1 as int);
                assert(q.drop_last() =~= s@.subrange(0, i as int));
                assert(q.last() == s@[i as int]);
            }
            if c == ' ' {
                last = Some(i);
            }
            i += 1;
        }
        proof {
            assert(s@.subrange(0, len as int) =~= s@);
        }
        let k = match last {
            Some(k) => k,
            None => {
                return None;
            },
        };
        let tpart = s.substring_char(0, k);
        let ppart = s.substring_char(k + 1, len);
        let time = match Time::from_display(tpart) {
            Ok(t) => t,
            Err(_) => {
                return None;
            },
        };
        let v = match text::parse_percent(ppart) {
            Some(v) => v,
            None => {
                return None;
            },
        };
        match Percentage::new(v) {
            Ok(percentage) => Some(Pace { time, percentage }),
            Err(_) => {
                proof {
                    assert(false);
                }
                None
            },
        }
    }

    /// Parses the wire form `"<letter><N>"`: `d`, `w` or `m` followed by an
    /// integer load in 0..=100.
    pub fn parse_wire(s: &str) -> (r: Result<Pace, InvalidFormat>)
        ensures
            match r {
                Ok(p) => spec_parse_wire(s@) == Some((p.time, p.percentage.spec_value())),
                Err(_) => spec_parse_wire(s@) is None,
            },
    {
        let len = s.unicode_len();
        if len == 0 {
            return Err(InvalidFormat);
        }
        let c = s.get_char(0);
        let time = if c == 'd' {
            Time::Day
        } else if c == 'w' {
            Time::Weekend
        } else if c == 'm' {
            Time::Mixed
        } else {
            return Err(InvalidFormat);
        };
        let rest = s.substring_char(1, len);
        let v = match text::parse_percent(rest) {
            Some(v) => v,
            None => {
                return Err(InvalidFormat);
            },
        };
        match Percentage::new(v) {
            Ok(percentage) => Ok(Pace { time, percentage }),
            Err(_) => {
                proof {
                    assert(false);
                }
                Err(InvalidFormat)
            },
        }
    }
}

// ---------------------------------------------------------------------------
// The long form round-trips
// ---------------------------------------------------------------------------

/// Every character of a rendered decimal is a digit.
proof fn lemma_dec_all_digits(n: nat)
    ensures
        text::spec_dec(n).len() >= 1,
        text::spec_all_digits(text::spec_dec(n)),
    decreases n,
{
    if n >= 10 {
        lemma_dec_all_digits(n / 10);
    }
}

/// The decimal rendering of `n` reads back as `n`.
proof fn lemma_dec_val(n: nat)
    ensures
        text::spec_digits_val(text::spec_dec(n)) == n,
    decreases n,
{
    assert(text::spec_digits_val(Seq::<char>::empty()) == 0);
    if n < 10 {
        let s = text::spec_dec(n);
        assert(s.drop_last() =~= Seq::<char>::empty());
        assert(s.last() == text::spec_digit_char(n));
        assert(text::spec_digit_val(text::spec_digit_char(n)) == n);
    } else {
        lemma_dec_val(n / 10);
        let s = text::spec_dec(n);
        assert(s.drop_last() =~= text::spec_dec(n / 10));
        assert(s.last() == text::spec_digit_char(n % 10));
        assert(text::spec_digit_val(text::spec_digit_char(n % 10)) == n % 10);
        assert(text::spec_digits_val(s) == text::spec_digits_val(text::spec_dec(n / 10)) * 10 + n % 10);
    }
}

/// The last space of `x + " " + y` is the appended one, provided `y` holds
/// no space.
proof fn lemma_last_space_append(x: Seq<char>, y: Seq<char>)
    requires
        forall|i: int| 0 <= i < y.len() ==> y[i] != ' ',
    ensures
        spec_last_space(x + seq![' '] + y) == x.len(),
    decreases y.len(),
{
    let s = x + seq![' '] + y;
    if y.len() == 0 {
        assert(s.last() == ' ');
    } else {
        assert(s.last() == y.last());
        assert(y.last() != ' ');
        assert(s.drop_last() =~= x + seq![' '] + y.drop_last());
        lemma_last_space_append(x, y.drop_last());
    }
}

/// Every successful long-form parse yields a load in 0..=100, so by the
/// round-trip law below the parsed pair always renders back to the
/// canonical `"<Time display> <N>%"` form.
pub proof fn lemma_parse_long_in_range(s: Seq<char>, t: Time, v: int)
    requires
        spec_parse_long(s) == Some((t, v)),
    ensures
        0 <= v <= 100,
{
}

/// Long-form round trip: for every time mode and in-range load, the
/// canonical long form parses back to exactly that pair, and a pace holding
/// the pair renders as the canonical form with a trailing percent sign.
pub proof fn lemma_pace_long_round_trip(t: Time, v: int)
    requires
        0 <= v <= 100,
    ensures
        spec_parse_long(spec_long_form(t, v)) == Some((t, v)),
        forall|p: Pace|
            p.time == t && p.percentage.spec_value() == v
                ==> #[trigger] p.spec_render() == spec_long_form(t, v) + seq!['%'],
{
    let w = spec_long_form(t, v);
    let d = t.spec_display();
    let dec = text::spec_dec(v as nat);
    lemma_dec_all_digits(v as nat);
    assert forall|i: int| 0 <= i < dec.len() implies dec[i] != ' ' by {
        assert(text::spec_is_digit(dec[i]));
    }
    lemma_last_space_append(d, dec);
    let i = spec_last_space(w);
    assert(i == d.len());
    assert(w.subrange(0, i) =~= d);
    assert(w.subrange(i + 1, w.len() as int) =~= dec);
    Time::lemma_display_round_trip(t);
    lemma_dec_val(v as nat);
    assert(dec[0] != '+' && dec[0] != '-') by {
        assert(text::spec_is_digit(dec[0]));
    }
    assert(text::spec_parse_int(dec) == Some(v));
}

} // verus!
