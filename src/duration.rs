use vstd::prelude::*;
use crate::types::{Span, NANOS_PER_SEC};

verus! {

broadcast use vstd::string::axiom_spec_iter;

/// The most decimal digits a duration text may hold. With at most this many
/// digits, every amount humantime adds up stays far below `u64::MAX` seconds
/// (under 10^11 years of 31_557_600 seconds each).
pub const MAX_DURATION_DIGITS: usize = 11;

pub open spec fn is_ascii_digit(c: char) -> bool {
    '0' <= c && c <= '9'
}

/// How many ASCII decimal digits a text holds.
pub open spec fn digit_count(s: Seq<char>) -> nat
    decreases s.len(),
{
    if s.len() == 0 {
        0
    } else {
        digit_count(s.drop_last()) + if is_ascii_digit(s.last()) {
            1nat
        } else {
            0nat
        }
    }
}

/// The seconds and nanoseconds that humantime reads in a duration text, if it
/// reads one: a function of the text alone.
pub uninterp spec fn humantime_value(s: Seq<char>) -> Option<(u64, u32)>;

pub open spec fn span_option(p: Option<(u64, u32)>) -> Option<Span> {
    match p {
        Some(p) => Some(Span { secs: p.0, nanos: p.1 }),
        None => None,
    }
}

/// The span that a duration text denotes: none where the text is malformed
/// or holds more than `MAX_DURATION_DIGITS` digits.
pub open spec fn duration_of_text(s: Seq<char>) -> Option<Span> {
    if digit_count(s) <= MAX_DURATION_DIGITS {
        span_option(humantime_value(s))
    } else {
        None
    }
}

/// Whether a text holds at most `MAX_DURATION_DIGITS` decimal digits.
pub fn within_digit_bound(s: &str) -> (r: bool)
    ensures
        r == (digit_count(s@) <= MAX_DURATION_DIGITS),
{
    let mut count: usize = 0;
    let ghost mut seen: Seq<char> = Seq::empty();
    for c in it: s.chars()
        invariant
            it.seq() == s@,
            seen == it.seq().take(it.index()),
            count == if digit_count(seen) <= MAX_DURATION_DIGITS {
                digit_count(seen)
            } else {
                (MAX_DURATION_DIGITS + 1) as nat
            },
    {
        proof {
            assert(seen.push(c).drop_last() =~= seen);
            assert(seen.push(c) =~= it.seq().take(it.index() + 1));
            seen = seen.push(c);
        }
        if '0' <= c && c <= '9' && count <= MAX_DURATION_DIGITS {
            count = count + 1;
        }
    }
    proof {
        assert(seen =~= s@);
    }
    count <= MAX_DURATION_DIGITS
}

/// Relies on humantime::parse_duration: it reads a text such as `1s` or
/// `2h 37min` as a duration, or fails; the nanoseconds of a duration stay
/// below one second. Within the digit bound its sums cannot reach the
/// seconds overflow at which it would panic.
#[verifier::external_body]
fn parse_duration(s: &str) -> (r: Option<Span>)
    requires
        digit_count(s@) <= MAX_DURATION_DIGITS,
    ensures
        r == span_option(humantime_value(s@)),
        r matches Some(d) ==> d.nanos < NANOS_PER_SEC,
{
    match humantime::parse_duration(s) {
        Ok(d) => Some(Span { secs: d.as_secs(), nanos: d.subsec_nanos() }),
        Err(_) => None,
    }
}

/// Read a duration text: `None` where it is malformed or holds too many digits.
pub fn read_duration(s: &str) -> (r: Option<Span>)
    ensures
        r == duration_of_text(s@),
{
    if within_digit_bound(s) {
        parse_duration(s)
    } else {
        None
    }
}

} // verus!
