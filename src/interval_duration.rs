//! The polling interval: a whole number of seconds in `0..=255`, kept in
//! milliseconds.

use vstd::prelude::*;

use crate::decimal::{all_digits, decimal_text, digits_value, is_digit, push_decimal};
use crate::request::RequestError;

verus! {

/// The digits of an interval argument: the text without its one optional
/// leading `+`.
pub open spec fn unsigned_digits(s: Seq<char>) -> Seq<char> {
    if s.len() > 0 && s[0] == '+' {
        s.drop_first()
    } else {
        s
    }
}

/// Whether `s` is an unsigned decimal integer in `0..=255`: an optional `+`,
/// then one or more digits (leading zeros allowed), and nothing else.
pub open spec fn is_interval_text(s: Seq<char>) -> bool {
    let d = unsigned_digits(s);
    d.len() > 0 && all_digits(d) && digits_value(d) <= 255
}

/// The number of seconds that an interval argument spells.
pub open spec fn interval_seconds(s: Seq<char>) -> nat {
    digits_value(unsigned_digits(s))
}

/// Reads an interval argument as a number of seconds; `None` where it is not
/// an unsigned integer in `0..=255`.
pub fn parse_seconds(s: &str) -> (r: Option<u8>)
    ensures
        r is Some <==> is_interval_text(s@),
        r is Some ==> r->0 as nat == interval_seconds(s@),
{
    let n = s.unicode_len();
    let start: usize = if n > 0 && s.get_char(0) == '+' {
        1
    } else {
        0
    };
    let ghost d = unsigned_digits(s@);
    assert(d =~= s@.subrange(start as int, n as int));
    if start == n {
        return None;
    }
    let mut acc: u64 = 0;
    let mut too_large = false;
    let mut i: usize = start;
    while i < n
        invariant
            start <= i <= n,
            n == s@.len(),
            d == s@.subrange(start as int, n as int),
            d == unsigned_digits(s@),
            all_digits(d.take(i - start)),
            too_large ==> digits_value(d.take(i - start)) > 255,
            !too_large ==> acc == digits_value(d.take(i - start)) && acc <= 255,
        decreases n - i,
    {
        let c = s.get_char(i);
        if !('0' <= c && c <= '9') {
            assert(!is_digit(d[i - start]));
            assert(!all_digits(d));
            return None;
        }
        let ghost prev = d.take(i - start);
        let ghost next = d.take(i - start + 1);
        assert(next.drop_last() =~= prev);
        assert(next.last() == c);
        assert(digits_value(next) == digits_value(prev) * 10 + (c as int - '0' as int));
        if !too_large {
            acc = acc * 10 + (c as u64 - '0' as u64);
            if acc > 255 {
                too_large = true;
            }
        }
        i = i + 1;
    }
    assert(d.take(n - start) =~= d);
    if too_large {
        None
    } else {
        Some(acc as u8)
    }
}

/// A polling interval in milliseconds.
pub struct IntervalDuration {
    value: u64,
}

impl View for IntervalDuration {
    type V = u64;

    closed spec fn view(&self) -> u64 {
        self.value
    }
}

impl IntervalDuration {
    /// Builds the interval from its argument, a number of seconds in
    /// `0..=255`; the interval holds that many seconds in milliseconds.
    pub fn try_from(value: String) -> (r: Result<IntervalDuration, RequestError>)
        ensures
            r is Ok <==> is_interval_text(value@),
            r is Ok ==> r->Ok_0@ == interval_seconds(value@) * 1000,
            r is Err ==> r->Err_0 == RequestError::IntervalValueError,
    {
        match parse_seconds(value.as_str()) {
            Some(count) => Ok(IntervalDuration { value: count as u64 * 1000 }),
            None => Err(RequestError::IntervalValueError),
        }
    }

    /// The interval in milliseconds.
    pub fn to_millis(&self) -> (r: u64)
        ensures
            r == self@,
    {
        self.value
    }

    /// The interval in milliseconds, rendered in decimal.
    pub fn to_string(&self) -> (r: String)
        ensures
            r@ == decimal_text(self@ as nat),
    {
        let mut out = String::new();
        push_decimal(&mut out, self.value);
        out
    }
}

impl From<u64> for IntervalDuration {
    fn from(value: u64) -> (r: IntervalDuration) {
        IntervalDuration { value }
    }
}

impl vstd::std_specs::convert::FromSpecImpl<u64> for IntervalDuration {
    open spec fn obeys_from_spec() -> bool {
        true
    }

    closed spec fn from_spec(v: u64) -> IntervalDuration {
        IntervalDuration { value: v }
    }
}

/// An interval made from a number of milliseconds holds that number.
pub proof fn lemma_from_millis(v: u64)
    ensures
        <IntervalDuration as vstd::std_specs::convert::FromSpec<u64>>::from_spec(v)@ == v,
{
}

/// Every number of seconds in `0..=255`, written in decimal, is an accepted
/// interval argument and reads back as that number.
pub proof fn lemma_rendered_seconds_accepted(n: nat)
    requires
        n <= 255,
    ensures
        is_interval_text(decimal_text(n)),
        interval_seconds(decimal_text(n)) == n,
{
    crate::decimal::lemma_decimal_text_reads_back(n);
    let s = decimal_text(n);
    assert(s[0] != '+') by {
        assert(is_digit(s[0]));
    }
    assert(unsigned_digits(s) == s);
}

} // verus!
