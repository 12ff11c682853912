use vstd::prelude::*;
use crate::text::{digits, differs_first_at, lemma_digits_len, lemma_digits_order, lemma_head_decides, lemma_prefix_keeps_order, push_decimal};
use chrono::{Datelike, Timelike};

verus! {

/// An instant in UTC, as a calendar date and a time of day to the
/// microsecond.
#[derive(Clone, Copy, Debug, PartialEq, Eq, Structural)]
pub struct Timestamp {
    pub year: u32,
    pub month: u32,
    pub day: u32,
    pub hour: u32,
    pub minute: u32,
    pub second: u32,
    pub micros: u32,
}

/// `a` is an earlier instant than `b`: the fields compared in turn, from the
/// year down to the microsecond.
pub open spec fn stamp_before(a: Timestamp, b: Timestamp) -> bool {
    ||| a.year < b.year
    ||| a.year == b.year && a.month < b.month
    ||| a.year == b.year && a.month == b.month && a.day < b.day
    ||| a.year == b.year && a.month == b.month && a.day == b.day && a.hour < b.hour
    ||| a.year == b.year && a.month == b.month && a.day == b.day && a.hour == b.hour && a.minute
        < b.minute
    ||| a.year == b.year && a.month == b.month && a.day == b.day && a.hour == b.hour && a.minute
        == b.minute && a.second < b.second
    ||| a.year == b.year && a.month == b.month && a.day == b.day && a.hour == b.hour && a.minute
        == b.minute && a.second == b.second && a.micros < b.micros
}

pub open spec fn year_sign(year: u32) -> Seq<char> {
    if year > 9999 {
        seq!['+']
    } else {
        Seq::empty()
    }
}

pub open spec fn time_text(t: Timestamp) -> Seq<char> {
    digits(t.hour as nat, 2, 10) + (digits(t.minute as nat, 2, 10) + (digits(t.second as nat, 2, 10)
        + digits(t.micros as nat, 6, 10)))
}

/// `YYYYMMDDTHHMMSSffffff`: every field zero-padded to its width, the year
/// signed when it has five digits or more.
pub open spec fn stamp_text(t: Timestamp) -> Seq<char> {
    year_sign(t.year) + (digits(t.year as nat, 4, 10) + (digits(t.month as nat, 2, 10) + (digits(
        t.day as nat,
        2,
        10,
    ) + (seq!['T'] + time_text(t)))))
}

impl Timestamp {
    /// Every field within its calendar range.
    pub open spec fn wf(&self) -> bool {
        &&& 1 <= self.month <= 12
        &&& 1 <= self.day <= 31
        &&& self.hour < 24
        &&& self.minute < 60
        &&& self.second < 60
        &&& self.micros < 1_000_000
    }

    /// The current instant.
    pub fn now() -> (r: Timestamp)
        ensures
            r.wf(),
    {
        utc_now()
    }

    /// The compact form of this instant, as it stands in an ordering key.
    pub fn compact(&self) -> (r: String)
        ensures
            r@ == stamp_text(*self),
    {
        let mut s = String::new();
        if self.year > 9999 {
            s.append("+");
            proof {
                reveal_strlit("+");
            }
        }
        push_decimal(&mut s, self.year, 4);
        push_decimal(&mut s, self.month, 2);
        push_decimal(&mut s, self.day, 2);
        s.append("T");
        proof {
            reveal_strlit("T");
        }
        push_decimal(&mut s, self.hour, 2);
        push_decimal(&mut s, self.minute, 2);
        push_decimal(&mut s, self.second, 2);
        push_decimal(&mut s, self.micros, 6);
        assert(s@ =~= stamp_text(*self));
        s
    }
}

/// Relies on chrono's `Utc::now` and its `Datelike` / `Timelike` fields: a
/// month in 1..=12, a day in 1..=31, an hour below 24, a minute and a second
/// below 60; the sub-second part comes from the system clock's nanoseconds,
/// which stay below one second.
#[verifier::external_body]
fn utc_now() -> (r: Timestamp)
    ensures
        r.wf(),
{
    let now = chrono::Utc::now();
    Timestamp {
        year: now.year() as u32,
        month: now.month(),
        day: now.day(),
        hour: now.hour(),
        minute: now.minute(),
        second: now.second(),
        micros: now.timestamp_subsec_micros(),
    }
}

proof fn lemma_block(a1: Seq<char>, b1: Seq<char>, a2: Seq<char>, b2: Seq<char>, first: bool, i: int) -> (j: int)
    requires
        a1.len() == b1.len(),
        first ==> differs_first_at(a1, b1, i),
        !first ==> a1 == b1 && differs_first_at(a2, b2, i),
    ensures
        differs_first_at(a1 + a2, b1 + b2, j),
{
    if first {
        lemma_head_decides(a1, a2, b1, b2, i);
        i
    } else {
        lemma_prefix_keeps_order(a1, a2, b2, i);
        a1.len() + i
    }
}

proof fn lemma_field_order(n: nat, m: nat, width: nat) -> (i: int)
    requires
        width >= 1,
        n < m < vstd::arithmetic::power::pow(10, width),
    ensures
        differs_first_at(digits(n, width, 10), digits(m, width, 10), i),
        digits(n, width, 10).len() == width,
        digits(m, width, 10).len() == width,
{
    lemma_digits_len(n, width, 10);
    lemma_digits_len(m, width, 10);
    lemma_digits_order(n, m, width, 10)
}

proof fn lemma_field_len(n: nat, width: nat)
    requires
        width >= 1,
        n < vstd::arithmetic::power::pow(10, width),
    ensures
        digits(n, width, 10).len() == width,
{
    lemma_digits_len(n, width, 10);
}

/// Before the year 10000 the compact form of a valid instant has a fixed
/// width.
pub proof fn lemma_stamp_text_len(t: Timestamp)
    requires
        t.wf(),
        t.year <= 9999,
    ensures
        stamp_text(t).len() == 21,
{
    reveal_with_fuel(vstd::arithmetic::power::pow, 7);
    lemma_field_len(t.year as nat, 4);
    lemma_field_len(t.month as nat, 2);
    lemma_field_len(t.day as nat, 2);
    lemma_field_len(t.hour as nat, 2);
    lemma_field_len(t.minute as nat, 2);
    lemma_field_len(t.second as nat, 2);
    lemma_field_len(t.micros as nat, 6);
}

/// Of two valid instants before the year 10000, the earlier one has the
/// smaller compact form.
pub proof fn lemma_stamp_text_order(a: Timestamp, b: Timestamp) -> (i: int)
    requires
        a.wf(),
        b.wf(),
        a.year <= 9999,
        b.year <= 9999,
        stamp_before(a, b),
    ensures
        differs_first_at(stamp_text(a), stamp_text(b), i),
{
    reveal_with_fuel(vstd::arithmetic::power::pow, 7);
    assert(vstd::arithmetic::power::pow(10, 2) == 100);
    assert(vstd::arithmetic::power::pow(10, 4) == 10000);
    assert(vstd::arithmetic::power::pow(10, 6) == 1000000);
    lemma_field_len(a.year as nat, 4);
    lemma_field_len(b.year as nat, 4);
    lemma_field_len(a.month as nat, 2);
    lemma_field_len(b.month as nat, 2);
    lemma_field_len(a.day as nat, 2);
    lemma_field_len(b.day as nat, 2);
    lemma_field_len(a.hour as nat, 2);
    lemma_field_len(b.hour as nat, 2);
    lemma_field_len(a.minute as nat, 2);
    lemma_field_len(b.minute as nat, 2);
    lemma_field_len(a.second as nat, 2);
    lemma_field_len(b.second as nat, 2);
    let sec_a = digits(a.second as nat, 2, 10) + digits(a.micros as nat, 6, 10);
    let sec_b = digits(b.second as nat, 2, 10) + digits(b.micros as nat, 6, 10);
    let min_a = digits(a.minute as nat, 2, 10) + sec_a;
    let min_b = digits(b.minute as nat, 2, 10) + sec_b;
    let day_a = digits(a.day as nat, 2, 10) + (seq!['T'] + time_text(a));
    let day_b = digits(b.day as nat, 2, 10) + (seq!['T'] + time_text(b));
    let mon_a = digits(a.month as nat, 2, 10) + day_a;
    let mon_b = digits(b.month as nat, 2, 10) + day_b;
    let year_a = digits(a.year as nat, 4, 10) + mon_a;
    let year_b = digits(b.year as nat, 4, 10) + mon_b;
    let i = if a.year < b.year {
        let k = lemma_field_order(a.year as nat, b.year as nat, 4);
        lemma_block(digits(a.year as nat, 4, 10), digits(b.year as nat, 4, 10), mon_a, mon_b, true, k)
    } else {
        let k = if a.month < b.month {
            let k = lemma_field_order(a.month as nat, b.month as nat, 2);
            lemma_block(digits(a.month as nat, 2, 10), digits(b.month as nat, 2, 10), day_a, day_b, true, k)
        } else {
            let k = if a.day < b.day {
                let k = lemma_field_order(a.day as nat, b.day as nat, 2);
                lemma_block(
                    digits(a.day as nat, 2, 10),
                    digits(b.day as nat, 2, 10),
                    seq!['T'] + time_text(a),
                    seq!['T'] + time_text(b),
                    true,
                    k,
                )
            } else {
                let k = if a.hour < b.hour {
                    let k = lemma_field_order(a.hour as nat, b.hour as nat, 2);
                    lemma_block(digits(a.hour as nat, 2, 10), digits(b.hour as nat, 2, 10), min_a, min_b, true, k)
                } else {
                    let k = if a.minute < b.minute {
                        let k = lemma_field_order(a.minute as nat, b.minute as nat, 2);
                        lemma_block(digits(a.minute as nat, 2, 10), digits(b.minute as nat, 2, 10), sec_a, sec_b, true, k)
                    } else {
                        let k = if a.second < b.second {
                            let k = lemma_field_order(a.second as nat, b.second as nat, 2);
                            lemma_block(
                                digits(a.second as nat, 2, 10),
                                digits(b.second as nat, 2, 10),
                                digits(a.micros as nat, 6, 10),
                                digits(b.micros as nat, 6, 10),
                                true,
                                k,
                            )
                        } else {
                            let k = lemma_field_order(a.micros as nat, b.micros as nat, 6);
                            lemma_block(
                                digits(a.second as nat, 2, 10),
                                digits(b.second as nat, 2, 10),
                                digits(a.micros as nat, 6, 10),
                                digits(b.micros as nat, 6, 10),
                                false,
                                k,
                            )
                        };
                        lemma_block(digits(a.minute as nat, 2, 10), digits(b.minute as nat, 2, 10), sec_a, sec_b, false, k)
                    };
                    lemma_block(digits(a.hour as nat, 2, 10), digits(b.hour as nat, 2, 10), min_a, min_b, false, k)
                };
                let k = lemma_block(seq!['T'], seq!['T'], time_text(a), time_text(b), false, k);
                lemma_block(
                    digits(a.day as nat, 2, 10),
                    digits(b.day as nat, 2, 10),
                    seq!['T'] + time_text(a),
                    seq!['T'] + time_text(b),
                    false,
                    k,
                )
            };
            lemma_block(digits(a.month as nat, 2, 10), digits(b.month as nat, 2, 10), day_a, day_b, false, k)
        };
        lemma_block(digits(a.year as nat, 4, 10), digits(b.year as nat, 4, 10), mon_a, mon_b, false, k)
    };
    assert(stamp_text(a) =~= year_a);
    assert(stamp_text(b) =~= year_b);
    i
}

} // verus!
