//! How long ago something happened, in words ("3 days, 2 hours ago"): the
//! variant that the start menu shows, which leaves out hours, minutes and
//! seconds once a month or a year has passed.

use vstd::prelude::*;

use crate::clock::{delta_whole_seconds, whole_seconds};
use crate::text::{count_phrase, lemma_with_count_grows, push_count, with_count};
use crate::units::{
    lemma_split_fields_bounds, lemma_split_fields_negated, lemma_split_fields_recombine,
    lemma_split_fields_zero, split_fields, split_seconds, MAX_DELTA_SECS,
};

verus! {

/// An elapsed time split into calendar units (30-day months, 12-month years).
#[derive(Clone, Copy, Debug)]
pub struct SinceString {
    pub seconds: u32,
    pub minutes: u32,
    pub hours: u32,
    pub days: u32,
    pub months: u32,
    pub years: u32,
}

impl SinceString {
    /// The sum of all fields, as an unbounded integer.
    pub open spec fn field_sum(self) -> int {
        self.seconds + self.minutes + self.hours + self.days + self.months + self.years
    }

    /// Every field is zero.
    pub open spec fn all_zero(self) -> bool {
        &&& self.seconds == 0
        &&& self.minutes == 0
        &&& self.hours == 0
        &&& self.days == 0
        &&& self.months == 0
        &&& self.years == 0
    }

    /// The split of `s` elapsed seconds into calendar units (see
    /// `split_fields`): the month field holds the year count, just as the
    /// year field does.
    pub open spec fn of_seconds(s: int) -> SinceString {
        let f = split_fields(s);
        SinceString { seconds: f.0, minutes: f.1, hours: f.2, days: f.3, months: f.4, years: f.5 }
    }

    /// The comma separated list of units that the description names.
    pub open spec fn unit_list(self) -> Seq<char> {
        let big = with_count(
            with_count(with_count(Seq::<char>::empty(), self.years, "year"@), self.months, "month"@),
            self.days,
            "day"@,
        );
        if self.years + self.months == 0 {
            let small = with_count(with_count(big, self.hours, "hour"@), self.minutes, "minute"@);
            if self.hours == 0 && self.minutes < 20 {
                with_count(small, self.seconds, "second"@)
            } else {
                small
            }
        } else {
            big
        }
    }

    /// "just now" when every field is zero, else the list of units and " ago".
    pub open spec fn description(self) -> Seq<char> {
        if self.all_zero() {
            "just now"@
        } else {
            self.unit_list() + " ago"@
        }
    }

    /// Whether no time at all has elapsed.
    pub fn is_zero(&self) -> (zero: bool)
        requires
            self.field_sum() <= u32::MAX,
        ensures
            zero == (self.field_sum() == 0),
            zero == self.all_zero(),
            zero == (self.seconds == 0 && self.minutes == 0 && self.hours == 0 && self.days == 0
                && self.months == 0 && self.years == 0),
    {
        (self.seconds + self.minutes + self.hours + self.days + self.months + self.years) == 0
    }

    /// Splits a count of elapsed seconds into calendar units.
    pub fn from_seconds(value: i64) -> (since: SinceString)
        ensures
            since == Self::of_seconds(value as int),
    {
        let (seconds, minutes, hours, days, months, years) = split_seconds(value);
        SinceString { seconds, minutes, hours, days, months, years }
    }

    /// Splits the whole seconds of a chrono `TimeDelta` into calendar units.
    pub fn from_delta(value: &chrono::TimeDelta) -> (since: SinceString)
        ensures
            since == Self::of_seconds(delta_whole_seconds(*value) as int),
    {
        let seconds = whole_seconds(value);
        Self::from_seconds(seconds)
    }

    /// The description in words: "just now", or the non-zero units joined by
    /// ", " and followed by " ago". Hours, minutes and seconds are left out once
    /// a month or a year has passed, and seconds once an hour or 20 minutes
    /// have passed.
    pub fn to_string(&self) -> (text: String)
        requires
            self.field_sum() <= u32::MAX,
        ensures
            text@ == self.description(),
    {
        if self.is_zero() {
            return "just now".to_owned();
        }
        let mut res = String::new();
        push_count(&mut res, self.years, "year");
        push_count(&mut res, self.months, "month");
        push_count(&mut res, self.days, "day");
        if self.years + self.months == 0 {
            push_count(&mut res, self.hours, "hour");
            push_count(&mut res, self.minutes, "minute");
            if self.hours == 0 && self.minutes < 20 {
                push_count(&mut res, self.seconds, "second");
            }
        }
        res.append(" ago");
        res
    }
}

/// The calendar split of the whole seconds of a chrono `TimeDelta`.
impl From<chrono::TimeDelta> for SinceString {
    fn from(value: chrono::TimeDelta) -> (since: SinceString) {
        SinceString::from_delta(&value)
    }
}

impl vstd::std_specs::convert::FromSpecImpl<chrono::TimeDelta> for SinceString {
    open spec fn obeys_from_spec() -> bool {
        true
    }

    open spec fn from_spec(v: chrono::TimeDelta) -> SinceString {
        SinceString::of_seconds(delta_whole_seconds(v) as int)
    }
}

/// Law: splitting a count of seconds within `MAX_DELTA_SECS` either way gives
/// all zeros exactly when the count is a whole number of 30-day months, less
/// than a 360-day year either way. The month count itself is dropped (the
/// month field repeats the year count), so 30 days reads "just now".
pub proof fn law_zero_split(s: int)
    requires
        -MAX_DELTA_SECS <= s <= MAX_DELTA_SECS,
    ensures
        SinceString::of_seconds(s).all_zero() <==> (s % 2_592_000 == 0 && -31_104_000 < s
            < 31_104_000),
{
    lemma_split_fields_zero(s);
}

/// Law: splitting a count of seconds from zero up to `MAX_DELTA_SECS` gives
/// fewer than 60 seconds, 60 minutes, 24 hours and 30 days, and fields whose
/// sum fits in a `u32`, so the split can always be described.
pub proof fn law_split_bounds(s: int)
    requires
        0 <= s <= MAX_DELTA_SECS,
    ensures
        SinceString::of_seconds(s).seconds < 60,
        SinceString::of_seconds(s).minutes < 60,
        SinceString::of_seconds(s).hours < 24,
        SinceString::of_seconds(s).days < 30,
        SinceString::of_seconds(s).field_sum() <= u32::MAX,
{
    lemma_split_fields_bounds(s);
}

/// Law: the description of anything but an all-zero split names at least one
/// unit, so it is never a bare " ago".
pub proof fn law_names_a_unit(since: SinceString)
    requires
        !since.all_zero(),
    ensures
        since.unit_list().len() > 0,
{
    broadcast use lemma_with_count_grows;

}

/// Law: splitting a non-negative count of seconds gives fewer than 60
/// seconds, 60 minutes, 24 hours and 30 days, which together make up the part
/// of the count beyond whole 30-day months; up to `MAX_DELTA_SECS`, the year
/// field (and the month field, which repeats it) counts whole 360-day years.
pub proof fn law_split_recombines(s: int)
    requires
        0 <= s,
    ensures
        ({
            let since = SinceString::of_seconds(s);
            &&& since.seconds < 60
            &&& since.minutes < 60
            &&& since.hours < 24
            &&& since.days < 30
            &&& since.seconds + 60 * since.minutes + 3_600 * since.hours + 86_400 * since.days
                == s % 2_592_000
            &&& s <= MAX_DELTA_SECS ==> since.years == s / 31_104_000 && since.months
                == since.years
        }),
{
    lemma_split_fields_recombine(s);
}

/// Law: the description is "just now" exactly when every field is zero;
/// otherwise it ends in " ago".
pub proof fn law_just_now(since: SinceString)
    ensures
        (since.description() == "just now"@) <==> (since.seconds == 0 && since.minutes == 0
            && since.hours == 0 && since.days == 0 && since.months == 0 && since.years == 0),
        !(since.seconds == 0 && since.minutes == 0 && since.hours == 0 && since.days == 0
            && since.months == 0 && since.years == 0) ==> since.description() == since.unit_list()
            + " ago"@,
{
    reveal_strlit("just now");
    reveal_strlit(" ago");
    if !since.all_zero() {
        let d = since.description();
        assert(d[d.len() - 1] == 'o');
        assert("just now"@[7] == 'w');
    }
}

/// Law: when a month or a year has passed, the description names only the years,
/// months and days, in that order: the hours, minutes and seconds make no
/// difference to it.
pub proof fn law_small_units_hidden(since: SinceString)
    requires
        since.years + since.months != 0,
    ensures
        since.description() == with_count(
            with_count(with_count(Seq::<char>::empty(), since.years, "year"@), since.months, "month"@),
            since.days,
            "day"@,
        ) + " ago"@,
        since.description() == (SinceString { hours: 0, minutes: 0, seconds: 0, ..since }).description(),
{
}

/// Law: the seconds make no difference to the description once an hour or 20
/// minutes have passed.
pub proof fn law_seconds_hidden(since: SinceString)
    requires
        since.hours != 0 || since.minutes >= 20,
    ensures
        since.description() == (SinceString { seconds: 0, ..since }).description(),
{
}

/// Law: while no month or year has passed and, under an hour and under 20 minutes have
/// passed, the seconds are named last: the description is the one without
/// them, with ", N seconds" put before " ago" (or just "N seconds ago" when
/// nothing else has passed).
pub proof fn law_seconds_named(since: SinceString)
    requires
        since.years + since.months == 0,
        since.hours == 0,
        since.minutes < 20,
        since.seconds != 0,
    ensures
        ({
            let without = (SinceString { seconds: 0, ..since }).description();
            if without == "just now"@ {
                since.description() == count_phrase(since.seconds, "second"@) + " ago"@
            } else {
                since.description() == without.subrange(0, without.len() - 4) + seq![',', ' ']
                    + count_phrase(since.seconds, "second"@) + " ago"@
            }
        }),
{
    reveal_strlit("just now");
    reveal_strlit(" ago");
    let z = SinceString { seconds: 0, ..since };
    law_just_now(z);
    broadcast use lemma_with_count_grows;

    if !z.all_zero() {
        let l = z.unit_list();
        assert(z.description() == l + " ago"@);
        assert((l + " ago"@).subrange(0, (l + " ago"@).len() - 4) =~= l);
        assert(l.len() > 0);
        assert(since.unit_list() == l + seq![',', ' '] + count_phrase(since.seconds, "second"@));
    } else {
        assert(z.unit_list() =~= Seq::<char>::empty());
    }
}

/// Law: splitting a negative count (a date in the future) gives, field by
/// field, the `u32` wrap of the negated split of the matching positive count,
/// as Rust's `as` wraps a negative remainder.
pub proof fn law_negative_split(s: int)
    requires
        0 <= s <= MAX_DELTA_SECS,
    ensures
        ({
            let p = SinceString::of_seconds(s);
            let n = SinceString::of_seconds(-s);
            &&& n.seconds == (-(p.seconds as int)) as u32
            &&& n.minutes == (-(p.minutes as int)) as u32
            &&& n.hours == (-(p.hours as int)) as u32
            &&& n.days == (-(p.days as int)) as u32
            &&& n.months == (-(p.months as int)) as u32
            &&& n.years == (-(p.years as int)) as u32
        }),
{
    lemma_split_fields_negated(s);
}

} // verus!
