//! Points in time, and how long ago a track was played.

use crate::model::PlayedTrack;
use chrono::{DateTime, Utc};
use vstd::prelude::*;

verus! {

/// A point in time: whole seconds since 1970 began, in UTC, and nanoseconds
/// after them. During a leap second the nanoseconds go on beyond the thousand
/// million.
#[derive(Debug, Clone, Copy, PartialEq, Eq, Structural)]
pub struct Moment {
    pub secs: i64,
    pub nanos: u32,
}

impl Moment {
    /// The moments that a calendar date can be given to: those of the years
    /// -262143 to 262142, with leap seconds only at the end of a minute.
    pub open spec fn valid(self) -> bool {
        &&& -8_334_601_228_800 <= self.secs <= 8_210_266_876_799
        &&& self.nanos < 2_000_000_000
        &&& self.nanos >= 1_000_000_000 ==> self.secs as int % 60 == 59
    }

    /// The moments that a machine's clock can show: those after 1970 began,
    /// and no leap seconds.
    pub open spec fn on_a_clock(self) -> bool {
        self.valid() && self.secs >= 0 && self.nanos < 1_000_000_000
    }
}

/// The second of the day.
pub open spec fn second_of_day(moment: Moment) -> int {
    moment.secs as int % 86_400
}

/// The leap second that lies between the two moments and that neither's
/// seconds count, if one of them is in it.
pub open spec fn uncounted_leap_second(later: Moment, earlier: Moment) -> int {
    if second_of_day(later) > second_of_day(earlier) && earlier.nanos >= 1_000_000_000 {
        1
    } else if second_of_day(later) < second_of_day(earlier) && later.nanos >= 1_000_000_000 {
        -1
    } else {
        0
    }
}

/// From `earlier` to `later`, in nanoseconds.
pub open spec fn nanos_between(later: Moment, earlier: Moment) -> int {
    (later.secs - earlier.secs + uncounted_leap_second(later, earlier)) * 1_000_000_000 + (
    later.nanos - earlier.nanos)
}

/// From `earlier` to `later`, in milliseconds, the rest cut off.
pub open spec fn millis_between(later: Moment, earlier: Moment) -> int {
    let nanos = nanos_between(later, earlier);
    if nanos >= 0 {
        nanos / 1_000_000
    } else {
        -((-nanos) / 1_000_000)
    }
}

/// The moment that a text in the format of RFC 3339 stands for, if it is one.
pub uninterp spec fn rfc3339_moment(text: Seq<char>) -> Option<Moment>;

/// `DateTime::parse_from_rfc3339` of chrono: the moment that the text stands
/// for, or nothing where chrono reports an error. The year has four digits,
/// so the moment is far within the valid ones.
#[verifier::external_body]
fn parse_rfc3339(text: &str) -> (moment: Option<Moment>)
    ensures
        moment == rfc3339_moment(text@),
        moment is Some ==> moment->0.valid(),
{
    match DateTime::parse_from_rfc3339(text) {
        Ok(then) => Some(
            Moment { secs: then.timestamp(), nanos: then.timestamp_subsec_nanos() },
        ),
        Err(_) => None,
    }
}

/// `Utc::now` of chrono: the machine's time, which is after 1970 began and
/// never in a leap second.
#[verifier::external_body]
fn utc_now() -> (now: Moment)
    ensures
        now.on_a_clock(),
{
    let now = Utc::now();
    Moment { secs: now.timestamp(), nanos: now.timestamp_subsec_nanos() }
}

/// `DateTime::signed_duration_since` of chrono, in the whole milliseconds that
/// `TimeDelta::num_milliseconds` counts: the difference of the two moments,
/// cut off towards zero. A leap second counts where one of the moments is in
/// it.
#[verifier::external_body]
fn signed_millis_since(later: Moment, earlier: Moment) -> (millis: i64)
    requires
        later.valid(),
        earlier.valid(),
    ensures
        millis == millis_between(later, earlier),
{
    let now = DateTime::from_timestamp(later.secs, later.nanos).unwrap();
    let then = DateTime::from_timestamp(earlier.secs, earlier.nanos).unwrap();
    now.signed_duration_since(then).num_milliseconds()
}

/// The milliseconds from `then` to `now`, none if `then` lies ahead, as far as
/// 32 bits hold them.
pub open spec fn elapsed_between(now: Moment, then: Moment) -> int {
    let millis = millis_between(now, then);
    if millis <= 0 {
        0
    } else {
        millis % 0x1_0000_0000
    }
}

/// How long before `now` a track was played at the time that the text gives;
/// zero for a text that gives none.
pub open spec fn elapsed_since(played_at: Seq<char>, now: Moment) -> int {
    match rfc3339_moment(played_at) {
        Some(then) => elapsed_between(now, then),
        None => 0,
    }
}

/// How long before `now` the moment `then` was.
pub fn elapsed_millis(now: Moment, then: Moment) -> (millis: u32)
    requires
        now.valid(),
        then.valid(),
    ensures
        millis == elapsed_between(now, then),
{
    let signed: i64 = signed_millis_since(now, then);
    let millis: u64 = if signed > 0 {
        signed as u64
    } else {
        0
    };
    (millis % 0x1_0000_0000) as u32
}

impl PlayedTrack {
    /// How long before `now` the track was played, in milliseconds.
    pub fn elapsed_at(&self, now: Moment) -> (millis: u32)
        requires
            now.valid(),
        ensures
            millis == elapsed_since(self.played_at@, now),
    {
        match parse_rfc3339(self.played_at.as_str()) {
            Some(then) => elapsed_millis(now, then),
            None => 0,
        }
    }

    /// How long ago the track was played, in milliseconds.
    pub fn get_elapsed(&self) -> (millis: u32)
        ensures
            exists|now: Moment|
                now.on_a_clock() && millis == #[trigger] elapsed_since(self.played_at@, now),
            rfc3339_moment(self.played_at@) is None ==> millis == 0,
    {
        let now = utc_now();
        self.elapsed_at(now)
    }
}

/// Without leap seconds the difference of two moments is that of their
/// seconds and nanoseconds.
pub proof fn nanos_between_plain_moments(later: Moment, earlier: Moment)
    requires
        later.nanos < 1_000_000_000,
        earlier.nanos < 1_000_000_000,
    ensures
        nanos_between(later, earlier) == (later.secs * 1_000_000_000 + later.nanos) - (earlier.secs
            * 1_000_000_000 + earlier.nanos),
{
}

/// On a clock, no time has passed since a moment that is now or still to come.
pub proof fn no_time_since_what_is_to_come(now: Moment, then: Moment)
    requires
        now.on_a_clock(),
        then.valid(),
        now.secs < then.secs || now.secs == then.secs && now.nanos <= then.nanos,
    ensures
        elapsed_between(now, then) == 0,
{
}

/// Up to some seven weeks the elapsed time is exact; beyond that 32 bits do not
/// hold it.
pub proof fn elapsed_is_exact_while_it_fits(now: Moment, then: Moment)
    requires
        0 <= millis_between(now, then) < 0x1_0000_0000,
    ensures
        elapsed_between(now, then) == millis_between(now, then),
{
}

/// Milliseconds are counted in full: the rest that is cut off is less than one, and
/// it is cut off towards zero.
pub proof fn millis_are_counted_in_full(later: Moment, earlier: Moment)
    ensures
        ({
            let nanos = nanos_between(later, earlier);
            let millis = millis_between(later, earlier);
            &&& nanos >= 0 ==> millis * 1_000_000 <= nanos < (millis + 1) * 1_000_000
            &&& nanos <= 0 ==> (millis - 1) * 1_000_000 < nanos <= millis * 1_000_000
        }),
{
}

/// The time between two moments on clocks: a second later is a thousand milliseconds
/// more, and none at the moment itself.
pub proof fn clocks_go_evenly(now: Moment, then: Moment, secs: int)
    requires
        now.nanos < 1_000_000_000,
        then.nanos < 1_000_000_000,
        0 <= secs,
        now.secs + secs <= i64::MAX,
    ensures
        millis_between(then, then) == 0,
        nanos_between(now, then) >= 0 ==> millis_between(
            (Moment { secs: (now.secs + secs) as i64, nanos: now.nanos }),
            then,
        ) == millis_between(now, then) + secs * 1000,
{
}

/// What has elapsed is never negative, fits into 32 bits, and differs from the time
/// between only by what they do not hold.
pub proof fn elapsed_is_what_fits(now: Moment, then: Moment)
    ensures
        0 <= elapsed_between(now, then) <= u32::MAX,
        millis_between(now, then) >= 0 ==> (millis_between(now, then) - elapsed_between(now, then))
            % 0x1_0000_0000 == 0,
        millis_between(now, then) <= 0 ==> elapsed_between(now, then) == 0,
{
}

/// A track was played when its text says; a text that says nothing counts as just now.
pub proof fn elapsed_since_the_text(played_at: Seq<char>, now: Moment)
    ensures
        rfc3339_moment(played_at) matches Some(then) ==> elapsed_since(played_at, now)
            == elapsed_between(now, then),
        rfc3339_moment(played_at) is None ==> elapsed_since(played_at, now) == 0,
{
}

} // verus!
