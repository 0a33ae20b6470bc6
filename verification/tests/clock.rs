use spotuify::clock::{elapsed_millis, Moment};
use spotuify::model::PlayedTrack;

fn played(at: &str) -> PlayedTrack {
    PlayedTrack { track: None, played_at: at.to_string() }
}

#[test]
fn elapsed_time_is_counted_in_milliseconds() {
    let then = Moment { secs: 1_700_000_000, nanos: 250_000_000 };
    let now = Moment { secs: 1_700_000_060, nanos: 750_999_999 };
    assert_eq!(elapsed_millis(now, then), 60_500);
    assert_eq!(elapsed_millis(then, then), 0);
}

#[test]
fn what_is_to_come_has_not_elapsed() {
    let then = Moment { secs: 100, nanos: 0 };
    let now = Moment { secs: 99, nanos: 999_999_999 };
    assert_eq!(elapsed_millis(now, then), 0);
    assert_eq!(elapsed_millis(now, Moment { secs: 5_000_000, nanos: 0 }), 0);
}

#[test]
fn long_times_are_taken_as_far_as_they_fit() {
    let then = Moment { secs: 0, nanos: 0 };
    let now = Moment { secs: 4_294_967, nanos: 296_000_000 };
    assert_eq!(elapsed_millis(now, then), 0);
    let now = Moment { secs: 4_294_968, nanos: 0 };
    assert_eq!(elapsed_millis(now, then), 704);
}

#[test]
fn the_extreme_moments_can_be_compared() {
    let first = Moment { secs: -8_334_601_228_800, nanos: 0 };
    let last = Moment { secs: 8_210_266_876_799, nanos: 999_999_999 };
    let millis: i128 = (8_210_266_876_799i128 + 8_334_601_228_800) * 1000 + 999;
    assert_eq!(elapsed_millis(last, first), (millis % (1 << 32)) as u32);
    assert_eq!(elapsed_millis(first, last), 0);
}

#[test]
fn leap_seconds_count_where_a_moment_is_in_one() {
    let leap = Moment { secs: 1_483_228_799, nanos: 1_500_000_000 };
    let before = Moment { secs: 1_483_228_799, nanos: 0 };
    let after = Moment { secs: 1_483_228_800, nanos: 0 };
    assert_eq!(elapsed_millis(leap, before), 1_500);
    let noon = Moment { secs: 1_483_228_799 - 43_200, nanos: 0 };
    assert_eq!(elapsed_millis(leap, noon), 43_201_500);
    // The leap second is over half a second later.
    assert_eq!(elapsed_millis(after, leap), 0);
    let in_the_morning = Moment { secs: 1_483_228_859, nanos: 1_000_000_000 };
    assert_eq!(elapsed_millis(Moment { secs: 1_483_228_860, nanos: 0 }, in_the_morning), 1_000);
}

#[test]
fn moments_are_read_from_rfc3339() {
    let now = Moment { secs: 1_700_000_060, nanos: 0 };
    assert_eq!(played("2023-11-14T22:13:20Z").elapsed_at(now), 60_000);
    assert_eq!(played("2023-11-14T23:13:20+01:00").elapsed_at(now), 60_000);
    assert_eq!(played("2023-11-14T22:13:20.500Z").elapsed_at(now), 59_500);
    assert_eq!(played("2023-11-14T22:14:21Z").elapsed_at(now), 0);
}

#[test]
fn what_is_no_time_has_not_elapsed() {
    let now = Moment { secs: 1_700_000_060, nanos: 0 };
    assert_eq!(played("").elapsed_at(now), 0);
    assert_eq!(played("yesterday").elapsed_at(now), 0);
    assert_eq!(played("2023-02-30T00:00:00Z").elapsed_at(now), 0);
    assert_eq!(played("yesterday").get_elapsed(), 0);
}

#[test]
fn elapsed_time_goes_on() {
    let day: u64 = 86_400_000;
    let now = chrono::Utc::now();
    let at = now - chrono::TimeDelta::days(1);
    let millis = played(&at.to_rfc3339()).get_elapsed() as u64;
    assert!(millis >= day && millis < day + 60_000, "{millis}");
    let ahead = now + chrono::TimeDelta::days(1);
    assert_eq!(played(&ahead.to_rfc3339()).get_elapsed(), 0);
}
