//! Finding markets: the names of events, and what the event service tells of their markets.
use crate::decimal::pow10;
use crate::discovery::calendar::{
    in_calendar,
    is_date,
    law_a_second_lies_on_one_date,
    month_and_day,
};
use crate::discovery::radar::slug_expiry;
use crate::text::{
    after_last,
    digits_of,
    is_digit,
    law_digits_read_back,
    law_the_last_part_stands_behind_the_last_separator,
    number_of,
    signed_digits_of,
    signed_text,
    unsigned_text,
};
use vstd::prelude::*;
use vstd::string::*;

pub mod calendar;
pub mod client;
pub mod json;
pub mod radar;

verus! {

/// Seconds in a day.
pub const DAY_SECS: i64 = 86_400;

/// The start of the five minutes that `now` is in, counted from the epoch in both directions.
pub open spec fn five_minute_start(now: i64) -> int {
    if now >= 0 {
        now as int / 300 * 300
    } else {
        -(-(now as int) / 300 * 300)
    }
}

/// The slug of the five-minute market that is open at `now`.
pub open spec fn five_minute_slug(now: i64) -> Seq<char> {
    "btc-updown-5m-"@ + signed_digits_of(five_minute_start(now))
}

/// Calls `SystemTime::now` and turns it into a `chrono::DateTime`. Nothing is claimed of the
/// second that it tells. It panics on a machine whose clock stands outside the calendar.
#[verifier::external_body]
fn utc_now() -> (r: i64) {
    chrono::DateTime::<chrono::Utc>::from(std::time::SystemTime::now()).timestamp()
}

/// The slug of the five-minute market that is open at `now`.
pub fn slug_5m_at(now: i64) -> (r: String)
    ensures
        r@ == five_minute_slug(now),
{
    let start: i64 = if now >= 0 {
        now / 300 * 300
    } else if now == i64::MIN {
        // The negation of the smallest number has no place in the type.
        -9_223_372_036_854_775_800
    } else {
        -(-now / 300 * 300)
    };
    let mut slug = "btc-updown-5m-".to_owned();
    slug.append(signed_text(start).as_str());
    slug
}

/// The slug of the five-minute market that is open now.
pub fn predict_current_5m_slug() -> (r: String)
    ensures
        exists|now: i64| r@ == #[trigger] five_minute_slug(now),
{
    let now: i64 = utc_now();
    slug_5m_at(now)
}

/// The slug of the event on the day with this month and day of the month.
pub open spec fn day_slug(month: u32, day: u32) -> Seq<char> {
    "bitcoin-above-on-"@ + digits_of(month as nat) + "-"@ + digits_of(day as nat)
}

/// `slug` names the day after `now`; there is none exactly where the calendar does not reach
/// there.
pub open spec fn is_next_slug(now: i64, slug: Option<String>) -> bool {
    match slug {
        Some(text) => in_calendar(now + DAY_SECS) && exists|month: u32, day: u32|
            #![trigger day_slug(month, day)]
            is_date(now + DAY_SECS, month as int, day as int) && text@ == day_slug(month, day),
        None => !in_calendar(now + DAY_SECS),
    }
}

/// The slug of the event on the day with this month and day of the month.
pub fn slug_of_day(month: u32, day: u32) -> (r: String)
    ensures
        r@ == day_slug(month, day),
{
    let mut slug = "bitcoin-above-on-".to_owned();
    slug.append(unsigned_text(month as u64).as_str());
    slug.append("-");
    slug.append(unsigned_text(day as u64).as_str());
    slug
}

/// The slug of the event on the day after `now`, in UTC; `None` where the calendar does not
/// reach there.
pub fn next_slug_at(now: i64) -> (r: Option<String>)
    ensures
        is_next_slug(now, r),
        forall|month: u32, day: u32|
            in_calendar(now + DAY_SECS) && #[trigger] is_date(
                now + DAY_SECS,
                month as int,
                day as int,
            ) ==> r is Some && r->0@ == day_slug(month, day),
{
    if now > i64::MAX - DAY_SECS {
        return None;
    }
    let tomorrow: i64 = now + DAY_SECS;
    match month_and_day(tomorrow) {
        Some(d) => {
            proof {
                assert forall|month: u32, day: u32| #[trigger]
                    is_date(tomorrow as int, month as int, day as int) implies month == d.0 && day
                    == d.1 by {
                    law_a_second_lies_on_one_date(
                        tomorrow as int,
                        month as int,
                        day as int,
                        d.0 as int,
                        d.1 as int,
                    );
                }
            }
            Some(slug_of_day(d.0, d.1))
        },
        None => None,
    }
}

/// The slug of tomorrow's event, in UTC; `None` where the calendar does not reach there.
pub fn predict_next_slug() -> (r: Option<String>)
    ensures
        exists|now: i64| #[trigger] is_next_slug(now, r),
{
    let now: i64 = utc_now();
    next_slug_at(now)
}

proof fn lemma_digit_count(n: nat, count: nat)
    requires
        count >= 1,
        n < pow10(count),
        count > 1 ==> pow10((count - 1) as nat) <= n,
    ensures
        digits_of(n).len() == count,
    decreases count,
{
    if count == 1 {
        assert(pow10(1) == 10) by {
            reveal_with_fuel(pow10, 2);
        }
    } else {
        let fewer = (count - 1) as nat;
        assert(pow10(count) == 10 * pow10(fewer));
        if fewer > 1 {
            assert(pow10(fewer) == 10 * pow10((fewer - 1) as nat));
        } else {
            assert(pow10(1) == 10) by {
                reveal_with_fuel(pow10, 2);
            }
        }
        lemma_digit_count(n / 10, fewer);
    }
}

proof fn lemma_behind_separator(front: Seq<char>, back: Seq<char>, separator: char)
    requires
        front.len() > 0,
        front.last() == separator,
        forall|i: int| 0 <= i < back.len() ==> back[i] != separator,
    ensures
        after_last(front + back, separator) == back,
    decreases back.len(),
{
    if back.len() == 0 {
        assert(front + back =~= front);
    } else {
        assert((front + back).drop_last() =~= front + back.drop_last());
        lemma_behind_separator(front, back.drop_last(), separator);
        assert(back.drop_last().push(back.last()) =~= back);
    }
}

/// The slug of a five-minute market tells when the five minutes began: a multiple of 300
/// seconds, not after the moment it was asked for and less than five minutes before it. (From
/// the first second whose five minutes began at a number of ten digits to the last.)
pub proof fn law_five_minute_slug_reads_back(now: i64)
    requires
        1_000_000_000 <= five_minute_start(now) < 10_000_000_000,
    ensures
        slug_expiry(five_minute_slug(now)) == Some(five_minute_start(now) as i64),
        five_minute_start(now) % 300 == 0,
        five_minute_start(now) <= now < five_minute_start(now) + 300,
{
    let start = five_minute_start(now) as nat;
    let digits = digits_of(start);
    law_digits_read_back(start);
    assert(pow10(9) == 1_000_000_000 && pow10(10) == 10_000_000_000) by {
        reveal_with_fuel(pow10, 11);
    }
    lemma_digit_count(start, 10);
    reveal_strlit("btc-updown-5m-");
    let front = "btc-updown-5m-"@;
    assert(front.last() == '-');
    assert forall|i: int| 0 <= i < digits.len() implies digits[i] != '-' by {
        assert(is_digit(digits[i]));
    }
    lemma_behind_separator(front, digits, '-');
    assert(number_of(digits) == start);
}

/// Five minutes begin at every multiple of 300 seconds: at or before the moment that is asked for
/// and less than 300 seconds from it, or at or behind it for a moment before the epoch.
pub proof fn law_five_minutes_begin_at_their_multiples(now: i64)
    ensures
        five_minute_start(now) % 300 == 0,
        now >= 0 ==> five_minute_start(now) <= now < five_minute_start(now) + 300,
        now < 0 ==> five_minute_start(now) - 300 < now <= five_minute_start(now) <= 0,
{
}

/// The slug of a day ends in the digits of its day, behind those of its month, so that two days of
/// the year have different slugs.
pub proof fn law_a_day_slug_tells_its_day(month: u32, day: u32, other_month: u32, other_day: u32)
    ensures
        after_last(day_slug(month, day), '-') == digits_of(day as nat),
        exists|front: Seq<char>|
            #![trigger front.push('-')]
            day_slug(month, day) == front.push('-') + digits_of(day as nat) && after_last(
                front,
                '-',
            ) == digits_of(month as nat),
        day_slug(month, day) == day_slug(other_month, other_day) ==> month == other_month && day
            == other_day,
{
    lemma_day_slug(month, day);
    lemma_day_slug(other_month, other_day);
    let front = "bitcoin-above-on-"@ + digits_of(month as nat);
    assert(day_slug(month, day) == front.push('-') + digits_of(day as nat));
    if day_slug(month, day) == day_slug(other_month, other_day) {
        let other_front = "bitcoin-above-on-"@ + digits_of(other_month as nat);
        law_digits_read_back(day as nat);
        law_digits_read_back(other_day as nat);
        law_digits_read_back(month as nat);
        law_digits_read_back(other_month as nat);
        assert(day == other_day);
        let slug = day_slug(month, day);
        let n = slug.len() - digits_of(day as nat).len();
        assert(front.push('-') =~= slug.take(n));
        assert(other_front.push('-') =~= slug.take(n));
        assert(front =~= front.push('-').drop_last());
        assert(other_front =~= other_front.push('-').drop_last());
        assert(front == other_front);
    }
}

proof fn lemma_day_slug(month: u32, day: u32)
    ensures
        ({
            let front = "bitcoin-above-on-"@ + digits_of(month as nat);
            &&& day_slug(month, day) == front.push('-') + digits_of(day as nat)
            &&& after_last(front, '-') == digits_of(month as nat)
            &&& after_last(day_slug(month, day), '-') == digits_of(day as nat)
        }),
{
    reveal_strlit("bitcoin-above-on-");
    reveal_strlit("-");
    let head = "bitcoin-above-on-"@;
    let months = digits_of(month as nat);
    let days = digits_of(day as nat);
    let front = head + months;
    law_digits_read_back(month as nat);
    law_digits_read_back(day as nat);
    assert forall|i: int| 0 <= i < months.len() implies months[i] != '-' by {
        assert(is_digit(months[i]));
    }
    assert forall|i: int| 0 <= i < days.len() implies days[i] != '-' by {
        assert(is_digit(days[i]));
    }
    assert(head.drop_last().push('-') =~= head);
    law_the_last_part_stands_behind_the_last_separator(head.drop_last(), months, '-');
    assert(day_slug(month, day) =~= front.push('-') + days);
    law_the_last_part_stands_behind_the_last_separator(front, days, '-');
}

} // verus!
