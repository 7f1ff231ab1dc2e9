use vstd::prelude::*;
use std::str::FromStr;
use cronos_cron::TimeUnitSpec;
use vstd::string::StringExecFns;
use vstd::utf8::encode_utf8;

verus! {

/// Latest timestamp (exclusive) that a schedule can be queried from: the
/// date library adds one second to the reference time, and panics where that
/// leaves its supported range. The cron library's other panics (a zero step,
/// a search from 29 February into a common year) are kept out by
/// `has_zero_led_step` and `search_safe`.
pub const MAX_CRON_TIMESTAMP: i64 = 8_000_000_000_000;

/// Whether a byte is an ASCII digit.
pub open spec fn is_digit(b: u8) -> bool {
    48 <= b <= 57
}

/// Whether some step (`/` then, past any non-digits, a number) starts with
/// the digit 0. The cron library panics on a zero step, so such expressions
/// are refused before it sees them (a step like `05` is refused with them).
pub open spec fn has_zero_led_step(b: Seq<u8>) -> bool {
    exists|i: int, j: int|
        0 <= i < j < b.len() && b[i] == 47u8 && b[j] == 48u8 && (forall|k: int|
            i < k < j ==> !is_digit(#[trigger] b[k]))
}

/// The calendar date (year, month, day) of a non-negative Unix timestamp,
/// in UTC (proleptic Gregorian calendar).
pub open spec fn civil_date(t: int) -> (int, int, int) {
    let z = t / 86400 + 719468;
    let era = z / 146097;
    let doe = z - era * 146097;
    let yoe = (doe - doe / 1460 + doe / 36524 - doe / 146096) / 365;
    let y = yoe + era * 400;
    let doy = doe - (365 * yoe + yoe / 4 - yoe / 100);
    let mp = (5 * doy + 2) / 153;
    let d = doy - (153 * mp + 2) / 5 + 1;
    let m = if mp < 10 { mp + 3 } else { mp - 9 };
    (if m <= 2 { y + 1 } else { y }, m, d)
}

/// Whether a schedule, which must parse, allows a year.
pub uninterp spec fn cron_year_allowed(expression: Seq<char>, year: u32) -> bool;

/// Whether a timestamp matches a schedule in every field.
pub uninterp spec fn cron_matches(expression: Seq<char>, t: i64) -> bool;

/// Whether a cron expression parses.
pub uninterp spec fn cron_valid(expression: Seq<char>) -> bool;

/// The first timestamp strictly after `after` that matches the expression,
/// or `None` when there is none or the expression does not parse.
pub uninterp spec fn cron_next(expression: Seq<char>, after: i64) -> Option<i64>;

/// Whether the library's search may be started after `after`: the reference
/// is in range and, when the search would start on 29 February, the schedule
/// allows that year (else the search carries day 29 into a common year's
/// February and panics).
pub open spec fn search_safe(expression: Seq<char>, after: i64) -> bool {
    &&& -1 <= after < MAX_CRON_TIMESTAMP
    &&& ({
        let (y, m, d) = civil_date(after + 1);
        m == 2 && d == 29 ==> 0 <= y <= u32::MAX && cron_year_allowed(expression, y as u32)
    })
}

/// The last second of the day that holds `after + 1`.
pub open spec fn end_of_day(after: i64) -> int {
    (after + 1) / 86400 * 86400 + 86399
}

/// From reference `a` on, the first reference the library's search may start
/// from: a search that would start on 29 February of a year the schedule does
/// not allow starts at the next day instead, since no occurrence falls in
/// that year.
pub open spec fn safe_reference(expression: Seq<char>, a: i64) -> i64
    decreases MAX_CRON_TIMESTAMP - a,
{
    if a < -1 || a >= MAX_CRON_TIMESTAMP || search_safe(expression, a) || end_of_day(a)
        > i64::MAX {
        a
    } else {
        safe_reference(expression, end_of_day(a) as i64)
    }
}

/// The reference the search starts from: before 1970 no schedule has
/// occurrences, so an earlier reference starts at the epoch.
pub open spec fn search_reference(expression: Seq<char>, after: i64) -> i64 {
    safe_reference(expression, if after < -1 { -1i64 } else { after })
}

/// The next occurrence strictly after `after`, as this library computes it
/// (the library's answer is always later than the reference it is given).
pub open spec fn next_occurrence(expression: Seq<char>, after: i64) -> Option<i64> {
    let r = search_reference(expression, after);
    if search_safe(expression, r) {
        match cron_next(expression, r) {
            Some(n) => if n > r && cron_matches(expression, n) {
                Some(n)
            } else {
                None
            },
            None => None,
        }
    } else {
        None
    }
}

/// Whether an expression is accepted: no zero step, and it parses.
pub open spec fn schedule_ok(expression: Seq<char>) -> bool {
    !has_zero_led_step(encode_utf8(expression)) && cron_valid(expression)
}

/// Relies on `cronos_cron::Schedule::from_str`: whether the expression parses.
#[verifier::external_body]
fn schedule_parses(expression: &str) -> (r: bool)
    requires
        !has_zero_led_step(encode_utf8(expression@)),
    ensures
        r == cron_valid(expression@),
{
    cronos_cron::Schedule::from_str(expression).is_ok()
}

/// Relies on `cronos_cron::Schedule::years().includes`: whether the parsed
/// schedule allows a year.
#[verifier::external_body]
fn schedule_allows_year(expression: &str, year: u32) -> (r: bool)
    requires
        !has_zero_led_step(encode_utf8(expression@)),
        cron_valid(expression@),
    ensures
        r == cron_year_allowed(expression@, year),
{
    match cronos_cron::Schedule::from_str(expression) {
        Ok(schedule) => schedule.years().includes(year),
        Err(_) => false,
    }
}

/// Relies on `cronos_cron::Schedule::includes`: whether the date of a
/// timestamp is in every field of the parsed schedule.
#[verifier::external_body]
fn schedule_includes(expression: &str, t: i64) -> (r: bool)
    requires
        !has_zero_led_step(encode_utf8(expression@)),
        cron_valid(expression@),
        0 <= t <= MAX_CRON_TIMESTAMP,
    ensures
        r == cron_matches(expression@, t),
{
    let schedule = match cronos_cron::Schedule::from_str(expression) {
        Ok(schedule) => schedule,
        Err(_) => return false,
    };
    match chrono::DateTime::<chrono::Utc>::from_timestamp(t, 0) {
        Some(date) => schedule.includes(date),
        None => false,
    }
}

/// Relies on `cronos_cron::Schedule::after(..).next()`: the search starts one
/// second after the reference time, so a result is strictly later, and each
/// field of a result is taken from the schedule's own values (the weekday
/// checked), so it matches; an expression that does not parse yields nothing.
#[verifier::external_body]
fn schedule_next(expression: &str, after: i64) -> (r: Option<i64>)
    requires
        !has_zero_led_step(encode_utf8(expression@)),
        search_safe(expression@, after),
    ensures
        r == cron_next(expression@, after),
        r matches Some(t) ==> t > after && cron_matches(expression@, t),
        !cron_valid(expression@) ==> r is None,
{
    let schedule = cronos_cron::Schedule::from_str(expression).ok()?;
    let start = chrono::DateTime::<chrono::Utc>::from_timestamp(after, 0)?;
    schedule.after(&start).next().map(|t| t.timestamp())
}

/// Finds whether some step of the expression starts with the digit 0.
pub fn zero_led_step(b: &[u8]) -> (r: bool)
    ensures
        r == has_zero_led_step(b@),
{
    let mut after_slash = false;
    let mut slash: usize = 0;
    let mut i: usize = 0;
    while i < b.len()
        invariant
            0 <= i <= b@.len(),
            slash < b@.len() || !after_slash,
            after_slash ==> slash < i && b@[slash as int] == 47u8 && (forall|k: int|
                slash < k < i ==> !is_digit(#[trigger] b@[k])),
            !after_slash ==> forall|x: int|
                0 <= x < i && b@[x] == 47u8 ==> exists|k: int| x < k < i && is_digit(#[trigger] b@[k]),
            forall|x: int, j: int|
                0 <= x < j < i && b@[x] == 47u8 && b@[j] == 48u8 ==> exists|k: int|
                    x < k < j && is_digit(#[trigger] b@[k]),
        decreases b@.len() - i,
    {
        let c = b[i];
        if c == 47u8 {
            after_slash = true;
            slash = i;
        } else if 48u8 <= c && c <= 57u8 {
            if after_slash && c == 48u8 {
                assert(b@[slash as int] == 47u8 && b@[i as int] == 48u8 && (forall|k: int|
                    slash < k < i ==> !is_digit(#[trigger] b@[k])));
                return true;
            }
            proof {
                assert forall|x: int, j: int|
                    0 <= x < j < i + 1 && b@[x] == 47u8 && b@[j] == 48u8 implies exists|k: int|
                        x < k < j && is_digit(#[trigger] b@[k]) by {
                    if j == i {
                        if after_slash {
                            assert(c != 48u8);
                        } else {
                            assert(exists|k: int| x < k < i && is_digit(#[trigger] b@[k]));
                        }
                    }
                }
                assert forall|x: int| 0 <= x < i + 1 && b@[x] == 47u8 implies exists|k: int|
                    x < k < i + 1 && is_digit(#[trigger] b@[k]) by {
                    assert(is_digit(b@[i as int]));
                }
            }
            after_slash = false;
        }
        i = i + 1;
    }
    proof {
        if has_zero_led_step(b@) {
            let (x, j) = choose|x: int, j: int|
                0 <= x < j < b@.len() && b@[x] == 47u8 && b@[j] == 48u8 && (forall|k: int|
                    x < k < j ==> !is_digit(#[trigger] b@[k]));
            assert(exists|k: int| x < k < j && is_digit(#[trigger] b@[k]));
        }
    }
    false
}

/// The calendar date of a non-negative timestamp in range.
#[verifier::rlimit(100)]
pub fn civil_date_of(t: i64) -> (r: (i64, i64, i64))
    requires
        0 <= t <= MAX_CRON_TIMESTAMP,
    ensures
        (r.0 as int, r.1 as int, r.2 as int) == civil_date(t as int),
{
    let days: i64 = t / 86400;
    assert(0 <= days <= 92592592);
    let z: i64 = days + 719468;
    let era: i64 = z / 146097;
    assert(0 <= era <= 640);
    let doe: i64 = z - era * 146097;
    assert(0 <= doe < 146097);
    let yoe: i64 = (doe - doe / 1460 + doe / 36524 - doe / 146096) / 365;
    assert(0 <= yoe <= 400);
    let y: i64 = yoe + era * 400;
    let doy: i64 = doe - (365 * yoe + yoe / 4 - yoe / 100);
    assert(-200000 <= doy <= 146097);
    let mp: i64 = (5 * doy + 2) / 153;
    assert(-10000 <= mp <= 5000);
    let d: i64 = doy - (153 * mp + 2) / 5 + 1;
    let m: i64 = if mp < 10 { mp + 3 } else { mp - 9 };
    (if m <= 2 { y + 1 } else { y }, m, d)
}

/// Whether a byte is whitespace between cron fields.
pub open spec fn is_field_space(c: u8) -> bool {
    c == 32u8 || c == 9u8 || c == 10u8 || c == 13u8
}

/// The number of whitespace-separated fields in an expression.
pub open spec fn field_count(b: Seq<u8>) -> nat
    decreases b.len(),
{
    if b.len() == 0 {
        0
    } else {
        field_count(b.drop_last()) + if !is_field_space(b.last()) && (b.len() == 1 || is_field_space(
            b[b.len() - 2],
        )) {
            1nat
        } else {
            0nat
        }
    }
}

/// The expression in the seconds-first form the cron library reads: a
/// five-field expression (minute to weekday) gets a leading `0` seconds field.
pub open spec fn cron_form(expression: Seq<char>) -> Seq<char> {
    if field_count(encode_utf8(expression)) == 5 {
        seq!['0', ' '] + expression
    } else {
        expression
    }
}

/// Counts the whitespace-separated fields of an expression.
fn count_fields(b: &[u8]) -> (r: usize)
    ensures
        r == field_count(b@),
{
    let mut count: usize = 0;
    let mut i: usize = 0;
    while i < b.len()
        invariant
            0 <= i <= b@.len(),
            count == field_count(b@.take(i as int)),
            count <= i,
        decreases b@.len() - i,
    {
        assert(b@.take(i + 1).drop_last() =~= b@.take(i as int));
        let c = b[i];
        let space = c == 32u8 || c == 9u8 || c == 10u8 || c == 13u8;
        if !space {
            if i == 0 {
                count = count + 1;
            } else {
                let p = b[i - 1];
                if p == 32u8 || p == 9u8 || p == 10u8 || p == 13u8 {
                    count = count + 1;
                }
            }
        }
        i = i + 1;
    }
    assert(b@.take(b@.len() as int) =~= b@);
    count
}

/// Puts an expression into the seconds-first form (see `cron_form`).
pub fn with_seconds(expression: &str) -> (r: String)
    ensures
        r@ == cron_form(expression@),
{
    if count_fields(expression.as_bytes()) == 5 {
        let head: String = "0 ".to_owned();
        proof {
            reveal_strlit("0 ");
        }
        let r = head.concat(expression);
        assert(r@ =~= seq!['0', ' '] + expression@);
        r
    } else {
        expression.to_owned()
    }
}

/// Why a cron query gave no timestamp.
#[derive(Debug, Clone, Copy, PartialEq, Eq, Structural)]
pub enum CronError {
    /// The expression does not parse, or has a zero step.
    InvalidSchedule,
}

/// Checks that an expression in seconds-first form is accepted.
pub(crate) fn check_schedule(expression: &str) -> (r: Result<(), CronError>)
    ensures
        r is Ok <==> schedule_ok(expression@),
{
    if zero_led_step(expression.as_bytes()) {
        return Err(CronError::InvalidSchedule);
    }
    if schedule_parses(expression) {
        Ok(())
    } else {
        Err(CronError::InvalidSchedule)
    }
}

/// Checks that a cron expression (five fields, or seconds first) is accepted.
pub fn validate_schedule(expression: &str) -> (r: Result<(), CronError>)
    ensures
        r is Ok <==> schedule_ok(cron_form(expression@)),
{
    let canonical = with_seconds(expression);
    check_schedule(canonical.as_str())
}

/// Whether a timestamp matches a cron expression (five fields, or seconds
/// first). Timestamps outside the date range searched match nothing.
pub fn matches_schedule(expression: &str, t: i64) -> (r: Result<bool, CronError>)
    ensures
        r is Err <==> !schedule_ok(cron_form(expression@)),
        r is Ok ==> r == Ok::<bool, CronError>(
            0 <= t <= MAX_CRON_TIMESTAMP && cron_matches(cron_form(expression@), t),
        ),
{
    let canonical = with_seconds(expression);
    check_schedule(canonical.as_str())?;
    if t < 0 || t > MAX_CRON_TIMESTAMP {
        return Ok(false);
    }
    Ok(schedule_includes(canonical.as_str(), t))
}

/// Whether the search may start after `a`, for an accepted expression.
fn safe_to_search(expression: &str, a: i64) -> (r: bool)
    requires
        schedule_ok(expression@),
        -1 <= a < MAX_CRON_TIMESTAMP,
    ensures
        r == search_safe(expression@, a),
{
    let (y, m, d) = civil_date_of(a + 1);
    if m == 2 && d == 29 {
        0 <= y && y <= u32::MAX as i64 && schedule_allows_year(expression, y as u32)
    } else {
        true
    }
}

/// The next occurrence for an accepted expression.
pub(crate) fn next_occurrence_of(expression: &str, after: i64) -> (r: Option<i64>)
    requires
        schedule_ok(expression@),
    ensures
        r == next_occurrence(expression@, after),
        r matches Some(t) ==> t > after,
{
    let mut a: i64 = if after < -1 { -1 } else { after };
    let ghost start = a;
    loop
        invariant
            -1 <= a,
            start <= a,
            start == (if after < -1 { -1i64 } else { after }),
            schedule_ok(expression@),
            safe_reference(expression@, a) == search_reference(expression@, after),
        decreases MAX_CRON_TIMESTAMP - a,
    {
        if a >= MAX_CRON_TIMESTAMP {
            return None;
        }
        if safe_to_search(expression, a) {
            return schedule_next(expression, a);
        }
        a = (a + 1) / 86400 * 86400 + 86399;
    }
}

/// The next matching timestamp strictly after `after`: `Ok(None)` when the
/// schedule has no further occurrence, `Err` when it is not accepted.
pub fn next_after(expression: &str, after: i64) -> (r: Result<Option<i64>, CronError>)
    ensures
        r is Err <==> !schedule_ok(cron_form(expression@)),
        r is Ok ==> r == Ok::<Option<i64>, CronError>(
            next_occurrence(cron_form(expression@), after),
        ),
        r matches Ok(Some(t)) ==> t > after && cron_matches(cron_form(expression@), t),
{
    let canonical = with_seconds(expression);
    check_schedule(canonical.as_str())?;
    Ok(next_occurrence_of(canonical.as_str(), after))
}

/// Starting from occurrence `t`, the latest occurrence that is not after `now`.
pub open spec fn latest_occurrence(expression: Seq<char>, t: i64, now: i64) -> i64
    decreases now - t,
{
    match next_occurrence(expression, t) {
        Some(n) => if t < n && n <= now {
            latest_occurrence(expression, n, now)
        } else {
            t
        },
        None => t,
    }
}

/// Walks forward from occurrence `from` over every occurrence up to `now`
/// and returns the last of them (or `from` itself when the next one is
/// later than `now`).
pub(crate) fn latest_from(expression: &str, from: i64, now: i64) -> (r: i64)
    requires
        schedule_ok(expression@),
    ensures
        r == latest_occurrence(expression@, from, now),
        from <= r,
        r == from || r <= now,
{
    let mut t: i64 = from;
    loop
        invariant
            from <= t,
            t == from || t <= now,
            schedule_ok(expression@),
            latest_occurrence(expression@, t, now) == latest_occurrence(expression@, from, now),
        decreases now - t,
    {
        match next_occurrence_of(expression, t) {
            Some(n) => {
                if n <= now {
                    t = n;
                } else {
                    return t;
                }
            },
            None => {
                return t;
            },
        }
    }
}

/// The latest occurrence not after `now`, walking forward from occurrence
/// `from` (or `from` itself when the next one is later than `now`).
pub fn latest_at_or_before(expression: &str, from: i64, now: i64) -> (r: Result<i64, CronError>)
    ensures
        r is Err <==> !schedule_ok(cron_form(expression@)),
        r matches Ok(v) ==> v == latest_occurrence(cron_form(expression@), from, now) && from
            <= v && (v == from || v <= now),
{
    let canonical = with_seconds(expression);
    check_schedule(canonical.as_str())?;
    Ok(latest_from(canonical.as_str(), from, now))
}

} // verus!
