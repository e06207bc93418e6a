use vstd::prelude::*;

verus! {

// ---------------------------------------------------------------------------
// The proleptic Gregorian calendar.
// ---------------------------------------------------------------------------

pub open spec fn is_leap(y: int) -> bool {
    y % 4 == 0 && (y % 100 != 0 || y % 400 == 0)
}

pub open spec fn days_in_month(y: int, m: int) -> int {
    if m == 2 {
        if is_leap(y) {
            29
        } else {
            28
        }
    } else if m == 4 || m == 6 || m == 9 || m == 11 {
        30
    } else {
        31
    }
}

pub open spec fn valid_date(y: int, m: int, d: int) -> bool {
    1 <= m <= 12 && 1 <= d <= days_in_month(y, m)
}

/// The day after a date.
pub open spec fn next_date(y: int, m: int, d: int) -> (int, int, int) {
    if d < days_in_month(y, m) {
        (y, m, d + 1)
    } else if m < 12 {
        (y, m + 1, 1)
    } else {
        (y + 1, 1, 1)
    }
}

/// Index of the month in a year that starts on 1 March (March = 0, February = 11).
pub open spec fn march_month(m: int) -> int {
    if m > 2 {
        m - 3
    } else {
        m + 9
    }
}

/// Days from 1 March to the first day of the month with March-based index `mp`.
pub open spec fn march_month_start(mp: int) -> int {
    (153 * mp + 2) / 5
}

/// The number of a date counted in days from 1970-01-01 (negative before it):
/// days of whole 400-year eras since 0000-03-01, plus whole years of the era,
/// plus days of the year since 1 March.
pub open spec fn days_from_civil(y: int, m: int, d: int) -> int {
    let yy = if m <= 2 {
        y - 1
    } else {
        y
    };
    let era = yy / 400;
    let yoe = yy - era * 400;
    let doy = march_month_start(march_month(m)) + d - 1;
    let doe = yoe * 365 + yoe / 4 - yoe / 100 + doy;
    era * 146097 + doe - 719468
}

proof fn lemma_div_is(x: int, d: int, q: int)
    requires
        d > 0,
        q * d <= x < q * d + d,
    ensures
        x / d == q,
        x % d == x - q * d,
{
    vstd::arithmetic::div_mod::lemma_fundamental_div_mod_converse(x, d, q, x - q * d);
}

/// Splitting a day of a 400-year era (counted from 1 March of its first year)
/// into year of the era and day of that March-based year.
proof fn lemma_era_split(doe: int)
    requires
        0 <= doe <= 146096,
    ensures
        ({
            let yoe = (doe - doe / 1460 + doe / 36524 - doe / 146096) / 365;
            let doy = doe - (365 * yoe + yoe / 4 - yoe / 100);
            &&& 0 <= yoe <= 399
            &&& 0 <= doy <= 365
            &&& doe == yoe * 365 + yoe / 4 - yoe / 100 + doy
            &&& (doy == 365 ==> ((yoe + 1) % 4 == 0 && ((yoe + 1) % 100 != 0 || yoe + 1 == 400)))
        }),
{
    // Century of the era (the last one is a day longer).
    let c: int = if doe >= 109572 {
        3
    } else if doe >= 73048 {
        2
    } else if doe >= 36524 {
        1
    } else {
        0
    };
    let e = doe - 36524 * c;
    assert(0 <= e <= 36524);
    assert(c < 3 ==> e <= 36523);
    // Four-year block of the century.
    let q = e / 1461;
    vstd::arithmetic::div_mod::lemma_fundamental_div_mod(e, 1461);
    vstd::arithmetic::div_mod::lemma_mod_bound(e, 1461);
    let f = e - 1461 * q;
    assert(0 <= f < 1461);
    assert(0 <= q <= 24) by {
        if q > 24 {
            assert(1461 * q >= 1461 * 25) by (nonlinear_arith)
                requires
                    q > 24,
            ;
        }
        if q < 0 {
            assert(1461 * q < 0) by (nonlinear_arith)
                requires
                    q < 0,
            ;
        }
    }
    // Year of the block.
    let r: int = if f >= 1095 {
        3
    } else if f >= 730 {
        2
    } else if f >= 365 {
        1
    } else {
        0
    };
    let g = f - 365 * r;
    assert(0 <= g <= 365);
    assert(g == 365 ==> r == 3 && f == 1460);
    assert(g == 365 ==> (q < 24 || c == 3)) by {
        if g == 365 && q == 24 {
            assert(e == 1461 * 24 + 1460);
        }
    }
    assert(doe == 36524 * c + 1461 * q + 365 * r + g);
    // The three quotients in the year formula.
    let rem = 24 * c + q + 365 * r + g;
    let delta: int = if rem >= 1460 {
        1
    } else {
        0
    };
    lemma_div_is(doe, 1460, 25 * c + q + delta);
    assert(doe / 36524 - doe / 146096 == c) by {
        if doe == 146096 {
            lemma_div_is(doe, 36524, 4);
            lemma_div_is(doe, 146096, 1);
        } else {
            lemma_div_is(doe, 36524, c);
            lemma_div_is(doe, 146096, 0);
        }
    }
    let yoe = 100 * c + 4 * q + r;
    assert(0 <= g - delta < 365);
    lemma_div_is(doe - doe / 1460 + doe / 36524 - doe / 146096, 365, yoe);
    lemma_div_is(yoe, 4, 25 * c + q);
    lemma_div_is(yoe, 100, c);
    let doy = doe - (365 * yoe + yoe / 4 - yoe / 100);
    assert(doy == g);
    if doy == 365 {
        lemma_div_is(yoe + 1, 4, 25 * c + q + 1);
        if q < 24 {
            lemma_div_is(yoe + 1, 100, c);
        }
    }
}

/// Splitting a day of a March-based year into month and day of month.
proof fn lemma_month_split(doy: int)
    requires
        0 <= doy <= 365,
    ensures
        ({
            let mp = (5 * doy + 2) / 153;
            let d = doy - (153 * mp + 2) / 5 + 1;
            let m = if mp < 10 {
                mp + 3
            } else {
                mp - 9
            };
            &&& 0 <= mp <= 11
            &&& 1 <= m <= 12
            &&& march_month(m) == mp
            &&& 1 <= d
            &&& (m != 2 ==> d <= days_in_month(2001, m))
            &&& (m == 2 ==> d <= 28 || (d == 29 && doy == 365))
        }),
{
    let mp = (5 * doy + 2) / 153;
    let mp_c: int = if doy >= 337 {
        11
    } else if doy >= 306 {
        10
    } else if doy >= 275 {
        9
    } else if doy >= 245 {
        8
    } else if doy >= 214 {
        7
    } else if doy >= 184 {
        6
    } else if doy >= 153 {
        5
    } else if doy >= 122 {
        4
    } else if doy >= 92 {
        3
    } else if doy >= 61 {
        2
    } else if doy >= 31 {
        1
    } else {
        0
    };
    lemma_div_is(5 * doy + 2, 153, mp_c);
    let start: int = if mp_c == 0 {
        0
    } else if mp_c == 1 {
        31
    } else if mp_c == 2 {
        61
    } else if mp_c == 3 {
        92
    } else if mp_c == 4 {
        122
    } else if mp_c == 5 {
        153
    } else if mp_c == 6 {
        184
    } else if mp_c == 7 {
        214
    } else if mp_c == 8 {
        245
    } else if mp_c == 9 {
        275
    } else if mp_c == 10 {
        306
    } else {
        337
    };
    lemma_div_is(153 * mp_c + 2, 5, start);
}

/// `(year, month, day, hour, minute)` (UTC) of a UNIX timestamp.
pub fn civil_from_unix(unix_secs: i64) -> (r: (i64, i64, i64, i64, i64))
    ensures
        valid_date(r.0 as int, r.1 as int, r.2 as int),
        days_from_civil(r.0 as int, r.1 as int, r.2 as int) == unix_secs as int / 86400,
        r.3 == (unix_secs as int % 86400) / 3600,
        r.4 == (unix_secs as int % 86400) % 3600 / 60,
        (r.0 as int, r.1 as int, r.2 as int) == date_of_day(unix_secs as int / 86400),
{
    let days = unix_secs.checked_div_euclid(86400).unwrap();
    let secs_in_day = unix_secs.checked_rem_euclid(86400).unwrap();
    let hh = secs_in_day.checked_div_euclid(3600).unwrap();
    let mm = secs_in_day.checked_rem_euclid(3600).unwrap().checked_div_euclid(60).unwrap();

    let z = days + 719_468;
    let era = z.checked_div_euclid(146_097).unwrap();
    let doe = z.checked_rem_euclid(146_097).unwrap();
    proof {
        lemma_era_split(doe as int);
    }
    let yoe = (doe - doe / 1460 + doe / 36_524 - doe / 146_096) / 365;
    let y = yoe + era * 400;
    let doy = doe - (365 * yoe + yoe / 4 - yoe / 100);
    proof {
        lemma_month_split(doy as int);
    }
    let mp = (5 * doy + 2) / 153;
    let d = doy - (153 * mp + 2) / 5 + 1;
    let m = if mp < 10 {
        mp + 3
    } else {
        mp - 9
    };
    let year = if m <= 2 {
        y + 1
    } else {
        y
    };
    proof {
        let yy: int = if m <= 2 { year - 1 } else { year as int };
        assert(yy == y);
        lemma_div_is(yy as int, 400, era as int);
        vstd::arithmetic::div_mod::lemma_fundamental_div_mod(z as int, 146097);
        if m == 2 && d == 29 {
            let x = yoe + 1;
            assert(year == era * 400 + x);
            lemma_div_is(year as int, 4, era * 100 + x / 4);
            lemma_div_is(x as int, 4, x / 4);
            lemma_div_is(year as int, 100, era * 4 + x / 100);
            lemma_div_is(x as int, 100, x / 100);
            lemma_div_is(year as int, 400, era + x / 400);
            lemma_div_is(x as int, 400, x / 400);
        }
    }
    proof {
        assert(valid_date(year as int, m as int, d as int));
        lemma_date_of_day(year as int, m as int, d as int);
    }
    (year, m, d, hh, mm)
}

/// The day numbering starts at the UNIX epoch: 1970-01-01 is day 0.
pub proof fn law_epoch_is_day_zero()
    ensures
        days_from_civil(1970, 1, 1) == 0,
{
    lemma_div_is(1969, 400, 4);
    lemma_div_is(369, 4, 92);
    lemma_div_is(369, 100, 3);
    lemma_div_is(153 * 10int + 2, 5, 306);
}

proof fn lemma_year_parts(yy: int)
    ensures
        ({
            let era = yy / 400;
            let yoe = yy - era * 400;
            0 <= yoe < 400 && yy == era * 400 + yoe
        }),
{
    vstd::arithmetic::div_mod::lemma_fundamental_div_mod(yy, 400);
    vstd::arithmetic::div_mod::lemma_mod_bound(yy, 400);
}

proof fn lemma_leap_in_era(y: int, era: int, x: int)
    requires
        y == era * 400 + x,
        1 <= x <= 400,
    ensures
        is_leap(y) <==> (x % 4 == 0 && (x % 100 != 0 || x == 400)),
{
    lemma_div_is(x, 4, x / 4);
    lemma_div_is(x, 100, x / 100);
    lemma_div_is(x, 400, x / 400);
    lemma_div_is(y, 4, era * 100 + x / 4);
    lemma_div_is(y, 100, era * 4 + x / 100);
    lemma_div_is(y, 400, era + x / 400);
    if x < 400 {
        lemma_div_is(x, 400, 0);
    } else {
        lemma_div_is(x, 400, 1);
    }
}

/// Successive dates have successive day numbers: the day after a valid date
/// is a valid date, numbered one higher.
pub proof fn law_next_date_is_next_day(y: int, m: int, d: int)
    requires
        valid_date(y, m, d),
    ensures
        valid_date(next_date(y, m, d).0, next_date(y, m, d).1, next_date(y, m, d).2),
        days_from_civil(next_date(y, m, d).0, next_date(y, m, d).1, next_date(y, m, d).2)
            == days_from_civil(y, m, d) + 1,
{
    let n = next_date(y, m, d);
    let yy = if m <= 2 { y - 1 } else { y };
    lemma_year_parts(yy);
    let era = yy / 400;
    let yoe = yy - era * 400;
    if d < days_in_month(y, m) {
    } else if m < 12 && m != 2 {
        let mp = march_month(m);
        lemma_div_is(153 * mp + 2, 5, if m == 1 { 306 } else if m == 3 { 0 } else if m == 4 { 31 } else if m == 5 { 61 } else if m == 6 { 92 } else if m == 7 { 122 } else if m == 8 { 153 } else if m == 9 { 184 } else if m == 10 { 214 } else { 245 });
        lemma_div_is(153 * (mp + 1) + 2, 5, if m == 1 { 337 } else if m == 3 { 31 } else if m == 4 { 61 } else if m == 5 { 92 } else if m == 6 { 122 } else if m == 7 { 153 } else if m == 8 { 184 } else if m == 9 { 214 } else if m == 10 { 245 } else { 275 });
    } else if m == 12 {
        lemma_div_is(153 * 9int + 2, 5, 275);
        lemma_div_is(153 * 10int + 2, 5, 306);
        lemma_year_parts(y);
    } else {
        // The last day of February, followed by 1 March.
        lemma_div_is(153 * 11int + 2, 5, 337);
        lemma_div_is(2, 5, 0);
        lemma_leap_in_era(y, era, yoe + 1);
        lemma_div_is(yoe, 4, yoe / 4);
        lemma_div_is(yoe, 100, yoe / 100);
        lemma_year_parts(y);
        if yoe < 399 {
            lemma_div_is(y, 400, era);
            lemma_div_is(yoe + 1, 4, if (yoe + 1) % 4 == 0 { yoe / 4 + 1 } else { yoe / 4 });
            lemma_div_is(yoe + 1, 100, if (yoe + 1) % 100 == 0 { yoe / 100 + 1 } else { yoe / 100 });
        } else {
            lemma_div_is(y, 400, era + 1);
            lemma_div_is(399, 4, 99);
            lemma_div_is(399, 100, 3);
        }
    }
}


/// `(y1, m1, d1)` comes before `(y2, m2, d2)` in the calendar.
pub open spec fn date_before(y1: int, m1: int, d1: int, y2: int, m2: int, d2: int) -> bool {
    y1 < y2 || (y1 == y2 && (m1 < m2 || (m1 == m2 && d1 < d2)))
}

spec fn date_rank(y: int, m: int, d: int) -> int {
    y * 400 + m * 32 + d
}

/// The day after a valid date is the next date in the calendar: any later
/// date is that day or after it.
proof fn lemma_next_is_successor(y1: int, m1: int, d1: int, y2: int, m2: int, d2: int)
    requires
        valid_date(y1, m1, d1),
        valid_date(y2, m2, d2),
        date_before(y1, m1, d1, y2, m2, d2),
    ensures
        next_date(y1, m1, d1) == (y2, m2, d2) || date_before(
            next_date(y1, m1, d1).0,
            next_date(y1, m1, d1).1,
            next_date(y1, m1, d1).2,
            y2,
            m2,
            d2,
        ),
{
}

/// Later dates have higher day numbers.
proof fn lemma_days_increase(y1: int, m1: int, d1: int, y2: int, m2: int, d2: int)
    requires
        valid_date(y1, m1, d1),
        valid_date(y2, m2, d2),
        date_before(y1, m1, d1, y2, m2, d2),
    ensures
        days_from_civil(y1, m1, d1) < days_from_civil(y2, m2, d2),
    decreases date_rank(y2, m2, d2) - date_rank(y1, m1, d1),
{
    law_next_date_is_next_day(y1, m1, d1);
    lemma_next_is_successor(y1, m1, d1, y2, m2, d2);
    let n = next_date(y1, m1, d1);
    if n != (y2, m2, d2) {
        lemma_days_increase(n.0, n.1, n.2, y2, m2, d2);
    }
}

/// Different valid dates have different day numbers.
pub proof fn law_days_from_civil_injective(y1: int, m1: int, d1: int, y2: int, m2: int, d2: int)
    requires
        valid_date(y1, m1, d1),
        valid_date(y2, m2, d2),
        days_from_civil(y1, m1, d1) == days_from_civil(y2, m2, d2),
    ensures
        y1 == y2 && m1 == m2 && d1 == d2,
{
    if date_before(y1, m1, d1, y2, m2, d2) {
        lemma_days_increase(y1, m1, d1, y2, m2, d2);
    } else if date_before(y2, m2, d2, y1, m1, d1) {
        lemma_days_increase(y2, m2, d2, y1, m1, d1);
    }
}

/// The date numbered `n` (the one valid date whose day number is `n`).
pub open spec fn date_of_day(n: int) -> (int, int, int) {
    choose|t: (int, int, int)| valid_date(t.0, t.1, t.2) && days_from_civil(t.0, t.1, t.2) == n
}

/// A valid date is the date of its day number.
pub proof fn lemma_date_of_day(y: int, m: int, d: int)
    requires
        valid_date(y, m, d),
    ensures
        date_of_day(days_from_civil(y, m, d)) == (y, m, d),
{
    let n = days_from_civil(y, m, d);
    assert(valid_date((y, m, d).0, (y, m, d).1, (y, m, d).2) && days_from_civil((y, m, d).0, (y, m, d).1, (y, m, d).2) == n);
    let t = date_of_day(n);
    law_days_from_civil_injective(t.0, t.1, t.2, y, m, d);
}

} // verus!
