//! URL and date text, computed by the `url` crate (through `reqwest`) and by `chrono`.

use vstd::prelude::*;

use crate::text::{decimal_text, digit_text};

verus! {

/// The text of a URL as the `url` crate parses and serialises it, `None`
/// where it does not parse.
pub uninterp spec fn parsed_url_text(text: Seq<char>) -> Option<Seq<char>>;

/// The text of the URL `base` with `pairs` appended to its query,
/// form-urlencoded, as the `url` crate builds it; `None` where `base` does not parse.
pub uninterp spec fn url_with_query_text(
    base: Seq<char>,
    pairs: Seq<(Seq<char>, Seq<char>)>,
) -> Option<Seq<char>>;

/// The UTC date and time of a Unix timestamp (whole seconds) written with a
/// strftime pattern by `chrono`; `None` where the timestamp is out of its range.
pub uninterp spec fn utc_timestamp_text(secs: i64, pattern: Seq<char>) -> Option<Seq<char>>;

/// Whether `y` is a leap year of the proleptic Gregorian calendar.
pub open spec fn is_leap_year(y: int) -> bool {
    y % 4 == 0 && (y % 100 != 0 || y % 400 == 0)
}

/// The number of days of month `m` (1 to 12) of year `y`.
pub open spec fn days_in_month(y: int, m: int) -> int {
    if m == 2 {
        if is_leap_year(y) {
            29
        } else {
            28
        }
    } else if m == 4 || m == 6 || m == 9 || m == 11 {
        30
    } else {
        31
    }
}

/// Whether `y`-`m`-`d` is a date of the proleptic Gregorian calendar.
pub open spec fn is_valid_date(y: int, m: int, d: int) -> bool {
    1 <= m <= 12 && 1 <= d <= days_in_month(y, m)
}

/// The number of days from 1970-01-01 to the date `y`-`m`-`d`: the days of
/// the years before it (counted from March, so that the leap day ends a
/// year), of its months before it, and of its month before it.
pub open spec fn days_from_civil(y: int, m: int, d: int) -> int {
    let yy = if m <= 2 {
        y - 1
    } else {
        y
    };
    let mp = if m > 2 {
        m - 3
    } else {
        m + 9
    };
    year_days(yy) + month_days(mp) + d - 1 - 719468
}

/// The days of the years 0 to `yy`, each counted from March 1st to the end
/// of the following February.
#[verifier::opaque]
pub open spec fn year_days(yy: int) -> int {
    365 * yy + yy / 4 - yy / 100 + yy / 400
}

/// The days of the first `mp` months of a year counted from March.
#[verifier::opaque]
pub open spec fn month_days(mp: int) -> int {
    (153 * mp + 2) / 5
}

/// `n` (below 100) as two decimal digits.
pub open spec fn two_digits(n: int) -> Seq<char> {
    digit_text(n / 10) + digit_text(n % 10)
}

/// `n` (below 10000) as four decimal digits.
pub open spec fn four_digits(n: int) -> Seq<char> {
    two_digits(n / 100) + two_digits(n % 100)
}

/// The date `y`-`m`-`d` and the time `second_of_day` seconds after its
/// midnight, written `YYYY-MM-DD HH:MM:SS`.
pub open spec fn date_time_text(y: int, m: int, d: int, second_of_day: int) -> Seq<char> {
    four_digits(y) + "-"@ + two_digits(m) + "-"@ + two_digits(d) + " "@ + two_digits(
        second_of_day / 3600,
    ) + ":"@ + two_digits(second_of_day % 3600 / 60) + ":"@ + two_digits(second_of_day % 60)
}

/// The first second whose UTC date has a year of four digits: 0000-01-01 00:00:00.
pub const FIRST_FOUR_DIGIT_YEAR_SECS: i64 = -62167219200;

/// The last second whose UTC date has a year of four digits: 9999-12-31 23:59:59.
pub const LAST_FOUR_DIGIT_YEAR_SECS: i64 = 253402300799;

/// Whether `text` is the UTC date and time of the Unix timestamp `secs`,
/// written `YYYY-MM-DD HH:MM:SS`: the calendar date that lies `secs / 86400`
/// days (rounded down) after 1970-01-01, with a year from 0 to 9999, and the
/// time of day of the remaining seconds.
pub open spec fn is_utc_date_time_text(secs: int, text: Seq<char>) -> bool {
    exists|y: int, m: int, d: int|
        #![trigger days_from_civil(y, m, d)]
        0 <= y <= 9999 && is_valid_date(y, m, d) && days_from_civil(y, m, d) == secs / 86400
            && text == date_time_text(y, m, d, secs % 86400)
}

/// The calendar date after `y`-`m`-`d`.
pub open spec fn next_date(y: int, m: int, d: int) -> (int, int, int) {
    if d < days_in_month(y, m) {
        (y, m, d + 1)
    } else if m < 12 {
        (y, m + 1, 1)
    } else {
        (y + 1, 1, 1)
    }
}

proof fn lemma_floor_step(y: int, k: int)
    requires
        k > 0,
    ensures
        y / k - (y - 1) / k == if y % k == 0 {
            1int
        } else {
            0int
        },
{
    let q = (y - 1) / k;
    let r = (y - 1) % k;
    vstd::arithmetic::div_mod::lemma_fundamental_div_mod(y - 1, k);
    if r == k - 1 {
        assert(y == (q + 1) * k + 0) by (nonlinear_arith)
            requires
                y - 1 == k * q + r,
                r == k - 1,
        ;
        vstd::arithmetic::div_mod::lemma_fundamental_div_mod_converse(y, k, q + 1, 0);
    } else {
        assert(y == q * k + (r + 1)) by (nonlinear_arith)
            requires
                y - 1 == k * q + r,
        ;
        vstd::arithmetic::div_mod::lemma_fundamental_div_mod_converse(y, k, q, r + 1);
    }
}

/// Day numbers count the days of the calendar: 1970-01-01 is day 0, and the
/// date after any date is again a date, numbered one more. So every date
/// carries the number of days between it and 1970-01-01.
pub proof fn lemma_day_numbers_count_days(y: int, m: int, d: int)
    requires
        is_valid_date(y, m, d),
    ensures
        days_from_civil(1970, 1, 1) == 0,
        is_valid_date(next_date(y, m, d).0, next_date(y, m, d).1, next_date(y, m, d).2),
        days_from_civil(next_date(y, m, d).0, next_date(y, m, d).1, next_date(y, m, d).2)
            == days_from_civil(y, m, d) + 1,
{
    reveal(month_days);
    assert(days_from_civil(1970, 1, 1) == 0) by {
        reveal(year_days);
    }
    if d < days_in_month(y, m) {
    } else if m == 2 {
        assert(year_days(y) - year_days(y - 1) == 365 + (if y % 4 == 0 {
            1int
        } else {
            0int
        }) - (if y % 100 == 0 {
            1int
        } else {
            0int
        }) + (if y % 400 == 0 {
            1int
        } else {
            0int
        })) by {
            reveal(year_days);
            lemma_floor_step(y, 4);
            lemma_floor_step(y, 100);
            lemma_floor_step(y, 400);
        }
        assert(month_days(11) == 337);
        assert(month_days(0) == 0);
        if y % 100 == 0 {
            assert(y % 4 == 0) by {
                vstd::arithmetic::div_mod::lemma_fundamental_div_mod(y, 100);
                vstd::arithmetic::div_mod::lemma_fundamental_div_mod_converse(
                    y,
                    4,
                    25 * (y / 100),
                    0,
                );
            }
        }
        if y % 400 == 0 {
            assert(y % 100 == 0) by {
                vstd::arithmetic::div_mod::lemma_fundamental_div_mod(y, 400);
                vstd::arithmetic::div_mod::lemma_fundamental_div_mod_converse(
                    y,
                    100,
                    4 * (y / 400),
                    0,
                );
            }
        }
    } else if m < 12 {
        if m >= 3 {
            assert(month_days(0) == 0);
            assert(month_days(1) == 31);
            assert(month_days(2) == 61);
            assert(month_days(3) == 92);
            assert(month_days(4) == 122);
            assert(month_days(5) == 153);
            assert(month_days(6) == 184);
            assert(month_days(7) == 214);
            assert(month_days(8) == 245);
            assert(month_days(9) == 275);
            assert(month_days(m - 2) - month_days(m - 3) == days_in_month(y, m));
        }
        if m == 1 {
            assert(month_days(10) == 306);
            assert(month_days(11) == 337);
        }
    } else {
        assert(month_days(9) == 275);
        assert(month_days(10) == 306);
    }
}

proof fn lemma_year_length(yy: int)
    ensures
        year_days(yy + 1) - year_days(yy) == if is_leap_year(yy + 1) {
            366int
        } else {
            365int
        },
{
    reveal(year_days);
    let y = yy + 1;
    lemma_floor_step(y, 4);
    lemma_floor_step(y, 100);
    lemma_floor_step(y, 400);
    if y % 100 == 0 {
        vstd::arithmetic::div_mod::lemma_fundamental_div_mod(y, 100);
        vstd::arithmetic::div_mod::lemma_fundamental_div_mod_converse(y, 4, 25 * (y / 100), 0);
    }
    if y % 400 == 0 {
        vstd::arithmetic::div_mod::lemma_fundamental_div_mod(y, 400);
        vstd::arithmetic::div_mod::lemma_fundamental_div_mod_converse(y, 100, 4 * (y / 400), 0);
    }
}

proof fn lemma_year_days_grow(a: int, b: int)
    requires
        a < b,
    ensures
        year_days(a + 1) <= year_days(b),
    decreases b - a,
{
    if a + 1 < b {
        lemma_year_days_grow(a, b - 1);
        lemma_year_length(b - 1);
    }
}

proof fn lemma_month_table()
    ensures
        month_days(0) == 0,
        month_days(1) == 31,
        month_days(2) == 61,
        month_days(3) == 92,
        month_days(4) == 122,
        month_days(5) == 153,
        month_days(6) == 184,
        month_days(7) == 214,
        month_days(8) == 245,
        month_days(9) == 275,
        month_days(10) == 306,
        month_days(11) == 337,
{
    reveal(month_days);
}

/// The day of a valid date within its year counted from March: it lies
/// within its month's days, and before the end of that year.
proof fn lemma_day_in_year(y: int, m: int, d: int)
    requires
        is_valid_date(y, m, d),
    ensures
        ({
            let yy = if m <= 2 {
                y - 1
            } else {
                y
            };
            let mp = if m > 2 {
                m - 3
            } else {
                m + 9
            };
            &&& 0 <= mp <= 11
            &&& month_days(mp) <= month_days(mp) + d - 1
            &&& mp < 11 ==> month_days(mp) + d - 1 < month_days(mp + 1)
            &&& month_days(mp) + d - 1 < year_days(yy + 1) - year_days(yy)
            &&& days_from_civil(y, m, d) == year_days(yy) + month_days(mp) + d - 1 - 719468
        }),
{
    lemma_month_table();
    let yy = if m <= 2 {
        y - 1
    } else {
        y
    };
    lemma_year_length(yy);
}

/// A day number belongs to one date only: two dates of the calendar with the
/// same number of days since 1970-01-01 are the same date.
pub proof fn lemma_day_number_names_one_date(y1: int, m1: int, d1: int, y2: int, m2: int, d2: int)
    requires
        is_valid_date(y1, m1, d1),
        is_valid_date(y2, m2, d2),
        days_from_civil(y1, m1, d1) == days_from_civil(y2, m2, d2),
    ensures
        y1 == y2 && m1 == m2 && d1 == d2,
{
    lemma_day_in_year(y1, m1, d1);
    lemma_day_in_year(y2, m2, d2);
    lemma_month_table();
    let yy1 = if m1 <= 2 {
        y1 - 1
    } else {
        y1
    };
    let yy2 = if m2 <= 2 {
        y2 - 1
    } else {
        y2
    };
    if yy1 < yy2 {
        lemma_year_days_grow(yy1, yy2);
    } else if yy2 < yy1 {
        lemma_year_days_grow(yy2, yy1);
    }
    assert(yy1 == yy2);
    let mp1 = if m1 > 2 {
        m1 - 3
    } else {
        m1 + 9
    };
    let mp2 = if m2 > 2 {
        m2 - 3
    } else {
        m2 + 9
    };
    assert(month_days(mp1) + d1 == month_days(mp2) + d2);
    assert(mp1 == mp2);
}

/// A timestamp has one UTC date and time text only: two texts that both are
/// the UTC date and time of `secs` are the same.
pub proof fn lemma_utc_date_time_text_is_unique(secs: int, t1: Seq<char>, t2: Seq<char>)
    requires
        is_utc_date_time_text(secs, t1),
        is_utc_date_time_text(secs, t2),
    ensures
        t1 == t2,
{
    let (y1, m1, d1) = choose|y: int, m: int, d: int|
        #![trigger days_from_civil(y, m, d)]
        0 <= y <= 9999 && is_valid_date(y, m, d) && days_from_civil(y, m, d) == secs / 86400
            && t1 == date_time_text(y, m, d, secs % 86400);
    let (y2, m2, d2) = choose|y: int, m: int, d: int|
        #![trigger days_from_civil(y, m, d)]
        0 <= y <= 9999 && is_valid_date(y, m, d) && days_from_civil(y, m, d) == secs / 86400
            && t2 == date_time_text(y, m, d, secs % 86400);
    lemma_day_number_names_one_date(y1, m1, d1, y2, m2, d2);
}

/// An IPv4 address in dotted decimal, each number without leading zeros.
pub open spec fn ipv4_text(a: u8, b: u8, c: u8, d: u8) -> Seq<char> {
    decimal_text(a as nat) + "."@ + decimal_text(b as nat) + "."@ + decimal_text(c as nat) + "."@
        + decimal_text(d as nat)
}

/// Whether `host` is a domain name of lower-case ASCII letters: labels of
/// one or more letters `a` to `z`, joined by single dots.
pub open spec fn is_letter_domain(host: Seq<char>) -> bool {
    &&& host.len() > 0
    &&& host[0] != '.'
    &&& host[host.len() - 1] != '.'
    &&& forall|i: int| 0 <= i < host.len() ==> ('a' <= #[trigger] host[i] <= 'z' || host[i] == '.')
    &&& forall|i: int| 0 <= i < host.len() - 1 ==> !(#[trigger] host[i] == '.' && host[i + 1] == '.')
}

/// Whether `host` is a host that URL parsing writes back unchanged: a letter
/// domain name or an IPv4 address in dotted decimal.
pub open spec fn is_plain_host(host: Seq<char>) -> bool {
    is_letter_domain(host) || exists|a: u8, b: u8, c: u8, d: u8| host == #[trigger] ipv4_text(a, b, c, d)
}

/// `host`, then `:` and the port in decimal where there is one.
pub open spec fn authority_text(host: Seq<char>, port: Option<u16>) -> Seq<char> {
    match port {
        Some(p) => host + ":"@ + decimal_text(p as nat),
        None => host,
    }
}

/// The port that an `http` URL keeps: none for the scheme's default port 80.
pub open spec fn http_port(port: Option<u16>) -> Option<u16> {
    if port == Some(80u16) {
        None
    } else {
        port
    }
}

/// The view of an optional string.
pub open spec fn option_text(s: Option<String>) -> Option<Seq<char>> {
    match s {
        Some(t) => Some(t@),
        None => None,
    }
}

/// The views of a list of string pairs.
pub open spec fn pairs_view(pairs: Seq<(String, String)>) -> Seq<(Seq<char>, Seq<char>)> {
    pairs.map_values(|p: (String, String)| (p.0@, p.1@))
}

/// Parses `text` with `url::Url::parse` (which `reqwest::Url` is) and
/// serialises the result; the result is the name `parsed_url_text` of the
/// text. An `http` URL with a plain host, an optional port and the path
/// `/data` is written back as it is, but for the default port 80, which is
/// dropped.
#[verifier::external_body]
pub(crate) fn parse_url(text: &str) -> (url: Option<String>)
    ensures
        option_text(url) == parsed_url_text(text@),
        forall|host: Seq<char>, port: Option<u16>|
            is_plain_host(host) && text@ == "http://"@ + #[trigger] authority_text(host, port)
                + "/data"@ ==> option_text(url) == Some(
                "http://"@ + authority_text(host, http_port(port)) + "/data"@,
            ),
{
    reqwest::Url::parse(text).ok().map(String::from)
}

/// Parses `base` with `url::Url::parse`, appends `pairs` through
/// `Url::query_pairs_mut` and `extend_pairs`, and serialises the result; the
/// result is the name `url_with_query_text` of the arguments. A base without
/// a fragment keeps the query serializer from re-appending one.
#[verifier::external_body]
pub(crate) fn url_with_query(base: &str, pairs: &Vec<(String, String)>) -> (url: Option<String>)
    requires
        !base@.contains('#'),
    ensures
        option_text(url) == url_with_query_text(base@, pairs_view(pairs@)),
{
    let mut url = reqwest::Url::parse(base).ok()?;
    url.query_pairs_mut().extend_pairs(pairs.iter().map(|p| (p.0.as_str(), p.1.as_str())));
    Some(String::from(url))
}

/// Writes the UTC date and time of the Unix timestamp `secs` with
/// `chrono::DateTime::from_timestamp(secs, 0)` and `format(pattern)`; the
/// result is the name `utc_timestamp_text` of the arguments. Only the
/// pattern `%Y-%m-%d %H:%M:%S`, whose items chrono always writes, is admitted.
/// For a timestamp whose year has four digits, the text is its calendar date
/// and time of day in UTC, each field zero-padded.
#[verifier::external_body]
pub(crate) fn format_utc_timestamp(secs: i64, pattern: &str) -> (text: Option<String>)
    requires
        pattern@ == "%Y-%m-%d %H:%M:%S"@,
    ensures
        option_text(text) == utc_timestamp_text(secs, pattern@),
        FIRST_FOUR_DIGIT_YEAR_SECS <= secs <= LAST_FOUR_DIGIT_YEAR_SECS ==> text is Some
            && is_utc_date_time_text(secs as int, text->Some_0@),
{
    chrono::DateTime::from_timestamp(secs, 0).map(|t| t.format(pattern).to_string())
}

} // verus!
