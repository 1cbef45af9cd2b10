//! The health answer: a fixed status and a timestamp in RFC 3339 form,
//! computed here from a count of seconds since 1970-01-01T00:00:00 UTC.

use vstd::prelude::*;
use vstd::string::StringExecFns;

verus! {

/// Whether `y` is a leap year in the Gregorian calendar.
pub open spec fn is_leap_year(y: int) -> bool {
    (y % 4 == 0 && y % 100 != 0) || y % 400 == 0
}

/// Days in year `y`.
pub open spec fn days_in_year(y: int) -> int {
    if is_leap_year(y) {
        366
    } else {
        365
    }
}

/// Leap years strictly before year `y`, counted from the calendar's start.
pub open spec fn leaps_before(y: int) -> int {
    (y - 1) / 4 - (y - 1) / 100 + (y - 1) / 400
}

/// Days from 1970-01-01 to the first day of year `y`.
pub open spec fn days_before_year(y: int) -> int {
    365 * (y - 1970) + leaps_before(y) - leaps_before(1970)
}

/// Days in month `m` of year `y` (months 1 to 12).
pub open spec fn days_in_month(y: int, m: int) -> int {
    if m == 2 {
        if is_leap_year(y) {
            29
        } else {
            28
        }
    } else if m == 4 || m == 6 || m == 9 || m == 11 {
        30
    } else {
        31
    }
}

/// Days from the first of January of year `y` to the first of month `m`.
pub open spec fn days_before_month(y: int, m: int) -> int
    decreases m,
{
    if m <= 1 {
        0
    } else {
        days_before_month(y, m - 1) + days_in_month(y, m - 1)
    }
}

/// Whether the civil date `y-m-d` falls on day number `days`, counted from
/// 1970-01-01.
pub open spec fn is_civil_date(days: int, y: int, m: int, d: int) -> bool {
    &&& 1970 <= y <= 9999
    &&& 1 <= m <= 12
    &&& 1 <= d <= days_in_month(y, m)
    &&& days == days_before_year(y) + days_before_month(y, m) + (d - 1)
}

/// Stepping to the next year adds exactly that year's days.
proof fn lemma_dby_step(y: int)
    requires
        1 <= y,
    ensures
        days_before_year(y + 1) == days_before_year(y) + days_in_year(y),
{
    assert(y / 4 - (y - 1) / 4 == (if y % 4 == 0 {
        1int
    } else {
        0int
    })) by (nonlinear_arith)
        requires 1 <= y,
    ;
    assert(y / 100 - (y - 1) / 100 == (if y % 100 == 0 {
        1int
    } else {
        0int
    })) by (nonlinear_arith)
        requires 1 <= y,
    ;
    assert(y / 400 - (y - 1) / 400 == (if y % 400 == 0 {
        1int
    } else {
        0int
    })) by (nonlinear_arith)
        requires 1 <= y,
    ;
    assert(y % 100 == 0 ==> y % 4 == 0) by (nonlinear_arith);
    assert(y % 400 == 0 ==> y % 100 == 0) by (nonlinear_arith);
}

/// The months of a year sum to the year's days.
proof fn lemma_year_end(y: int)
    ensures
        days_before_month(y, 12) + days_in_month(y, 12) == days_in_year(y),
{
    assert(days_before_month(y, 1) == 0);
    assert(days_before_month(y, 2) == 31);
    assert(days_before_month(y, 3) == days_before_month(y, 2) + days_in_month(y, 2));
    assert(days_before_month(y, 4) == days_before_month(y, 3) + 31);
    assert(days_before_month(y, 5) == days_before_month(y, 4) + 30);
    assert(days_before_month(y, 6) == days_before_month(y, 5) + 31);
    assert(days_before_month(y, 7) == days_before_month(y, 6) + 30);
    assert(days_before_month(y, 8) == days_before_month(y, 7) + 31);
    assert(days_before_month(y, 9) == days_before_month(y, 8) + 31);
    assert(days_before_month(y, 10) == days_before_month(y, 9) + 30);
    assert(days_before_month(y, 11) == days_before_month(y, 10) + 31);
    assert(days_before_month(y, 12) == days_before_month(y, 11) + 30);
}

/// Days in year `y`, for year numbers a timestamp can reach.
fn days_in_year_x(y: u64) -> (r: u64)
    requires
        y <= 10000,
    ensures
        r == days_in_year(y as int),
{
    if (y % 4 == 0 && y % 100 != 0) || y % 400 == 0 {
        366
    } else {
        365
    }
}

/// Days in month `m` of year `y`.
fn days_in_month_x(y: u64, m: u64) -> (r: u64)
    requires
        y <= 10000,
        1 <= m <= 12,
    ensures
        r == days_in_month(y as int, m as int),
{
    if m == 2 {
        if (y % 4 == 0 && y % 100 != 0) || y % 400 == 0 {
            29
        } else {
            28
        }
    } else if m == 4 || m == 6 || m == 9 || m == 11 {
        30
    } else {
        31
    }
}

/// The civil date of day number `days`, counted from 1970-01-01. The bound
/// keeps the year at four digits: day 2932896 is 9999-12-31.
fn civil_from_days(days: u64) -> (r: (u64, u64, u64))
    requires
        days < 2932897,
    ensures
        is_civil_date(days as int, r.0 as int, r.1 as int, r.2 as int),
{
    let mut y: u64 = 1970;
    let mut rem: u64 = days;
    let mut diy = days_in_year_x(y);
    while rem >= diy
        invariant
            1970 <= y <= 9999,
            days < 2932897,
            diy == days_in_year(y as int),
            days_before_year(y as int) + rem == days,
        decreases rem,
    {
        proof {
            lemma_dby_step(y as int);
        }
        rem = rem - diy;
        y = y + 1;
        diy = days_in_year_x(y);
    }
    let mut m: u64 = 1;
    let mut dim = days_in_month_x(y, m);
    while rem >= dim
        invariant
            1970 <= y <= 9999,
            1 <= m <= 12,
            dim == days_in_month(y as int, m as int),
            days_before_year(y as int) + days_before_month(y as int, m as int) + rem == days,
            days_before_month(y as int, m as int) + rem < days_in_year(y as int),
        decreases 12 - m,
    {
        proof {
            lemma_year_end(y as int);
        }
        rem = rem - dim;
        m = m + 1;
        dim = days_in_month_x(y, m);
    }
    (y, m, rem + 1)
}

/// The character of the decimal digit `d`.
pub open spec fn digit_char(d: int) -> char {
    if d == 0 {
        '0'
    } else if d == 1 {
        '1'
    } else if d == 2 {
        '2'
    } else if d == 3 {
        '3'
    } else if d == 4 {
        '4'
    } else if d == 5 {
        '5'
    } else if d == 6 {
        '6'
    } else if d == 7 {
        '7'
    } else if d == 8 {
        '8'
    } else {
        '9'
    }
}

/// `n` written with two digits.
pub open spec fn dec2(n: int) -> Seq<char> {
    seq![digit_char(n / 10), digit_char(n % 10)]
}

/// `n` written with four digits.
pub open spec fn dec4(n: int) -> Seq<char> {
    seq![
        digit_char(n / 1000),
        digit_char((n / 100) % 10),
        digit_char((n / 10) % 10),
        digit_char(n % 10),
    ]
}

/// The RFC 3339 text of the given UTC instant, with a `+00:00` offset.
pub open spec fn rfc3339_chars(y: int, m: int, d: int, hh: int, mi: int, ss: int) -> Seq<char> {
    dec4(y) + seq!['-'] + dec2(m) + seq!['-'] + dec2(d) + seq!['T'] + dec2(hh) + seq![':'] + dec2(
        mi,
    ) + seq![':'] + dec2(ss) + seq!['+', '0', '0', ':', '0', '0']
}

/// Whether `c` is a decimal digit character.
pub open spec fn is_digit_char(c: char) -> bool {
    0x30 <= c as int && c as int <= 0x39
}

/// The shape of a well-formed timestamp as this service writes it:
/// `YYYY-MM-DDTHH:MM:SS+00:00`.
pub open spec fn is_rfc3339(s: Seq<char>) -> bool {
    &&& s.len() == 25
    &&& forall|i: int|
        #![trigger s[i]]
        (0 <= i < 4 || i == 5 || i == 6 || i == 8 || i == 9 || i == 11 || i == 12 || i == 14 || i
            == 15 || i == 17 || i == 18) ==> is_digit_char(s[i])
    &&& s[4] == '-'
    &&& s[7] == '-'
    &&& s[10] == 'T'
    &&& s[13] == ':'
    &&& s[16] == ':'
    &&& s[19] == '+'
    &&& s[20] == '0'
    &&& s[21] == '0'
    &&& s[22] == ':'
    &&& s[23] == '0'
    &&& s[24] == '0'
}

/// A digit character is a digit character, whatever number it was made
/// from.
proof fn lemma_digit_char(x: int)
    ensures
        is_digit_char(digit_char(x)),
{
}

/// A timestamp written by [`rfc3339_chars`] is well-formed.
#[verifier::rlimit(100)]
pub proof fn lemma_rfc3339_well_formed(y: int, m: int, d: int, hh: int, mi: int, ss: int)
    ensures
        is_rfc3339(rfc3339_chars(y, m, d, hh, mi, ss)),
{
    assert(forall|x: int| is_digit_char(#[trigger] digit_char(x))) by {
        assert forall|x: int| is_digit_char(#[trigger] digit_char(x)) by {
            lemma_digit_char(x);
        }
    }
    let c = seq![
        digit_char(y / 1000),
        digit_char((y / 100) % 10),
        digit_char((y / 10) % 10),
        digit_char(y % 10),
        '-',
        digit_char(m / 10),
        digit_char(m % 10),
        '-',
        digit_char(d / 10),
        digit_char(d % 10),
        'T',
        digit_char(hh / 10),
        digit_char(hh % 10),
        ':',
        digit_char(mi / 10),
        digit_char(mi % 10),
        ':',
        digit_char(ss / 10),
        digit_char(ss % 10),
        '+',
        '0',
        '0',
        ':',
        '0',
        '0',
    ];
    let t2 = dec4(y) + seq!['-'];
    let t3 = t2 + dec2(m);
    let t4 = t3 + seq!['-'];
    let t5 = t4 + dec2(d);
    let t6 = t5 + seq!['T'];
    let t7 = t6 + dec2(hh);
    let t8 = t7 + seq![':'];
    let t9 = t8 + dec2(mi);
    let t10 = t9 + seq![':'];
    let t11 = t10 + dec2(ss);
    let t12 = t11 + seq!['+', '0', '0', ':', '0', '0'];
    assert(t2 =~= c.subrange(0, 5));
    assert(t3 =~= c.subrange(0, 7));
    assert(t4 =~= c.subrange(0, 8));
    assert(t5 =~= c.subrange(0, 10));
    assert(t6 =~= c.subrange(0, 11));
    assert(t7 =~= c.subrange(0, 13));
    assert(t8 =~= c.subrange(0, 14));
    assert(t9 =~= c.subrange(0, 16));
    assert(t10 =~= c.subrange(0, 17));
    assert(t11 =~= c.subrange(0, 19));
    assert(t12 =~= c);
    assert(rfc3339_chars(y, m, d, hh, mi, ss) == t12);
}

/// Appends the digit `dd` as one character.
fn append_digit(s: &mut String, dd: u64)
    requires
        dd < 10,
    ensures
        final(s)@ == old(s)@ + seq![digit_char(dd as int)],
{
    if dd == 0 {
        proof {
            reveal_strlit("0");
        }
        s.append("0");
        proof {
            assert(final(s)@ =~= old(s)@ + seq![digit_char(dd as int)]);
        }
    } else if dd == 1 {
        proof {
            reveal_strlit("1");
        }
        s.append("1");
        proof {
            assert(final(s)@ =~= old(s)@ + seq![digit_char(dd as int)]);
        }
    } else if dd == 2 {
        proof {
            reveal_strlit("2");
        }
        s.append("2");
        proof {
            assert(final(s)@ =~= old(s)@ + seq![digit_char(dd as int)]);
        }
    } else if dd == 3 {
        proof {
            reveal_strlit("3");
        }
        s.append("3");
        proof {
            assert(final(s)@ =~= old(s)@ + seq![digit_char(dd as int)]);
        }
    } else if dd == 4 {
        proof {
            reveal_strlit("4");
        }
        s.append("4");
        proof {
            assert(final(s)@ =~= old(s)@ + seq![digit_char(dd as int)]);
        }
    } else if dd == 5 {
        proof {
            reveal_strlit("5");
        }
        s.append("5");
        proof {
            assert(final(s)@ =~= old(s)@ + seq![digit_char(dd as int)]);
        }
    } else if dd == 6 {
        proof {
            reveal_strlit("6");
        }
        s.append("6");
        proof {
            assert(final(s)@ =~= old(s)@ + seq![digit_char(dd as int)]);
        }
    } else if dd == 7 {
        proof {
            reveal_strlit("7");
        }
        s.append("7");
        proof {
            assert(final(s)@ =~= old(s)@ + seq![digit_char(dd as int)]);
        }
    } else if dd == 8 {
        proof {
            reveal_strlit("8");
        }
        s.append("8");
        proof {
            assert(final(s)@ =~= old(s)@ + seq![digit_char(dd as int)]);
        }
    } else {
        proof {
            reveal_strlit("9");
        }
        s.append("9");
        proof {
            assert(final(s)@ =~= old(s)@ + seq![digit_char(dd as int)]);
        }
    }
}

/// Appends `n` written with two digits.
fn append_2(s: &mut String, n: u64)
    requires
        n < 100,
    ensures
        final(s)@ == old(s)@ + dec2(n as int),
{
    append_digit(s, n / 10);
    append_digit(s, n % 10);
    proof {
        assert(final(s)@ =~= old(s)@ + dec2(n as int));
    }
}

/// Appends `n` written with four digits.
fn append_4(s: &mut String, n: u64)
    requires
        n < 10000,
    ensures
        final(s)@ == old(s)@ + dec4(n as int),
{
    append_digit(s, n / 1000);
    append_digit(s, (n / 100) % 10);
    append_digit(s, (n / 10) % 10);
    append_digit(s, n % 10);
    proof {
        assert(final(s)@ =~= old(s)@ + dec4(n as int));
    }
}

/// Writes the UTC instant `secs` seconds after 1970-01-01T00:00:00 in
/// RFC 3339 form, `YYYY-MM-DDTHH:MM:SS+00:00`. The bound keeps the year at
/// four digits: the largest accepted instant is 9999-12-31T23:59:59.
pub fn rfc3339_utc(secs: u64) -> (r: String)
    requires
        secs < 253402300800,
    ensures
        exists|y: int, m: int, d: int|
            #[trigger] is_civil_date((secs / 86400) as int, y, m, d) && r@ == rfc3339_chars(
                y,
                m,
                d,
                ((secs % 86400) / 3600) as int,
                ((secs % 3600) / 60) as int,
                (secs % 60) as int,
            ),
        is_rfc3339(r@),
{
    let days = secs / 86400;
    let (y, m, d) = civil_from_days(days);
    let hh = (secs % 86400) / 3600;
    let mi = (secs % 3600) / 60;
    let ss = secs % 60;
    let mut out = String::new();
    append_4(&mut out, y);
    proof {
        reveal_strlit("-");
    }
    out.append("-");
    append_2(&mut out, m);
    out.append("-");
    append_2(&mut out, d);
    proof {
        reveal_strlit("T");
    }
    out.append("T");
    append_2(&mut out, hh);
    proof {
        reveal_strlit(":");
    }
    out.append(":");
    append_2(&mut out, mi);
    out.append(":");
    append_2(&mut out, ss);
    proof {
        reveal_strlit("+00:00");
    }
    out.append("+00:00");
    proof {
        assert(out@ =~= rfc3339_chars(
            y as int,
            m as int,
            d as int,
            hh as int,
            mi as int,
            ss as int,
        ));
        lemma_rfc3339_well_formed(y as int, m as int, d as int, hh as int, mi as int, ss as int);
    }
    out
}

/// The health answer: a fixed status text and a timestamp.
pub struct HealthReply {
    pub status: String,
    pub timestamp: String,
}

impl HealthReply {
    /// The health endpoint always answers 200.
    pub fn http_status(&self) -> (r: u16)
        ensures
            r == 200,
    {
        200
    }
}

/// Builds the health answer for a clock reading of `now_secs` seconds since
/// the epoch. It is defined for every reading — a reading past year 9999 is
/// clamped to the largest representable instant — so the answer is always
/// well-formed, whatever the clock says and whether or not any chain node
/// answers.
pub fn health_reply_at(now_secs: u64) -> (r: HealthReply)
    ensures
        r.status@ == "healthy"@,
        is_rfc3339(r.timestamp@),
        now_secs < 253402300800 ==> exists|y: int, m: int, d: int|
            #[trigger] is_civil_date((now_secs / 86400) as int, y, m, d) && r.timestamp@
                == rfc3339_chars(
                y,
                m,
                d,
                ((now_secs % 86400) / 3600) as int,
                ((now_secs % 3600) / 60) as int,
                (now_secs % 60) as int,
            ),
{
    let secs = if now_secs >= 253402300800 {
        253402300799
    } else {
        now_secs
    };
    let ts = rfc3339_utc(secs);
    HealthReply { status: "healthy".to_owned(), timestamp: ts }
}

} // verus!
