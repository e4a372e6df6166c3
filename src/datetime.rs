//! UTC timestamps in the ISO 8601 form `YYYY-MM-DDTHH:MM:SSZ`.
use chrono::Datelike;
use chrono::Timelike;
use vstd::prelude::*;

verus! {

/// A UTC date and time, field by field.
#[derive(Debug, PartialEq, Eq, Clone, Copy, Structural)]
pub struct UtcDateTime {
    pub year: i32,
    pub month: u32,
    pub day: u32,
    pub hour: u32,
    pub minute: u32,
    pub second: u32,
}

/// The proleptic Gregorian (year, month, day) of the day `days` after
/// 1970-01-01, as chrono's calendar computes it.
pub uninterp spec fn civil_date_of(days: int) -> (int, int, int);

/// Relies on chrono's `DateTime::<Utc>::from_timestamp(secs, 0)` and its
/// `Datelike`/`Timelike` accessors: without leap seconds, the time of day is
/// the remainder of `secs` modulo a day, and the date is a function of the
/// day number alone. `None` only when the instant is out of chrono's range
/// (beyond the years -262143 and 262142), which instants within about
/// 250,000 years of 1970 are not.
#[verifier::external_body]
fn utc_fields(secs: i64) -> (r: Option<UtcDateTime>)
    ensures
        -8_000_000_000_000 <= secs <= 8_000_000_000_000 ==> r is Some,
        r is Some ==> {
            let f = r->Some_0;
            &&& f.hour == (secs as int % 86400) / 3600
            &&& f.minute == (secs as int % 3600) / 60
            &&& f.second == secs as int % 60
            &&& (f.year as int, f.month as int, f.day as int) == civil_date_of(secs as int / 86400)
            &&& 1 <= f.month <= 12
            &&& 1 <= f.day <= 31
        },
{
    chrono::DateTime::from_timestamp(secs, 0).map(
        |dt| UtcDateTime {
            year: dt.year(),
            month: dt.month(),
            day: dt.day(),
            hour: dt.hour(),
            minute: dt.minute(),
            second: dt.second(),
        },
    )
}

pub open spec fn digit_char(d: int) -> char {
    seq!['0', '1', '2', '3', '4', '5', '6', '7', '8', '9'][d]
}

/// The decimal digits of `n`, without leading zeros.
pub open spec fn decimal(n: nat) -> Seq<char>
    decreases n,
{
    if n < 10 {
        seq![digit_char(n as int)]
    } else {
        decimal(n / 10).push(digit_char((n % 10) as int))
    }
}

/// `n` in decimal, with zeros in front up to `width` characters.
pub open spec fn zero_padded(n: nat, width: nat) -> Seq<char> {
    let d = decimal(n);
    if d.len() < width {
        Seq::new((width - d.len()) as nat, |i: int| '0') + d
    } else {
        d
    }
}

/// `v` in decimal over at least `width` characters, the sign included,
/// padded with zeros after the sign.
pub open spec fn signed_padded(v: int, width: nat) -> Seq<char> {
    if v >= 0 {
        zero_padded(v as nat, width)
    } else {
        seq!['-'] + zero_padded((-v) as nat, if width > 0 {
            (width - 1) as nat
        } else {
            0
        })
    }
}

/// The ISO 8601 text of a date and time.
pub open spec fn iso8601_text(t: UtcDateTime) -> Seq<char> {
    signed_padded(t.year as int, 4) + seq!['-'] + zero_padded(t.month as nat, 2) + seq!['-']
        + zero_padded(t.day as nat, 2) + seq!['T'] + zero_padded(t.hour as nat, 2) + seq![':']
        + zero_padded(t.minute as nat, 2) + seq![':'] + zero_padded(t.second as nat, 2) + seq![
        'Z',
    ]
}

/// The number of decimal digits of `n`.
pub open spec fn num_digits(n: nat) -> nat
    decreases n,
{
    if n < 10 {
        1
    } else {
        1 + num_digits(n / 10)
    }
}

proof fn lemma_decimal_len(n: nat)
    ensures
        decimal(n).len() == num_digits(n),
    decreases n,
{
    if n >= 10 {
        lemma_decimal_len(n / 10);
    }
}

/// Relies on `ToString` for `u32` (its `Display`): the decimal digits of
/// the number, without leading zeros.
#[verifier::external_body]
fn decimal_text(n: u32) -> (r: String)
    ensures
        r@ == decimal(n as nat),
{
    n.to_string()
}

fn count_digits(n: u32) -> (r: usize)
    ensures
        r == num_digits(n as nat),
        1 <= r <= 10,
{
    let mut k: u32 = n;
    let mut count: usize = 1;
    while k >= 10
        invariant
            num_digits(n as nat) == count - 1 + num_digits(k as nat),
            1 <= count,
            count + (if k >= 1000000000 { 9int } else if k >= 100000000 { 8int } else if k
                >= 10000000 { 7int } else if k >= 1000000 { 6int } else if k >= 100000 { 5int }
            else if k >= 10000 { 4int } else if k >= 1000 { 3int } else if k >= 100 { 2int }
            else if k >= 10 { 1int } else { 0int }) <= 10,
        decreases k,
    {
        k = k / 10;
        count = count + 1;
    }
    count
}

/// `n` in decimal, padded with zeros in front to `width` characters.
fn zero_padded_text(n: u32, width: usize) -> (r: String)
    ensures
        r@ == zero_padded(n as nat, width as nat),
{
    let digits = decimal_text(n);
    let count = count_digits(n);
    proof {
        lemma_decimal_len(n as nat);
        reveal_strlit("0");
    }
    if count >= width {
        return digits;
    }
    let mut zeros = String::new();
    let mut i: usize = count;
    while i < width
        invariant
            count <= i <= width,
            zeros@ =~= Seq::new((i - count) as nat, |k: int| '0'),
        decreases width - i,
    {
        proof {
            reveal_strlit("0");
        }
        let ghost before = zeros@;
        zeros.append("0");
        assert(zeros@ =~= Seq::new((i + 1 - count) as nat, |k: int| '0')) by {
            assert(zeros@ == before + seq!['0']);
        }
        i = i + 1;
    }
    let r = zeros.concat(digits.as_str());
    assert(r@ =~= zero_padded(n as nat, width as nat));
    r
}

/// `v` in decimal over at least `width` characters, sign included.
fn signed_padded_text(v: i32, width: usize) -> (r: String)
    requires
        width >= 1,
    ensures
        r@ == signed_padded(v as int, width as nat),
{
    if v >= 0 {
        zero_padded_text(v as u32, width)
    } else {
        let magnitude: u32 = (0i64 - v as i64) as u32;
        let digits = zero_padded_text(magnitude, width - 1);
        proof {
            reveal_strlit("-");
        }
        let r = "-".to_owned().concat(digits.as_str());
        assert(r@ =~= signed_padded(v as int, width as nat));
        r
    }
}

/// The ISO 8601 text of a date and time, field by field.
pub fn format_utc_datetime(t: UtcDateTime) -> (r: String)
    ensures
        r@ == iso8601_text(t),
{
    proof {
        reveal_strlit("-");
        reveal_strlit("T");
        reveal_strlit(":");
        reveal_strlit("Z");
    }
    let r = signed_padded_text(t.year, 4).concat("-").concat(zero_padded_text(t.month, 2).as_str()).concat(
        "-",
    ).concat(zero_padded_text(t.day, 2).as_str()).concat("T").concat(
        zero_padded_text(t.hour, 2).as_str(),
    ).concat(":").concat(zero_padded_text(t.minute, 2).as_str()).concat(":").concat(
        zero_padded_text(t.second, 2).as_str(),
    ).concat("Z");
    assert(r@ =~= iso8601_text(t));
    r
}

/// The UTC date and time of the instant `unix_seconds` seconds after
/// 1970-01-01T00:00:00Z, as ISO 8601 text; `None` out of the calendar's
/// range.
pub fn build_utc_datetime(unix_seconds: i64) -> (r: Option<String>)
    ensures
        -8_000_000_000_000 <= unix_seconds <= 8_000_000_000_000 ==> r is Some,
        r is Some ==> exists|t: UtcDateTime|
            r->Some_0@ == iso8601_text(t) && t.hour == (unix_seconds as int % 86400) / 3600
                && t.minute == (unix_seconds as int % 3600) / 60 && t.second == unix_seconds as int
                % 60 && (t.year as int, t.month as int, t.day as int) == civil_date_of(
                unix_seconds as int / 86400,
            ),
{
    match utc_fields(unix_seconds) {
        Some(t) => Some(format_utc_datetime(t)),
        None => None,
    }
}

} // verus!
