use vstd::prelude::*;
use vstd::string::StringExecFns;
use vstd::arithmetic::div_mod::{lemma_fundamental_div_mod, lemma_fundamental_div_mod_converse};

verus! {

/// An instant in UTC with millisecond precision, the backend's native
/// resolution. Stored as signed milliseconds since the Unix epoch, so a raw
/// backend timestamp converts without any rounding.
#[derive(Clone, Copy, Debug, PartialEq, Eq, Structural)]
pub struct Timestamp {
    millis: i64,
}

impl View for Timestamp {
    type V = int;

    closed spec fn view(&self) -> int {
        self.millis as int
    }
}

impl Timestamp {
    /// The instant `epoch_millis` milliseconds after the Unix epoch.
    pub fn from_epoch_millis(epoch_millis: i64) -> (t: Timestamp)
        ensures
            t@ == epoch_millis as int,
    {
        Timestamp { millis: epoch_millis }
    }

    pub fn epoch_millis(&self) -> (r: i64)
        ensures
            r as int == self@,
    {
        self.millis
    }
}

/// A calendar date and wall-clock time on the proleptic Gregorian calendar.
#[derive(Clone, Copy, Debug, PartialEq, Eq, Structural)]
pub struct CivilDateTime {
    pub year: i64,
    pub month: u8,
    pub day: u8,
    pub hour: u8,
    pub minute: u8,
    pub second: u8,
}

pub open spec fn spec_is_leap_year(y: int) -> bool {
    y % 4 == 0 && (y % 100 != 0 || y % 400 == 0)
}

pub open spec fn spec_days_in_month(y: int, m: int) -> int {
    if m == 2 {
        if spec_is_leap_year(y) {
            29
        } else {
            28
        }
    } else if m == 4 || m == 6 || m == 9 || m == 11 {
        30
    } else {
        31
    }
}

pub open spec fn spec_is_valid_date(y: int, m: int, d: int) -> bool {
    &&& 1 <= m <= 12
    &&& 1 <= d <= spec_days_in_month(y, m)
}

/// Days from the 1st of March to the 1st of month `m`, counting within the
/// March-aligned year that starts in `m`'s civil year (for March to December)
/// or the one before it (for January and February). Aligning years to March
/// puts the leap day at the very end of the year, which makes the day counts
/// below independent of leap years.
pub open spec fn spec_days_from_march(m: int) -> int {
    if m == 3 {
        0
    } else if m == 4 {
        31
    } else if m == 5 {
        61
    } else if m == 6 {
        92
    } else if m == 7 {
        122
    } else if m == 8 {
        153
    } else if m == 9 {
        184
    } else if m == 10 {
        214
    } else if m == 11 {
        245
    } else if m == 12 {
        275
    } else if m == 1 {
        306
    } else {
        337
    }
}

/// The number of days from 1970-01-01 to the calendar date `y-m-d`
/// (negative for earlier dates). `719468` is the number of days from
/// 0000-03-01 to 1970-01-01.
pub open spec fn spec_epoch_day(y: int, m: int, d: int) -> int {
    let my = if m <= 2 {
        y - 1
    } else {
        y
    };
    365 * my + my / 4 - my / 100 + my / 400 + spec_days_from_march(m) + d - 1 - 719468
}

/// `c` names the calendar second that contains the instant `shifted_millis`
/// (a count of milliseconds from the Unix epoch, already moved into the
/// display offset).
pub open spec fn spec_represents(c: CivilDateTime, shifted_millis: int) -> bool {
    &&& spec_is_valid_date(c.year as int, c.month as int, c.day as int)
    &&& 0 <= c.hour < 24
    &&& 0 <= c.minute < 60
    &&& 0 <= c.second < 60
    &&& {
        let base = spec_epoch_day(c.year as int, c.month as int, c.day as int) * 86400000 + (
        c.hour * 3600 + c.minute * 60 + c.second) * 1000;
        base <= shifted_millis < base + 1000
    }
}

/// The calendar second containing the given instant, read in a fixed
/// offset from UTC (seconds east). Total for every millisecond value; the
/// intermediate arithmetic is done shifted by a whole number of 400-year
/// cycles so that it stays non-negative.
#[verifier::rlimit(100)]
#[verifier::spinoff_prover]
pub fn civil_from_millis(millis: i64, offset_seconds: i32) -> (c: CivilDateTime)
    ensures
        spec_represents(c, millis + offset_seconds * 1000),
        -500_000_000_000 < c.year < 500_000_000_000,
{
    // 12_622_780_800_000 milliseconds make one 400-year cycle of 146097 days.
    let total: i128 = (millis as i128) + (offset_seconds as i128) * 1000
        + 12_622_780_800_000 * 1_000_000_000;
    let ut: u128 = total as u128;
    let days: u128 = ut / 86_400_000;
    let ms_of_day: u64 = (ut % 86_400_000) as u64;
    proof {
        lemma_fundamental_div_mod(ut as int, 86_400_000);
        assert(days < 300_000_000_000_000) by {
            assert(days * 86_400_000 <= ut as int);
        };
    }
    let sec_of_day: u64 = ms_of_day / 1000;
    let hour: u64 = sec_of_day / 3600;
    let sec_in_hour: u64 = sec_of_day % 3600;
    let minute: u64 = sec_in_hour / 60;
    let second: u64 = sec_in_hour % 60;
    proof {
        lemma_fundamental_div_mod(ms_of_day as int, 1000);
        lemma_fundamental_div_mod(sec_of_day as int, 3600);
        lemma_fundamental_div_mod(sec_in_hour as int, 60);
    }
    let z: u128 = days + 719468;
    let era: u128 = z / 146097;
    let doe: u64 = (z % 146097) as u64;
    proof {
        lemma_fundamental_div_mod(z as int, 146097);
        assert(era < 3_000_000_000) by {
            assert(era * 146097 <= z as int);
        };
    }
    // Split the day-of-era into centuries, four-year blocks and years. The
    // last day of the era belongs to the fourth century of the era, and the
    // last day of a four-year block to its fourth year: both quotients are
    // capped so that the closing leap day stays inside its block.
    let c0: u64 = doe / 36524;
    let cent: u64 = if c0 == 4 {
        3
    } else {
        c0
    };
    let rem1: u64 = doe - cent * 36524;
    let quad: u64 = rem1 / 1461;
    let rem2: u64 = rem1 - quad * 1461;
    let y0: u64 = rem2 / 365;
    let yr: u64 = if y0 == 4 {
        3
    } else {
        y0
    };
    let doy: u64 = rem2 - yr * 365;
    proof {
        lemma_fundamental_div_mod(doe as int, 36524);
        lemma_fundamental_div_mod(rem1 as int, 1461);
        lemma_fundamental_div_mod(rem2 as int, 365);
        assert(cent <= 3 && rem1 <= 36524);
        assert(quad <= 24 && rem2 <= 1460);
        assert(yr <= 3 && doy <= 365);
        assert(doy == 365 ==> rem2 == 1460 && yr == 3);
        assert(rem1 == 36524 ==> cent == 3);
    }
    // The March-aligned year within the shifted scale, and the day of that
    // year.
    let smy: u128 = era * 400 + (cent * 100 + quad * 4 + yr) as u128;
    let my: i128 = (smy as i128) - 400 * 1_000_000_000;
    let (month, day): (u8, u64) = if doy < 31 {
        (3, doy + 1)
    } else if doy < 61 {
        (4, doy - 30)
    } else if doy < 92 {
        (5, doy - 60)
    } else if doy < 122 {
        (6, doy - 91)
    } else if doy < 153 {
        (7, doy - 121)
    } else if doy < 184 {
        (8, doy - 152)
    } else if doy < 214 {
        (9, doy - 183)
    } else if doy < 245 {
        (10, doy - 213)
    } else if doy < 275 {
        (11, doy - 244)
    } else if doy < 306 {
        (12, doy - 274)
    } else if doy < 337 {
        (1, doy - 305)
    } else {
        (2, doy - 336)
    };
    let year_wide: i128 = if month <= 2 {
        my + 1
    } else {
        my
    };
    let year: i64 = year_wide as i64;
    proof {
        assert(smy as int == era * 400 + cent * 100 + quad * 4 + yr);
        assert(-400_000_000_000 <= my < 2_000_000_000_000);
        assert(year as int == year_wide as int);
        lemma_civil_reassemble(
            era as int,
            cent as int,
            quad as int,
            yr as int,
            smy as int,
            my as int,
        );
        assert(doe == cent * 36524 + quad * 1461 + yr * 365 + doy);
        assert(spec_epoch_day(year as int, month as int, day as int) == days - 146097
            * 1_000_000_000);
        if doy == 365 {
            lemma_leap_of_block(era as int, cent as int, quad as int, yr as int, my as int);
            assert(spec_is_leap_year(year as int));
        }
        assert(spec_is_valid_date(year as int, month as int, day as int));
        assert(total >= 0);
        assert(ut as int == total);
        assert(ut == days * 86_400_000 + ms_of_day);
        assert(sec_of_day == hour * 3600 + minute * 60 + second);
        assert(sec_of_day * 1000 <= ms_of_day < sec_of_day * 1000 + 1000);
    }
    CivilDateTime {
        year,
        month,
        day: day as u8,
        hour: hour as u8,
        minute: minute as u8,
        second: second as u8,
    }
}

pub open spec fn spec_digit_char(d: int) -> char {
    if d == 0 {
        '0'
    } else if d == 1 {
        '1'
    } else if d == 2 {
        '2'
    } else if d == 3 {
        '3'
    } else if d == 4 {
        '4'
    } else if d == 5 {
        '5'
    } else if d == 6 {
        '6'
    } else if d == 7 {
        '7'
    } else if d == 8 {
        '8'
    } else {
        '9'
    }
}

/// The decimal digits of `n`, most significant first.
pub open spec fn spec_uint_digits(n: nat) -> Seq<char>
    decreases n,
{
    if n < 10 {
        seq![spec_digit_char(n as int)]
    } else {
        spec_uint_digits(n / 10).push(spec_digit_char((n % 10) as int))
    }
}

/// `s` left-padded with zeroes to at least four characters.
pub open spec fn spec_pad4(s: Seq<char>) -> Seq<char> {
    if s.len() == 1 {
        seq!['0', '0', '0'] + s
    } else if s.len() == 2 {
        seq!['0', '0'] + s
    } else if s.len() == 3 {
        seq!['0'] + s
    } else {
        s
    }
}

/// A year in decimal, zero-padded to four digits, with a leading minus sign
/// for years before year zero.
pub open spec fn spec_year_text(y: int) -> Seq<char> {
    if y < 0 {
        seq!['-'] + spec_pad4(spec_uint_digits((-y) as nat))
    } else {
        spec_pad4(spec_uint_digits(y as nat))
    }
}

/// A value below one hundred in decimal, zero-padded to two digits.
pub open spec fn spec_two_digit_text(n: int) -> Seq<char> {
    seq![spec_digit_char(n / 10), spec_digit_char(n % 10)]
}

/// The text `YYYY-MM-DD HH:MM:SS` for a calendar second.
pub open spec fn spec_civil_text(c: CivilDateTime) -> Seq<char> {
    spec_year_text(c.year as int) + seq!['-'] + spec_two_digit_text(c.month as int) + seq!['-']
        + spec_two_digit_text(c.day as int) + seq![' '] + spec_two_digit_text(c.hour as int)
        + seq![':'] + spec_two_digit_text(c.minute as int) + seq![':'] + spec_two_digit_text(
        c.second as int,
    )
}

fn digit_str(d: u64) -> (r: &'static str)
    requires
        d < 10,
    ensures
        r@ == seq![spec_digit_char(d as int)],
{
    proof {
        reveal_strlit("0");
        reveal_strlit("1");
        reveal_strlit("2");
        reveal_strlit("3");
        reveal_strlit("4");
        reveal_strlit("5");
        reveal_strlit("6");
        reveal_strlit("7");
        reveal_strlit("8");
        reveal_strlit("9");
    }
    let r = if d == 0 {
        "0"
    } else if d == 1 {
        "1"
    } else if d == 2 {
        "2"
    } else if d == 3 {
        "3"
    } else if d == 4 {
        "4"
    } else if d == 5 {
        "5"
    } else if d == 6 {
        "6"
    } else if d == 7 {
        "7"
    } else if d == 8 {
        "8"
    } else {
        "9"
    };
    proof {
        assert(r@ =~= seq![spec_digit_char(d as int)]);
    }
    r
}

fn push_two_digits(out: &mut String, n: u64)
    requires
        n < 100,
    ensures
        final(out)@ == old(out)@ + spec_two_digit_text(n as int),
{
    out.append(digit_str(n / 10));
    out.append(digit_str(n % 10));
    proof {
        assert(out@ =~= old(out)@ + spec_two_digit_text(n as int));
    }
}

fn push_uint_digits(out: &mut String, n: u64)
    ensures
        final(out)@ == old(out)@ + spec_uint_digits(n as nat),
    decreases n,
{
    if n < 10 {
        out.append(digit_str(n));
    } else {
        push_uint_digits(out, n / 10);
        out.append(digit_str(n % 10));
    }
    proof {
        assert(out@ =~= old(out)@ + spec_uint_digits(n as nat));
    }
}

proof fn lemma_uint_digits_len(n: nat)
    ensures
        spec_uint_digits(n).len() >= 1,
        n < 10 ==> spec_uint_digits(n).len() == 1,
        10 <= n < 100 ==> spec_uint_digits(n).len() == 2,
        100 <= n < 1000 ==> spec_uint_digits(n).len() == 3,
        1000 <= n ==> spec_uint_digits(n).len() >= 4,
    decreases n,
{
    if n >= 10 {
        lemma_uint_digits_len(n / 10);
    }
}

/// Appends the decimal digits of `n`, zero-padded to at least four.
fn push_padded_uint(out: &mut String, n: u64)
    ensures
        final(out)@ == old(out)@ + spec_pad4(spec_uint_digits(n as nat)),
{
    proof {
        lemma_uint_digits_len(n as nat);
        reveal_strlit("000");
        reveal_strlit("00");
        reveal_strlit("0");
    }
    if n < 10 {
        out.append("000");
    } else if n < 100 {
        out.append("00");
    } else if n < 1000 {
        out.append("0");
    }
    push_uint_digits(out, n);
    proof {
        assert(out@ =~= old(out)@ + spec_pad4(spec_uint_digits(n as nat)));
    }
}

fn push_year(out: &mut String, y: i64)
    requires
        -500_000_000_000 < y < 500_000_000_000,
    ensures
        final(out)@ == old(out)@ + spec_year_text(y as int),
{
    proof {
        reveal_strlit("-");
    }
    if y < 0 {
        out.append("-");
        push_padded_uint(out, (-y) as u64);
    } else {
        push_padded_uint(out, y as u64);
    }
    proof {
        assert(out@ =~= old(out)@ + spec_year_text(y as int));
    }
}

impl CivilDateTime {
    /// Renders the calendar second as `YYYY-MM-DD HH:MM:SS`.
    pub fn format(&self) -> (r: String)
        requires
            -500_000_000_000 < self.year < 500_000_000_000,
            self.month < 100,
            self.day < 100,
            self.hour < 100,
            self.minute < 100,
            self.second < 100,
        ensures
            r@ == spec_civil_text(*self),
    {
        proof {
            reveal_strlit("-");
            reveal_strlit(" ");
            reveal_strlit(":");
        }
        let mut out = String::new();
        push_year(&mut out, self.year);
        out.append("-");
        push_two_digits(&mut out, self.month as u64);
        out.append("-");
        push_two_digits(&mut out, self.day as u64);
        out.append(" ");
        push_two_digits(&mut out, self.hour as u64);
        out.append(":");
        push_two_digits(&mut out, self.minute as u64);
        out.append(":");
        push_two_digits(&mut out, self.second as u64);
        proof {
            assert(out@ =~= spec_civil_text(*self));
        }
        out
    }
}

/// For a March-aligned year split as `400 * era + 100 * cent + 4 * quad + yr`
/// with each part in range, the day-count polynomial of `spec_epoch_day`
/// evaluates block by block, both on the shifted scale and after the shift of
/// `400 * 1_000_000_000` years is removed.
proof fn lemma_civil_reassemble(era: int, cent: int, quad: int, yr: int, smy: int, my: int)
    requires
        0 <= era,
        0 <= cent <= 3,
        0 <= quad <= 24,
        0 <= yr <= 3,
        smy == era * 400 + cent * 100 + quad * 4 + yr,
        my == smy - 400 * 1_000_000_000,
    ensures
        365 * my + my / 4 - my / 100 + my / 400 == era * 146097 + cent * 36524 + quad * 1461 + yr
            * 365 - 146097 * 1_000_000_000,
{
    let e = era - 1_000_000_000;
    assert(my == 400 * e + cent * 100 + quad * 4 + yr);
    lemma_fundamental_div_mod_converse(my, 4, 100 * e + 25 * cent + quad, yr);
    lemma_fundamental_div_mod_converse(my, 100, 4 * e + cent, 4 * quad + yr);
    lemma_fundamental_div_mod_converse(my, 400, e, 100 * cent + 4 * quad + yr);
}

/// The year that closes a four-year block is a leap year, except when it
/// closes a century that does not close the 400-year era.
proof fn lemma_leap_of_block(era: int, cent: int, quad: int, yr: int, my: int)
    requires
        0 <= era,
        0 <= cent <= 3,
        0 <= quad <= 24,
        yr == 3,
        quad == 24 ==> cent == 3,
        my == era * 400 + cent * 100 + quad * 4 + yr - 400 * 1_000_000_000,
    ensures
        spec_is_leap_year(my + 1),
{
    let e = era - 1_000_000_000;
    let y = my + 1;
    assert(y == 400 * e + cent * 100 + quad * 4 + 4);
    lemma_fundamental_div_mod_converse(y, 4, 100 * e + 25 * cent + quad + 1, 0);
    if quad < 24 {
        lemma_fundamental_div_mod_converse(y, 100, 4 * e + cent, 4 * quad + 4);
    } else {
        lemma_fundamental_div_mod_converse(y, 100, 4 * e + cent + 1, 0);
        lemma_fundamental_div_mod_converse(y, 400, e + 1, 0);
    }
}

} // verus!
