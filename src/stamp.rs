use vstd::prelude::*;

verus! {

/// A local wall-clock time to the second, with the local offset from UTC.
#[derive(Clone, Copy, Debug, PartialEq, Eq, Structural)]
pub struct Stamp {
    pub year: i32,
    pub month: u32,
    pub day: u32,
    pub hour: u32,
    pub minute: u32,
    pub second: u32,
    /// Local time minus UTC, in seconds.
    pub offset_secs: i32,
}

pub open spec fn is_leap_year(y: int) -> bool {
    y % 4 == 0 && (y % 100 != 0 || y % 400 == 0)
}

pub open spec fn days_in_month(y: int, m: int) -> int {
    if m == 2 {
        if is_leap_year(y) { 29 } else { 28 }
    } else if m == 4 || m == 6 || m == 9 || m == 11 {
        30
    } else {
        31
    }
}

impl Stamp {
    /// A real calendar date and time of day in the years 0 through 9999, with
    /// an offset of less than a day.
    pub open spec fn valid(&self) -> bool {
        &&& 0 <= self.year <= 9999
        &&& 1 <= self.month <= 12
        &&& 1 <= self.day <= days_in_month(self.year as int, self.month as int)
        &&& self.hour < 24
        &&& self.minute < 60
        &&& self.second < 60
        &&& -86400 < self.offset_secs < 86400
    }

    /// Whether the stamp is valid.
    pub fn is_valid(&self) -> (r: bool)
        ensures
            r == self.valid(),
    {
        if self.year < 0 || self.year > 9999 || self.month < 1 || self.month > 12 {
            return false;
        }
        let y = self.year;
        let leap = y % 4 == 0 && (y % 100 != 0 || y % 400 == 0);
        let days: u32 = if self.month == 2 {
            if leap { 29 } else { 28 }
        } else if self.month == 4 || self.month == 6 || self.month == 9 || self.month == 11 {
            30
        } else {
            31
        };
        1 <= self.day && self.day <= days && self.hour < 24 && self.minute < 60
            && self.second < 60 && -86400 < self.offset_secs && self.offset_secs < 86400
    }
}

pub open spec fn digit(d: int) -> char {
    seq!['0', '1', '2', '3', '4', '5', '6', '7', '8', '9'][d]
}

/// `n` in two decimal digits, for `0 <= n < 100`.
pub open spec fn two_digits(n: int) -> Seq<char> {
    seq![digit(n / 10), digit(n % 10)]
}

/// The year, the time of day and the offset as an RFC 2822 date ends with
/// them: `2003 10:52:37 +0200`, split before the space that precedes the
/// offset.
pub open spec fn year_and_time(t: Stamp) -> Seq<char> {
    two_digits(t.year as int / 100) + two_digits(t.year as int % 100) + seq![' '] + two_digits(t.hour as int)
        + seq![':'] + two_digits(t.minute as int) + seq![':'] + two_digits(t.second as int)
}

/// A space, then the offset as sign, hours and minutes, rounded to the
/// nearest minute: ` +0200`.
pub open spec fn offset_text(off: int) -> Seq<char> {
    let sign = if off < 0 { '-' } else { '+' };
    let minutes = (if off < 0 { -off } else { off } + 30) / 60;
    seq![' ', sign] + two_digits(minutes / 60) + two_digits(minutes % 60)
}

/// The RFC 2822 text of a time, as chrono writes it.
pub uninterp spec fn rfc2822_of(t: Stamp) -> Seq<char>;

/// Relies on chrono's `DateTime::to_rfc2822`, whose writer ends the text with
/// the four-digit year, a space, `HH:MM:SS`, a space, and the offset as a sign
/// and four digits (`write_rfc2822` and `OffsetFormat::format` in chrono's
/// format/formatting.rs). The stamp is built with `FixedOffset::east_opt`,
/// `NaiveDate::from_ymd_opt`, `and_hms_opt` and `and_local_timezone`, which
/// accept every valid stamp; `to_rfc2822` panics only outside the years 0
/// through 9999.
#[verifier::external_body]
fn rfc2822(t: &Stamp) -> (r: String)
    requires
        t.valid(),
    ensures
        r@ == rfc2822_of(*t),
        r@.len() >= 19,
        r@.subrange(r@.len() - 19, r@.len() - 6) == year_and_time(*t),
        r@.subrange(r@.len() - 6, r@.len() as int) == offset_text(t.offset_secs as int),
{
    let off = chrono::FixedOffset::east_opt(t.offset_secs).unwrap();
    let date = chrono::NaiveDate::from_ymd_opt(t.year, t.month, t.day).unwrap();
    let local = date.and_hms_opt(t.hour, t.minute, t.second).unwrap();
    local.and_local_timezone(off).unwrap().to_rfc2822()
}

/// The timestamp line made from an RFC 2822 text: a newline and two spaces,
/// then the text with its last six characters cut off.
pub open spec fn stamp_text(rfc: Seq<char>) -> Seq<char> {
    let full = seq!['\n', ' ', ' '] + rfc;
    full.subrange(0, full.len() - 6)
}

/// Forms the timestamp line from the RFC 2822 text `rfc`. The six characters
/// cut off are, for chrono's text, the space and the offset from UTC.
pub fn stamp_line(rfc: &str) -> (r: String)
    requires
        rfc@.len() >= 3,
    ensures
        r@ == stamp_text(rfc@),
{
    let n = rfc.unicode_len();
    let prefix = "\n  ";
    proof {
        reveal_strlit("\n  ");
        assert(prefix@ =~= seq!['\n', ' ', ' ']);
    }
    let ghost full = seq!['\n', ' ', ' '] + rfc@;
    if n < 6 {
        let out = String::from_str(prefix.substring_char(0, n - 3));
        assert(out@ =~= stamp_text(rfc@));
        return out;
    }
    let mut out = String::from_str(prefix);
    let kept = rfc.substring_char(0, n - 6);
    out.append(kept);
    proof {
        assert forall|i: int| 0 <= i < full.len() - 6 implies #[trigger] out@[i] == full[i] by {
            if i >= 3 {
                assert(out@[i] == kept@[i - 3]);
            }
        }
        assert(out@ =~= stamp_text(rfc@));
    }
    out
}

/// The timestamp line for the time `t`: the RFC 2822 text of `t` behind a
/// newline and two spaces, without the offset from UTC. It ends with the
/// four-digit year and the time of day.
pub fn timestamp_line(t: &Stamp) -> (r: String)
    requires
        t.valid(),
    ensures
        r@ == stamp_text(rfc2822_of(*t)),
        r@.len() >= 16,
        r@.subrange(0, 3) == seq!['\n', ' ', ' '],
        r@.subrange(r@.len() - 13, r@.len() as int) == year_and_time(*t),
{
    let rfc = rfc2822(t);
    let r = stamp_line(rfc.as_str());
    proof {
        let full = seq!['\n', ' ', ' '] + rfc@;
        let n = rfc@.len();
        assert(r@ =~= full.subrange(0, n - 3));
        assert(r@.subrange(r@.len() - 13, r@.len() as int) =~= rfc@.subrange(n - 19, n - 6));
        assert(r@.subrange(0, 3) =~= seq!['\n', ' ', ' ']);
    }
    r
}

} // verus!
