//! Readable forecast dates ("Tue Nov 25").
use crate::text::{chars_of, string_from_chars};
use vstd::prelude::*;

verus! {

/// Day of the week.
#[derive(Debug, Clone, Copy, PartialEq, Eq, Structural)]
pub enum Weekday {
    Mon,
    Tue,
    Wed,
    Thu,
    Fri,
    Sat,
    Sun,
}

/// Position of a weekday counting from Monday = 0.
pub open spec fn weekday_index(w: Weekday) -> nat {
    match w {
        Weekday::Mon => 0,
        Weekday::Tue => 1,
        Weekday::Wed => 2,
        Weekday::Thu => 3,
        Weekday::Fri => 4,
        Weekday::Sat => 5,
        Weekday::Sun => 6,
    }
}

/// Position of a weekday counting from Monday = 0.
fn weekday_index_exec(w: Weekday) -> (r: usize)
    ensures
        r == weekday_index(w),
{
    match w {
        Weekday::Mon => 0,
        Weekday::Tue => 1,
        Weekday::Wed => 2,
        Weekday::Thu => 3,
        Weekday::Fri => 4,
        Weekday::Sat => 5,
        Weekday::Sun => 6,
    }
}

/// The calendar parts of an ISO date.
#[derive(Debug, Clone, Copy, PartialEq, Eq, Structural)]
pub struct IsoDate {
    pub weekday: Weekday,
    /// Month number, 1-12.
    pub month: u32,
    /// Day of month, 1-31.
    pub day: u32,
}

/// The parts `weathervane::ParsedDate::from_iso` reads from a `%Y-%m-%d`
/// date string, or `None` when the string is not such a date.
pub uninterp spec fn iso_date_of(s: Seq<char>) -> Option<IsoDate>;

/// `weathervane::ParsedDate::from_iso`: parses a `%Y-%m-%d` date with chrono.
/// Its month is 1-12 and its day 1-31 (chrono's `month()` and `day()`).
#[verifier::external_body]
fn parse_iso_date(date_str: &str) -> (r: Option<IsoDate>)
    ensures
        r == iso_date_of(date_str@),
        r matches Some(d) ==> 1 <= d.month <= 12 && 1 <= d.day <= 31,
{
    let p = weathervane::ParsedDate::from_iso(date_str)?;
    let weekday = match p.weekday {
        chrono::Weekday::Mon => Weekday::Mon,
        chrono::Weekday::Tue => Weekday::Tue,
        chrono::Weekday::Wed => Weekday::Wed,
        chrono::Weekday::Thu => Weekday::Thu,
        chrono::Weekday::Fri => Weekday::Fri,
        chrono::Weekday::Sat => Weekday::Sat,
        chrono::Weekday::Sun => Weekday::Sun,
    };
    Some(IsoDate { weekday, month: p.month, day: p.day })
}

/// Localized day and month names: `weekdays` from Monday to Sunday,
/// `months` from January to December.
pub struct DateNames {
    pub weekdays: Vec<String>,
    pub months: Vec<String>,
}

/// The names tables have one entry per weekday and per month.
pub open spec fn date_names_complete(names: &DateNames) -> bool {
    names.weekdays@.len() == 7 && names.months@.len() == 12
}

/// A day of month rendered with two digits (`{:02}`).
pub open spec fn two_digits(day: nat) -> Seq<char> {
    seq![(('0' as u32) + day / 10) as char, (('0' as u32) + day % 10) as char]
}

/// "{weekday} {month} {dd}" for the parts of a date.
pub open spec fn date_text(d: IsoDate, names: &DateNames) -> Seq<char> {
    names.weekdays@[weekday_index(d.weekday) as int]@ + seq![' '] + names.months@[d.month - 1]@
        + seq![' '] + two_digits(d.day as nat)
}

/// "{weekday} {month} {dd}" for a date that parses, the input itself
/// otherwise.
pub open spec fn formatted_date(s: Seq<char>, names: &DateNames) -> Seq<char> {
    match iso_date_of(s) {
        Some(d) => date_text(d, names),
        None => s,
    }
}

/// Renders the parts of a date as "{weekday} {month} {dd}" with the given
/// day and month names.
pub fn format_iso_date(d: IsoDate, names: &DateNames) -> (r: String)
    requires
        date_names_complete(names),
        1 <= d.month <= 12,
        d.day <= 99,
    ensures
        r@ == date_text(d, names),
{
    let wd = weekday_index_exec(d.weekday);
    let mut out = chars_of(names.weekdays[wd].as_str());
    out.push(' ');
    let month_chars = chars_of(names.months[(d.month - 1) as usize].as_str());
    let mut i: usize = 0;
    let ghost base = out@;
    while i < month_chars.len()
        invariant
            i <= month_chars@.len(),
            out@ == base + month_chars@.take(i as int),
        decreases month_chars@.len() - i,
    {
        assert(month_chars@.take(i + 1) =~= month_chars@.take(i as int).push(month_chars@[i as int]));
        out.push(month_chars[i]);
        i = i + 1;
    }
    assert(month_chars@.take(i as int) =~= month_chars@);
    out.push(' ');
    let tens = ((('0' as u32) + d.day / 10) as u8) as char;
    let ones = ((('0' as u32) + d.day % 10) as u8) as char;
    out.push(tens);
    out.push(ones);
    assert(out@ =~= date_text(d, names));
    string_from_chars(&out)
}

/// Formats an ISO date to a readable string (e.g. "Tue Nov 25") with the
/// given day and month names; a string that is not an ISO date is returned
/// as it is.
pub fn format_date(date_str: &str, names: &DateNames) -> (r: String)
    requires
        date_names_complete(names),
    ensures
        r@ == formatted_date(date_str@, names),
{
    match parse_iso_date(date_str) {
        Some(parsed) => format_iso_date(parsed, names),
        None => {
            let cs = chars_of(date_str);
            string_from_chars(&cs)
        },
    }
}

/// The day after `w`.
pub open spec fn next_day(w: Weekday) -> Weekday {
    match w {
        Weekday::Mon => Weekday::Tue,
        Weekday::Tue => Weekday::Wed,
        Weekday::Wed => Weekday::Thu,
        Weekday::Thu => Weekday::Fri,
        Weekday::Fri => Weekday::Sat,
        Weekday::Sat => Weekday::Sun,
        Weekday::Sun => Weekday::Mon,
    }
}

/// Weekdays are numbered in week order from Monday: Monday is 0, each next
/// day is one more, and Sunday (6) wraps back to Monday. So the name taken
/// from the Monday-to-Sunday table is always the date's own weekday.
pub proof fn weekdays_number_from_monday(w: Weekday)
    ensures
        weekday_index(Weekday::Mon) == 0,
        weekday_index(w) < 7,
        w != Weekday::Sun ==> weekday_index(next_day(w)) == weekday_index(w) + 1,
        w == Weekday::Sun <==> weekday_index(w) == 6,
{
}

/// A rendered date starts with the name of its weekday from the table, then
/// a space, the month's name from the January-to-December table, a space and
/// the two-digit day.
pub proof fn date_text_reads_weekday_month_day(d: IsoDate, names: &DateNames)
    requires
        date_names_complete(names),
        1 <= d.month <= 12,
        d.day <= 99,
    ensures
        ({
            let w = names.weekdays@[weekday_index(d.weekday) as int]@;
            let m = names.months@[d.month - 1]@;
            let t = date_text(d, names);
            let a = w.len() as int;
            let b = m.len() as int;
            &&& t.len() == a + b + 4
            &&& t.take(a) == w
            &&& t[a] == ' '
            &&& t.subrange(a + 1, a + 1 + b) == m
            &&& t[a + 1 + b] == ' '
            &&& t[a + b + 2] == ('0' as u32 + d.day / 10) as char
            &&& t[a + b + 3] == ('0' as u32 + d.day % 10) as char
        }),
{
    let w = names.weekdays@[weekday_index(d.weekday) as int]@;
    let m = names.months@[d.month - 1]@;
    let t = date_text(d, names);
    let a = w.len() as int;
    let b = m.len() as int;
    assert(t.take(a) =~= w);
    assert(t.subrange(a + 1, a + 1 + b) =~= m);
}

} // verus!
