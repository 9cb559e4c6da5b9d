//! Release dates of map packs, as the catalogue writes them.

use chrono::Datelike;
use vstd::prelude::*;

verus! {

/// What `chrono::NaiveDate::parse_from_str` makes of a text under a
/// format: the year, month and day of the date it returns, or `None`
/// where it rejects the text.
pub uninterp spec fn parsed_date(text: Seq<char>, format: Seq<char>) -> Option<(int, int, int)>;

/// `chrono::NaiveDate::parse_from_str`, then `Datelike::year`, `month`
/// and `day` on the date it returns. The outcome is a function of the
/// text and the format alone; the contract names it and claims no more.
#[verifier::external_body]
fn parse_date(text: &str, format: &str) -> (r: Option<(i32, u32, u32)>)
    ensures
        match r {
            Some((year, month, day)) => parsed_date(text@, format@) == Some(
                (year as int, month as int, day as int),
            ),
            None => parsed_date(text@, format@) is None,
        },
{
    chrono::NaiveDate::parse_from_str(text, format).ok().map(|d| (d.year(), d.month(), d.day()))
}

/// A calendar date.
#[derive(Debug, Clone, Copy, PartialEq, Eq, Structural)]
pub struct ReleaseDate {
    pub year: i32,
    pub month: u32,
    pub day: u32,
}

/// The date that a parse gave, as a `ReleaseDate`.
pub open spec fn as_release_date(parsed: Option<(int, int, int)>) -> Option<ReleaseDate> {
    match parsed {
        Some((year, month, day)) => Some(
            ReleaseDate { year: year as i32, month: month as u32, day: day as u32 },
        ),
        None => None,
    }
}

/// The date that a text of the catalogue stands for: what the first of
/// the four accepted formats that fits makes of it. The formats are, in
/// this order, day.month.year, day-month-year, month-day-year and
/// month.day.year.
pub open spec fn release_date_of(text: Seq<char>) -> Option<ReleaseDate> {
    if parsed_date(text, "%d.%m.%Y"@) is Some {
        as_release_date(parsed_date(text, "%d.%m.%Y"@))
    } else if parsed_date(text, "%d-%m-%Y"@) is Some {
        as_release_date(parsed_date(text, "%d-%m-%Y"@))
    } else if parsed_date(text, "%m-%d-%Y"@) is Some {
        as_release_date(parsed_date(text, "%m-%d-%Y"@))
    } else {
        as_release_date(parsed_date(text, "%m.%d.%Y"@))
    }
}

/// The first of the outcomes that is a date, in the order given.
pub open spec fn first_date(outcomes: Seq<Option<ReleaseDate>>) -> Option<ReleaseDate>
    decreases outcomes.len(),
{
    if outcomes.len() == 0 {
        None
    } else if outcomes[0] is Some {
        outcomes[0]
    } else {
        first_date(outcomes.drop_first())
    }
}

/// The first of the outcomes that is a date, in the order given.
pub fn pick_first_date(outcomes: &Vec<Option<ReleaseDate>>) -> (r: Option<ReleaseDate>)
    ensures
        r == first_date(outcomes@),
{
    let mut i: usize = 0;
    assert(outcomes@.skip(0) =~= outcomes@);
    while i < outcomes.len()
        invariant
            i <= outcomes.len(),
            first_date(outcomes@) == first_date(outcomes@.skip(i as int)),
        decreases outcomes.len() - i,
    {
        assert(outcomes@.skip(i as int).drop_first() =~= outcomes@.skip(i + 1));
        if outcomes[i].is_some() {
            return outcomes[i];
        }
        i += 1;
    }
    None
}

/// The date that a text of the catalogue stands for, if any of the
/// accepted formats fits it.
pub fn get_date(text: &str) -> (r: Option<ReleaseDate>)
    ensures
        r == release_date_of(text@),
{
    let mut outcomes: Vec<Option<ReleaseDate>> = Vec::new();
    outcomes.push(to_release_date(parse_date(text, "%d.%m.%Y")));
    outcomes.push(to_release_date(parse_date(text, "%d-%m-%Y")));
    outcomes.push(to_release_date(parse_date(text, "%m-%d-%Y")));
    outcomes.push(to_release_date(parse_date(text, "%m.%d.%Y")));
    let r = pick_first_date(&outcomes);
    proof {
        let s = outcomes@;
        let s1 = s.drop_first();
        let s2 = s1.drop_first();
        let s3 = s2.drop_first();
        assert(first_date(s3.drop_first()) is None);
        assert(first_date(s3) == if s[3] is Some {
            s[3]
        } else {
            None
        });
        assert(first_date(s2) == if s[2] is Some {
            s[2]
        } else {
            first_date(s3)
        });
        assert(first_date(s1) == if s[1] is Some {
            s[1]
        } else {
            first_date(s2)
        });
    }
    r
}

/// The year, month and day of a parse as a `ReleaseDate`.
fn to_release_date(parsed: Option<(i32, u32, u32)>) -> (r: Option<ReleaseDate>)
    ensures
        r == match parsed {
            Some((year, month, day)) => Some(ReleaseDate { year, month, day }),
            None => None,
        },
{
    match parsed {
        Some((year, month, day)) => Some(ReleaseDate { year, month, day }),
        None => None,
    }
}

/// Whether the date `a` lies before the date `b`: by year, then by
/// month, then by day.
pub open spec fn is_before(a: ReleaseDate, b: ReleaseDate) -> bool {
    a.year < b.year || (a.year == b.year && (a.month < b.month || (a.month == b.month && a.day
        < b.day)))
}

/// Whether the date `a` lies before the date `b`.
pub fn earlier(a: &ReleaseDate, b: &ReleaseDate) -> (r: bool)
    ensures
        r == is_before(*a, *b),
{
    a.year < b.year || (a.year == b.year && (a.month < b.month || (a.month == b.month && a.day
        < b.day)))
}

/// Dates are in a strict total order: no date lies before itself, of
/// two different dates exactly one lies before the other, and what lies
/// before an earlier date lies before the later one.
pub proof fn law_dates_ordered(a: ReleaseDate, b: ReleaseDate, c: ReleaseDate)
    ensures
        !is_before(a, a),
        a != b ==> (is_before(a, b) != is_before(b, a)),
        is_before(a, b) && is_before(b, c) ==> is_before(a, c),
{
}

} // verus!
