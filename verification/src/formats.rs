//! The format matcher: a fixed ordered list of date format patterns, tried
//! in order against a candidate string; the first successful parse wins.

use vstd::prelude::*;
use crate::dates::Date;
use crate::dates::valid_date;
use crate::errors::ExtractError;

verus! {

/// What parsing a candidate against one format pattern yields: a function of
/// the candidate and the pattern alone.
pub uninterp spec fn chrono_parse(s: Seq<char>, fmt: Seq<char>) -> Option<Date>;

/// Relies on chrono's `NaiveDate::parse_from_str`: the outcome is a function
/// of the input string and the format string alone, and a parsed `NaiveDate`
/// is a valid calendar date, with `Datelike::month` in 1..=12 and
/// `Datelike::day` in 1..=31 as their documentation states.
#[verifier::external_body]
fn parse_with_format(input: &str, fmt: &str) -> (r: Option<Date>)
    ensures
        r == chrono_parse(input@, fmt@),
        r matches Some(d) ==> valid_date(d),
{
    match chrono::NaiveDate::parse_from_str(input, fmt) {
        Ok(d) => Some(
            Date {
                year: chrono::Datelike::year(&d),
                month: chrono::Datelike::month(&d),
                day: chrono::Datelike::day(&d),
            },
        ),
        Err(_) => None,
    }
}

/// The fixed ordered list of recognized format patterns. Order is
/// significant: the first structural match wins, and the month-first path
/// layout stands before the day-first one.
pub open spec fn format_list() -> Seq<Seq<char>> {
    seq![
        "%A, %B %e, %Y"@,
        "%Y-%m-%dT%H:%M:%S%:z"@,
        "/%Y/%m/%d/"@,
        "/%Y/%d/%m/"@,
        "%Y-%m-%d"@,
        "%B %e, %Y"@,
        "%Y-%m-%d %H:%M:%S"@,
        "%Y-%m-%dT%H:%M:%SZ"@,
        "%B %k, %Y, %H:%M %p"@,
        "%Y-%m-%d %H:%M:%S.000000"@,
    ]
}

fn formats() -> (r: Vec<&'static str>)
    ensures
        r@.len() == format_list().len(),
        forall|i: int| 0 <= i < r@.len() ==> r@[i]@ == format_list()[i],
{
    let mut v: Vec<&'static str> = Vec::new();
    v.push("%A, %B %e, %Y");
    v.push("%Y-%m-%dT%H:%M:%S%:z");
    v.push("/%Y/%m/%d/");
    v.push("/%Y/%d/%m/");
    v.push("%Y-%m-%d");
    v.push("%B %e, %Y");
    v.push("%Y-%m-%d %H:%M:%S");
    v.push("%Y-%m-%dT%H:%M:%SZ");
    v.push("%B %k, %Y, %H:%M %p");
    v.push("%Y-%m-%d %H:%M:%S.000000");
    v
}

/// The first format in `fmts` that parses `s`, if any.
pub open spec fn first_parse(s: Seq<char>, fmts: Seq<Seq<char>>) -> Option<Date>
    decreases fmts.len(),
{
    if fmts.len() == 0 {
        None
    } else if chrono_parse(s, fmts[0]) is Some {
        chrono_parse(s, fmts[0])
    } else {
        first_parse(s, fmts.drop_first())
    }
}

/// What `parse_date` returns on a candidate string.
pub open spec fn parse_date_spec(s: Seq<char>) -> Result<Date, ExtractError> {
    match first_parse(s, format_list()) {
        Some(d) => Ok(d),
        None => Err(ExtractError::ParseFailure),
    }
}

proof fn lemma_first_parse_at(s: Seq<char>, fmts: Seq<Seq<char>>, i: int)
    requires
        0 <= i <= fmts.len(),
        forall|j: int| 0 <= j < i ==> chrono_parse(s, fmts[j]) is None,
        i == fmts.len() || chrono_parse(s, fmts[i]) is Some,
    ensures
        first_parse(s, fmts) == (if i == fmts.len() {
            None::<Date>
        } else {
            chrono_parse(s, fmts[i])
        }),
    decreases i,
{
    if i == 0 {
    } else {
        lemma_first_parse_at(s, fmts.drop_first(), i - 1);
    }
}

/// Tries the fixed ordered list of date formats against the candidate and
/// returns the first successful parse; when no format matches, the candidate
/// is rejected with `ParseFailure`.
pub fn parse_date(input: &str) -> (r: Result<Date, ExtractError>)
    ensures
        r == parse_date_spec(input@),
        r matches Ok(d) ==> valid_date(d),
{
    let fmts = formats();
    let n = fmts.len();
    let mut i: usize = 0;
    while i < n
        invariant
            n == fmts@.len(),
            n == format_list().len(),
            forall|k: int| 0 <= k < n ==> fmts@[k]@ == format_list()[k],
            0 <= i <= n,
            forall|j: int| 0 <= j < i ==> chrono_parse(input@, format_list()[j]) is None,
        decreases n - i,
    {
        match parse_with_format(input, fmts[i]) {
            Some(d) => {
                proof {
                    lemma_first_parse_at(input@, format_list(), i as int);
                }
                return Ok(d);
            },
            None => {},
        }
        i += 1;
    }
    proof {
        lemma_first_parse_at(input@, format_list(), n as int);
    }
    Err(ExtractError::ParseFailure)
}

} // verus!
