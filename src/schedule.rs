use vstd::prelude::*;

use crate::calendar::{date_of_text, CalendarDate};
use crate::error::ValuationError;

verus! {

/// Reads the date of every entry of a cashflow schedule.
///
/// An empty schedule is refused; otherwise the first text that is not a
/// `YYYY-MM-DD` date is reported by its position.
pub fn parse_schedule_dates(texts: &[&str]) -> (r: Result<Vec<CalendarDate>, ValuationError>)
    ensures
        match r {
            Ok(v) => {
                &&& texts@.len() > 0
                &&& v@.len() == texts@.len()
                &&& forall|i: int|
                    0 <= i < texts@.len() ==> date_of_text(#[trigger] texts@[i]@) == Some(v@[i])
                        && v@[i].wf()
            },
            Err(ValuationError::EmptySchedule) => texts@.len() == 0,
            Err(ValuationError::InvalidDate { index }) => {
                &&& index < texts@.len()
                &&& date_of_text(texts@[index as int]@) is None
                &&& forall|j: int| 0 <= j < index ==> date_of_text(#[trigger] texts@[j]@) is Some
            },
            Err(_) => false,
        },
{
    if texts.len() == 0 {
        return Err(ValuationError::EmptySchedule);
    }
    let mut dates: Vec<CalendarDate> = Vec::new();
    let mut i: usize = 0;
    while i < texts.len()
        invariant
            i <= texts@.len(),
            dates@.len() == i,
            forall|j: int|
                0 <= j < i ==> date_of_text(#[trigger] texts@[j]@) == Some(dates@[j])
                    && dates@[j].wf(),
        decreases texts@.len() - i,
    {
        match CalendarDate::parse(texts[i]) {
            Some(d) => dates.push(d),
            None => {
                return Err(ValuationError::InvalidDate { index: i });
            },
        }
        i = i + 1;
    }
    Ok(dates)
}

/// Signed day count of each date from the first one, which anchors the
/// schedule at day zero.
pub fn day_offsets(dates: &[CalendarDate]) -> (r: Result<Vec<i64>, ValuationError>)
    requires
        forall|i: int| 0 <= i < dates@.len() ==> (#[trigger] dates@[i]).wf(),
    ensures
        match r {
            Ok(v) => {
                &&& dates@.len() > 0
                &&& v@.len() == dates@.len()
                &&& v@[0] == 0
                &&& forall|i: int|
                    0 <= i < dates@.len() ==> v@[i] == (#[trigger] dates@[i]).ordinal()
                        - dates@[0].ordinal()
            },
            Err(e) => e == ValuationError::EmptySchedule && dates@.len() == 0,
        },
{
    if dates.len() == 0 {
        return Err(ValuationError::EmptySchedule);
    }
    let origin = dates[0];
    let mut offsets: Vec<i64> = Vec::new();
    let mut i: usize = 0;
    while i < dates.len()
        invariant
            0 < dates@.len(),
            origin == dates@[0],
            i <= dates@.len(),
            offsets@.len() == i,
            forall|k: int| 0 <= k < dates@.len() ==> (#[trigger] dates@[k]).wf(),
            forall|j: int|
                0 <= j < i ==> offsets@[j] == (#[trigger] dates@[j]).ordinal() - origin.ordinal(),
        decreases dates@.len() - i,
    {
        offsets.push(dates[i].days_since(&origin));
        i = i + 1;
    }
    Ok(offsets)
}

/// Day offsets of a schedule given as date texts: each date's signed day
/// count from the first entry's date.
pub fn schedule_day_offsets(texts: &[&str]) -> (r: Result<Vec<i64>, ValuationError>)
    ensures
        match r {
            Ok(v) => {
                &&& texts@.len() > 0
                &&& v@.len() == texts@.len()
                &&& forall|i: int|
                    0 <= i < texts@.len() ==> (#[trigger] date_of_text(texts@[i]@)) is Some
                        && v@[i] == date_of_text(texts@[i]@).unwrap().ordinal()
                        - date_of_text(texts@[0]@).unwrap().ordinal()
            },
            Err(ValuationError::EmptySchedule) => texts@.len() == 0,
            Err(ValuationError::InvalidDate { index }) => {
                &&& index < texts@.len()
                &&& date_of_text(texts@[index as int]@) is None
                &&& forall|j: int| 0 <= j < index ==> date_of_text(#[trigger] texts@[j]@) is Some
            },
            Err(_) => false,
        },
{
    let dates = parse_schedule_dates(texts)?;
    assert(forall|i: int|
        0 <= i < dates@.len() ==> (#[trigger] dates@[i]).wf() && date_of_text(texts@[i]@) == Some(
            dates@[i],
        ));
    day_offsets(dates.as_slice())
}

} // verus!
