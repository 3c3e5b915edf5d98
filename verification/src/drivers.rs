//! Which drivers are free on a day.

use vstd::prelude::*;
use crate::error::{Error, Invalid};
use crate::text::{lowercase, opt_text, str_eq, texts_of, to_lowercase};

verus! {

/// The day of the week of a date written as year, month and day
/// (`2025-12-30`), in the three letters that the `chrono` crate writes for it
/// (`Tue`); `None` where the text is no such date.
pub uninterp spec fn weekday_text(date: Seq<char>) -> Option<Seq<char>>;

/// The days of a weekly schedule and what it says of each, where the
/// schedule is a JSON object of days and booleans, as `serde_json::from_str`
/// reads it into a map ordered by its keys; `None` where the text is no such
/// object.
pub uninterp spec fn json_flags(schedule: Seq<char>) -> Option<Seq<(Seq<char>, bool)>>;

/// Calls `chrono::NaiveDate::parse_from_str` with the format `%Y-%m-%d`, and
/// writes the weekday of the date with `to_string`. Trusted: what comes back
/// depends on the text alone, and an error of the crate is given as `None`.
#[verifier::external_body]
pub(crate) fn weekday_of(date: &str) -> (day: Option<String>)
    ensures
        opt_text(day) == weekday_text(date@),
{
    chrono::NaiveDate::parse_from_str(date, "%Y-%m-%d").ok().map(
        |day| chrono::Datelike::weekday(&day).to_string(),
    )
}

/// Calls `serde_json::from_str` for a `BTreeMap` from texts to booleans, and
/// hands out its entries. Trusted: what comes back depends on the text alone,
/// and an error of the crate is given as `None`. The map is an ordered one,
/// so that the order of the entries depends on the text alone as well.
#[verifier::external_body]
pub(crate) fn parse_flags(schedule: &str) -> (flags: Option<Vec<(String, bool)>>)
    ensures
        match flags {
            Some(list) => json_flags(schedule@) == Some(flag_views(list@)),
            None => json_flags(schedule@) is None,
        },
{
    serde_json::from_str::<std::collections::BTreeMap<String, bool>>(schedule).ok().map(
        |days| days.into_iter().collect(),
    )
}

/// What the entries say, one by one.
pub open spec fn flag_views(flags: Seq<(String, bool)>) -> Seq<(Seq<char>, bool)> {
    Seq::new(flags.len(), |i: int| (flags[i].0@, flags[i].1))
}

/// A driver and the days of the week on which they drive.
#[derive(Clone, Debug, PartialEq, Eq)]
pub struct DriverAvailabilityRow {
    pub name: String,
    /// The days as a JSON object, such as `{"mon": true, "tue": false}`.
    pub availability_schedule: Option<String>,
}

/// The name of the day under which schedules list a date.
pub open spec fn day_name(date: Seq<char>) -> Option<Seq<char>> {
    match weekday_text(date) {
        Some(day) => Some(lowercase(day)),
        None => None,
    }
}

/// What the days of a schedule say of a day: the boolean of the first entry
/// for the day, or `None` where there is no entry for it.
pub open spec fn entry_for(flags: Seq<(Seq<char>, bool)>, day: Seq<char>) -> Option<bool>
    decreases flags.len(),
{
    if flags.len() == 0 {
        None
    } else if flags.first().0 == day {
        Some(flags.first().1)
    } else {
        entry_for(flags.drop_first(), day)
    }
}

/// Whether a driver is free on a day: their schedule says so, or they have no
/// schedule that can be read. A day that the schedule leaves out is not free.
pub open spec fn is_free(schedule: Option<Seq<char>>, day: Seq<char>) -> bool {
    match schedule {
        None => true,
        Some(text) => match json_flags(text) {
            None => true,
            Some(flags) => entry_for(flags, day) == Some(true),
        },
    }
}

/// The names of the drivers who are free on a day, in the order of the rows.
pub open spec fn free_drivers(rows: Seq<DriverAvailabilityRow>, day: Seq<char>) -> Seq<Seq<char>>
    decreases rows.len(),
{
    if rows.len() == 0 {
        Seq::empty()
    } else if is_free(opt_text(rows.last().availability_schedule), day) {
        free_drivers(rows.drop_last(), day).push(rows.last().name@)
    } else {
        free_drivers(rows.drop_last(), day)
    }
}

/// The name of the day under which schedules list a date (see `day_name`).
pub fn day_of(date: &str) -> (day: Option<String>)
    ensures
        opt_text(day) == day_name(date@),
{
    match weekday_of(date) {
        Some(day) => Some(to_lowercase(day.as_str())),
        None => None,
    }
}

/// What the days of a schedule say of a day (see `entry_for`).
pub fn find_entry(flags: &Vec<(String, bool)>, day: &str) -> (entry: Option<bool>)
    ensures
        entry == entry_for(flag_views(flags@), day@),
{
    let ghost all = flag_views(flags@);
    let mut i: usize = 0;
    assert(all.skip(0) =~= all);
    while i < flags.len()
        invariant
            i <= flags.len(),
            all == flag_views(flags@),
            entry_for(all, day@) == entry_for(all.skip(i as int), day@),
        decreases flags.len() - i,
    {
        assert(all.skip(i as int).first() == all[i as int]);
        assert(all.skip(i as int).drop_first() =~= all.skip(i + 1));
        if str_eq(flags[i].0.as_str(), day) {
            return Some(flags[i].1);
        }
        i += 1;
    }
    assert(all.skip(i as int).len() == 0);
    None
}

/// Whether a driver is free on a day (see `is_free`).
pub fn is_driver_free(schedule: &Option<String>, day: &str) -> (free: bool)
    ensures
        free == is_free(opt_text(*schedule), day@),
{
    match schedule {
        None => true,
        Some(text) => match parse_flags(text.as_str()) {
            None => true,
            Some(flags) => match find_entry(&flags, day) {
                Some(flag) => flag,
                None => false,
            },
        },
    }
}

/// The names of the drivers who are free on a day that is given by name.
pub fn drivers_free_on(rows: &Vec<DriverAvailabilityRow>, day: &str) -> (names: Vec<String>)
    ensures
        texts_of(names@) == free_drivers(rows@, day@),
{
    let mut names: Vec<String> = Vec::new();
    let mut i: usize = 0;
    assert(rows@.take(0) =~= Seq::<DriverAvailabilityRow>::empty());
    assert(texts_of(names@) =~= Seq::<Seq<char>>::empty());
    while i < rows.len()
        invariant
            i <= rows.len(),
            texts_of(names@) == free_drivers(rows@.take(i as int), day@),
        decreases rows.len() - i,
    {
        let ghost before = texts_of(names@);
        assert(rows@.take(i + 1).drop_last() =~= rows@.take(i as int));
        assert(rows@.take(i + 1).last() == rows@[i as int]);
        if is_driver_free(&rows[i].availability_schedule, day) {
            names.push(rows[i].name.clone());
            assert(texts_of(names@) =~= before.push(rows@[i as int].name@));
        }
        i += 1;
    }
    assert(rows@.take(i as int) =~= rows@);
    names
}

/// The names of the drivers who are free on a date, in the order of the rows.
/// It fails where the date is not written as year, month and day.
pub fn get_available_drivers(rows: &Vec<DriverAvailabilityRow>, date: &str) -> (outcome: Result<
    Vec<String>,
    Error,
>)
    ensures
        match day_name(date@) {
            None => outcome == Err::<Vec<String>, Error>(Error::Validation(Invalid::DateFormat)),
            Some(day) => outcome matches Ok(names) && texts_of(names@) == free_drivers(rows@, day),
        },
{
    match day_of(date) {
        None => Err(Error::Validation(Invalid::DateFormat)),
        Some(day) => Ok(drivers_free_on(rows, day.as_str())),
    }
}

} // verus!
