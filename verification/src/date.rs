//! Calendar dates, the keys of the snapshot cache, and their texts.
use crate::text::text_view;
use vstd::prelude::*;
use vstd::string::StringExecFns;

verus! {

/// A calendar date without time of day or time zone, held as the number of
/// the day in the proleptic Gregorian calendar: day 1 is 1 January of year 1.
///
/// Two dates are the same date exactly when their day numbers are equal.
#[derive(Debug, Clone, Copy, PartialEq, Eq, Hash, Structural)]
pub struct Date {
    pub days: i32,
}

impl Date {
    /// The date with the day number `days`.
    pub fn from_days(days: i32) -> (date: Date)
        ensures
            date.days == days,
    {
        Date { days }
    }

    /// The day after, or `None` where the day number has no successor.
    pub fn next_day(&self) -> (next: Option<Date>)
        ensures
            self.days < i32::MAX ==> next == Some(Date { days: (self.days + 1) as i32 }),
            self.days == i32::MAX ==> next is None,
    {
        match self.days.checked_add(1) {
            Some(days) => Some(Date { days }),
            None => None,
        }
    }

    /// The day before, or `None` where the day number has no predecessor.
    pub fn previous_day(&self) -> (previous: Option<Date>)
        ensures
            self.days > i32::MIN ==> previous == Some(Date { days: (self.days - 1) as i32 }),
            self.days == i32::MIN ==> previous is None,
    {
        match self.days.checked_sub(1) {
            Some(days) => Some(Date { days }),
            None => None,
        }
    }
}

/// The days of the week.
#[derive(Debug, Clone, Copy, PartialEq, Eq, Structural)]
pub enum Weekday {
    Mon,
    Tue,
    Wed,
    Thu,
    Fri,
    Sat,
    Sun,
}

/// The day of the week of a day number: day 1 is a Monday, and the days of
/// the week follow each other without a gap.
pub open spec fn weekday_of(days: int) -> Weekday {
    let since_monday = (days - 1) % 7;
    if since_monday == 0 {
        Weekday::Mon
    } else if since_monday == 1 {
        Weekday::Tue
    } else if since_monday == 2 {
        Weekday::Wed
    } else if since_monday == 3 {
        Weekday::Thu
    } else if since_monday == 4 {
        Weekday::Fri
    } else if since_monday == 5 {
        Weekday::Sat
    } else {
        Weekday::Sun
    }
}

/// The short name of a day of the week.
pub open spec fn weekday_name(day: Weekday) -> Seq<char> {
    match day {
        Weekday::Mon => "Mon"@,
        Weekday::Tue => "Tue"@,
        Weekday::Wed => "Wed"@,
        Weekday::Thu => "Thu"@,
        Weekday::Fri => "Fri"@,
        Weekday::Sat => "Sat"@,
        Weekday::Sun => "Sun"@,
    }
}

/// The date of a day number written as year, month and day with dashes
/// between them, or `None` for a day number outside the calendar's range.
pub uninterp spec fn iso_date_text(days: int) -> Option<Seq<char>>;

/// Writes the date of a day number as year, month and day.
///
/// Trusted: calls chrono's `NaiveDate::from_num_days_from_ce_opt`, which
/// gives the date of a day number or `None` outside its range, and the
/// date's `to_string`, which writes it in the form `%Y-%m-%d`. The text is
/// fixed by the day number alone; the contract gives it a name.
#[verifier::external_body]
fn date_text(days: i32) -> (text: Option<String>)
    ensures
        text_view(text) == iso_date_text(days as int),
{
    match chrono::NaiveDate::from_num_days_from_ce_opt(days) {
        Some(date) => Some(date.to_string()),
        None => None,
    }
}

/// The title of a page: the day of the week, a dash and the date, with
/// `Today` before them and brackets round them where the date is today.
pub open spec fn title_text(weekday: Seq<char>, date: Seq<char>, is_today: bool) -> Seq<char> {
    if is_today {
        "Today ("@ + weekday + " - "@ + date + ")"@
    } else {
        weekday + " - "@ + date
    }
}

/// The title of the page of `date` when the day is `today`, where the
/// calendar has the date.
pub open spec fn title_of(date: Date, today: Date) -> Option<Seq<char>> {
    match iso_date_text(date.days as int) {
        Some(text) => Some(
            title_text(weekday_name(weekday_of(date.days as int)), text, date == today),
        ),
        None => None,
    }
}

/// The short name of a day of the week.
pub fn weekday_label(day: Weekday) -> (name: &'static str)
    ensures
        name@ == weekday_name(day),
{
    match day {
        Weekday::Mon => "Mon",
        Weekday::Tue => "Tue",
        Weekday::Wed => "Wed",
        Weekday::Thu => "Thu",
        Weekday::Fri => "Fri",
        Weekday::Sat => "Sat",
        Weekday::Sun => "Sun",
    }
}

/// Writes the title of a page from the name of the day of the week and the
/// text of the date.
pub fn write_title(weekday: &str, date: &str, is_today: bool) -> (title: String)
    ensures
        title@ == title_text(weekday@, date@, is_today),
{
    if is_today {
        let mut title = String::from_str("Today (");
        title.append(weekday);
        title.append(" - ");
        title.append(date);
        title.append(")");
        title
    } else {
        let mut title = String::from_str(weekday);
        title.append(" - ");
        title.append(date);
        title
    }
}

impl Date {
    /// The day of the week.
    pub fn weekday(&self) -> (day: Weekday)
        ensures
            day == weekday_of(self.days as int),
    {
        // 2147483653 is a multiple of 7 and lifts every day number above zero.
        let lifted: i64 = self.days as i64 - 1 + 2147483653;
        let since_monday: i64 = lifted % 7;
        assert(since_monday == (self.days - 1) % 7) by {
            assert(2147483653int == 7 * 306783379);
            vstd::arithmetic::div_mod::lemma_mod_multiples_vanish(
                306783379,
                self.days as int - 1,
                7,
            );
        }
        if since_monday == 0 {
            Weekday::Mon
        } else if since_monday == 1 {
            Weekday::Tue
        } else if since_monday == 2 {
            Weekday::Wed
        } else if since_monday == 3 {
            Weekday::Thu
        } else if since_monday == 4 {
            Weekday::Fri
        } else if since_monday == 5 {
            Weekday::Sat
        } else {
            Weekday::Sun
        }
    }

    /// The date written as year, month and day, where the calendar has it.
    pub fn iso_text(&self) -> (text: Option<String>)
        ensures
            text_view(text) == iso_date_text(self.days as int),
    {
        date_text(self.days)
    }

    /// The title of the page of this date when the day is `today`, where the
    /// calendar has the date.
    pub fn render_title(&self, today: Date) -> (title: Option<String>)
        ensures
            text_view(title) == title_of(*self, today),
    {
        match date_text(self.days) {
            Some(text) => Some(
                write_title(weekday_label(self.weekday()), text.as_str(), self.days == today.days),
            ),
            None => None,
        }
    }
}

} // verus!
