use chrono::{Datelike, NaiveDate};
use gegen::date::{weekday_label, write_title, Date, Weekday};
use gegen::fetch::matches_url_for;

#[test]
fn neighbouring_days() {
    let day = Date::from_days(739_368);
    assert_eq!(day.days, 739_368);
    assert_eq!(day.next_day(), Some(Date::from_days(739_369)));
    assert_eq!(day.previous_day(), Some(Date::from_days(739_367)));
    assert_eq!(Date::from_days(0).previous_day(), Some(Date::from_days(-1)));
}

#[test]
fn the_ends_of_the_range_have_no_neighbour() {
    assert_eq!(Date::from_days(i32::MAX).next_day(), None);
    assert_eq!(Date::from_days(i32::MIN).previous_day(), None);
    assert_eq!(Date::from_days(i32::MAX).previous_day(), Some(Date::from_days(i32::MAX - 1)));
    assert_eq!(Date::from_days(i32::MIN).next_day(), Some(Date::from_days(i32::MIN + 1)));
}

#[test]
fn dates_are_equal_by_their_day() {
    assert_eq!(Date::from_days(4), Date { days: 4 });
    assert_ne!(Date::from_days(4), Date::from_days(5));
}

#[test]
fn day_one_is_a_monday() {
    assert_eq!(Date::from_days(1).weekday(), Weekday::Mon);
    assert_eq!(Date::from_days(2).weekday(), Weekday::Tue);
    assert_eq!(Date::from_days(7).weekday(), Weekday::Sun);
    assert_eq!(Date::from_days(8).weekday(), Weekday::Mon);
    assert_eq!(Date::from_days(0).weekday(), Weekday::Sun);
    assert_eq!(Date::from_days(-6).weekday(), Weekday::Mon);
    assert_eq!(Date::from_days(739_368).weekday(), Weekday::Sun);
    assert_eq!(Date::from_days(i32::MAX).weekday(), Weekday::Mon);
    assert_eq!(Date::from_days(i32::MIN).weekday(), Weekday::Fri);
}

#[test]
fn weekday_agrees_with_the_calendar() {
    for days in (-800_000..800_000).step_by(997) {
        let calendar = NaiveDate::from_num_days_from_ce_opt(days).expect("in range");
        let ours = weekday_label(Date::from_days(days).weekday());
        assert_eq!(ours, calendar.weekday().to_string());
    }
}

#[test]
fn weekday_names() {
    let names = [
        (Weekday::Mon, "Mon"),
        (Weekday::Tue, "Tue"),
        (Weekday::Wed, "Wed"),
        (Weekday::Thu, "Thu"),
        (Weekday::Fri, "Fri"),
        (Weekday::Sat, "Sat"),
        (Weekday::Sun, "Sun"),
    ];
    for (day, name) in names {
        assert_eq!(weekday_label(day), name);
    }
}

#[test]
fn iso_text_of_a_date() {
    assert_eq!(Date::from_days(739_368).iso_text().as_deref(), Some("2025-04-27"));
    assert_eq!(Date::from_days(1).iso_text().as_deref(), Some("0001-01-01"));
    assert_eq!(Date::from_days(719_163).iso_text().as_deref(), Some("1970-01-01"));
    assert_eq!(Date::from_days(0).iso_text().as_deref(), Some("0000-12-31"));
    assert_eq!(Date::from_days(i32::MAX).iso_text(), None);
    assert_eq!(Date::from_days(i32::MIN).iso_text(), None);
}

#[test]
fn iso_text_round_trips_through_the_calendar() {
    let date = NaiveDate::from_ymd_opt(2025, 4, 27).expect("a date");
    let ours = Date::from_days(date.num_days_from_ce());
    assert_eq!(ours.iso_text(), Some(date.to_string()));
}

#[test]
fn titles() {
    assert_eq!(write_title("Sun", "2025-04-27", true), "Today (Sun - 2025-04-27)");
    assert_eq!(write_title("Sun", "2025-04-27", false), "Sun - 2025-04-27");
    let day = Date::from_days(739_368);
    assert_eq!(day.render_title(day).as_deref(), Some("Today (Sun - 2025-04-27)"));
    assert_eq!(
        day.render_title(Date::from_days(739_369)).as_deref(),
        Some("Sun - 2025-04-27")
    );
    assert_eq!(
        Date::from_days(739_369).render_title(day).as_deref(),
        Some("Mon - 2025-04-28")
    );
    assert_eq!(Date::from_days(i32::MAX).render_title(day), None);
}

#[test]
fn address_of_the_fixtures_of_a_date() {
    assert_eq!(
        matches_url_for(Date::from_days(739_368)).as_deref(),
        Some("https://optaplayerstats.statsperform.com/api/en_GB/soccer/matches/2025-04-27")
    );
    assert_eq!(matches_url_for(Date::from_days(i32::MIN)), None);
}
