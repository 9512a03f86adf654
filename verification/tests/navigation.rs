use gegen::date::Date;
use gegen::grouping::group_by_competition;
use gegen::navigation::{find_match, should_draw, Key, Navigation, Page, RowCommand, TICK_RATE_MS};
use gegen::types::{Competition, Country, Match, Status, Team};

fn fixture(id: &str, competition: &str) -> Match {
    Match {
        id: id.to_string(),
        period: 16,
        time: None,
        status: Status::Fixture,
        comp: Competition {
            id: "c".to_string(),
            name: competition.to_string(),
            country: Country { id: "k".to_string(), full_name: "Spain".to_string() },
        },
        date: 0,
        home: Team { id: None, name: None },
        away: Team { id: None, name: None },
        score: None,
        events: None,
        updated: 0,
    }
}

fn groups() -> Vec<(String, Vec<Match>)> {
    group_by_competition(vec![
        fixture("b1", "B"),
        fixture("a1", "A"),
        fixture("b2", "B"),
        fixture("c1", "C"),
    ])
}

fn today() -> Date {
    Date::from_days(739_368)
}

#[test]
fn it_starts_on_the_fixtures_of_today() {
    let nav = Navigation::new(today());
    assert_eq!(nav.current_page, Page::Matches(today()));
    assert_eq!(nav.date(), today());
    assert_eq!(nav.selected_tab(), 0);
    assert!(!nav.should_quit);
    assert!(!nav.show_metadata_pop_up);
    assert!(!nav.show_key_bind_pop_up);
}

#[test]
fn q_quits_on_every_page() {
    let mut nav = Navigation::new(today());
    assert_eq!(nav.press(Key::Char('q'), None, None), RowCommand::Keep);
    assert!(nav.should_quit);
    let mut nav = Navigation::new(today());
    nav.current_page = Page::MatchOverview {
        date: today(),
        match_id: "m".to_string(),
        competition_name: "c".to_string(),
    };
    nav.press(Key::Char('q'), None, None);
    assert!(nav.should_quit);
}

#[test]
fn pop_ups_toggle() {
    let mut nav = Navigation::new(today());
    nav.press(Key::Char('m'), None, None);
    assert!(nav.show_metadata_pop_up);
    nav.press(Key::Char('m'), None, None);
    assert!(!nav.show_metadata_pop_up);
    nav.press(Key::Char('?'), None, None);
    assert!(nav.show_key_bind_pop_up);
    nav.toggle_key_bind_pop_up();
    assert!(!nav.show_key_bind_pop_up);
    nav.toggle_metadata_pop_up();
    assert!(nav.show_metadata_pop_up);
}

#[test]
fn n_and_p_change_the_day_and_go_to_the_first_tab() {
    let mut nav = Navigation::new(today());
    nav.selected_tab = 2;
    assert_eq!(nav.press(Key::Char('n'), Some(1), None), RowCommand::Keep);
    assert_eq!(nav.current_page, Page::Matches(Date::from_days(739_369)));
    assert_eq!(nav.selected_tab, 0);
    nav.selected_tab = 1;
    nav.press(Key::Char('p'), None, None);
    nav.press(Key::Char('p'), None, None);
    assert_eq!(nav.current_page, Page::Matches(Date::from_days(739_367)));
    assert_eq!(nav.selected_tab, 0);
    nav.press(Key::Char('t'), None, None);
    assert_eq!(nav.current_page, Page::Matches(today()));
}

#[test]
fn the_last_day_has_no_next_day() {
    let mut nav = Navigation::new(Date::from_days(i32::MAX));
    nav.next_day();
    assert_eq!(nav.current_page, Page::Matches(Date::from_days(i32::MAX)));
    let mut nav = Navigation::new(Date::from_days(i32::MIN));
    nav.previous_day();
    assert_eq!(nav.current_page, Page::Matches(Date::from_days(i32::MIN)));
}

#[test]
fn tab_moves_right_but_not_past_the_last_tab() {
    let found = groups();
    let mut nav = Navigation::new(today());
    assert_eq!(nav.press(Key::Tab, None, Some(&found)), RowCommand::Reset);
    assert_eq!(nav.selected_tab, 1);
    nav.press(Key::Tab, None, Some(&found));
    assert_eq!(nav.selected_tab, 2);
    nav.press(Key::Tab, None, Some(&found));
    assert_eq!(nav.selected_tab, 2);
    nav.selected_tab = usize::MAX;
    nav.press(Key::Tab, None, Some(&found));
    assert_eq!(nav.selected_tab, 2);
    let none: Vec<(String, Vec<Match>)> = Vec::new();
    nav.press(Key::Tab, None, Some(&none));
    assert_eq!(nav.selected_tab, 0);
}

#[test]
fn tab_without_a_snapshot_does_nothing() {
    let mut nav = Navigation::new(today());
    nav.selected_tab = 1;
    assert_eq!(nav.press(Key::Tab, None, None), RowCommand::Keep);
    assert_eq!(nav.selected_tab, 1);
}

#[test]
fn back_tab_moves_left_but_not_before_the_first_tab() {
    let mut nav = Navigation::new(today());
    nav.selected_tab = 2;
    assert_eq!(nav.press(Key::BackTab, None, None), RowCommand::Reset);
    assert_eq!(nav.selected_tab, 1);
    nav.press(Key::BackTab, None, None);
    nav.press(Key::BackTab, None, None);
    assert_eq!(nav.selected_tab, 0);
    nav.selected_tab = 2;
    nav.press(Key::Char('g'), None, None);
    assert_eq!(nav.selected_tab, 0);
}

#[test]
fn row_keys() {
    let mut nav = Navigation::new(today());
    let before = nav.clone();
    assert_eq!(nav.press(Key::Esc, Some(1), None), RowCommand::Clear);
    assert_eq!(nav.press(Key::Up, Some(1), None), RowCommand::Previous);
    assert_eq!(nav.press(Key::Char('k'), Some(1), None), RowCommand::Previous);
    assert_eq!(nav.press(Key::Down, Some(1), None), RowCommand::Next);
    assert_eq!(nav.press(Key::Char('j'), Some(1), None), RowCommand::Next);
    assert_eq!(nav.press(Key::Other, Some(1), None), RowCommand::Keep);
    assert_eq!(nav.press(Key::Char('x'), Some(1), None), RowCommand::Keep);
    assert_eq!(nav.press(Key::Backspace, Some(1), None), RowCommand::Keep);
    assert_eq!(nav, before);
}

#[test]
fn enter_opens_the_selected_match() {
    let found = groups();
    let mut nav = Navigation::new(today());
    assert_eq!(nav.press(Key::Enter, Some(1), Some(&found)), RowCommand::Keep);
    assert_eq!(
        nav.current_page,
        Page::MatchOverview {
            date: today(),
            match_id: "b2".to_string(),
            competition_name: "Spain - B".to_string(),
        }
    );
    assert_eq!(nav.date(), today());
}

#[test]
fn enter_without_a_row_or_a_snapshot_does_nothing() {
    let found = groups();
    let mut nav = Navigation::new(today());
    let before = nav.clone();
    nav.press(Key::Enter, None, Some(&found));
    nav.press(Key::Enter, Some(0), None);
    nav.press(Key::Enter, Some(2), Some(&found));
    nav.selected_tab = 3;
    nav.press(Key::Enter, Some(0), Some(&found));
    nav.selected_tab = 0;
    assert_eq!(nav, before);
}

#[test]
fn backspace_leads_back_to_the_fixtures() {
    let found = groups();
    let mut nav = Navigation::new(today());
    nav.selected_tab = 1;
    nav.press(Key::Enter, Some(0), Some(&found));
    assert!(matches!(nav.current_page, Page::MatchOverview { .. }));
    assert_eq!(nav.press(Key::Char('n'), None, None), RowCommand::Keep);
    assert_eq!(nav.press(Key::Tab, None, Some(&found)), RowCommand::Keep);
    assert!(matches!(nav.current_page, Page::MatchOverview { .. }));
    assert_eq!(nav.selected_tab, 1);
    assert_eq!(nav.press(Key::Backspace, None, None), RowCommand::Keep);
    assert_eq!(nav.current_page, Page::Matches(today()));
}

#[test]
fn only_enter_and_tab_on_the_fixtures_read_the_snapshot() {
    let mut nav = Navigation::new(today());
    assert!(nav.needs_groups(Key::Enter));
    assert!(nav.needs_groups(Key::Tab));
    for key in [Key::BackTab, Key::Esc, Key::Up, Key::Char('n'), Key::Other, Key::Backspace] {
        assert!(!nav.needs_groups(key));
    }
    nav.current_page = Page::MatchOverview {
        date: today(),
        match_id: "m".to_string(),
        competition_name: "c".to_string(),
    };
    assert!(!nav.needs_groups(Key::Enter));
    assert!(!nav.needs_groups(Key::Tab));
}

#[test]
fn the_day_rolls_over_on_a_tick() {
    let mut nav = Navigation::new(today());
    nav.on_tick(Date::from_days(739_369));
    assert_eq!(nav.today, Date::from_days(739_369));
    assert_eq!(nav.current_page, Page::Matches(today()));
    nav.reset_to_today();
    assert_eq!(nav.current_page, Page::Matches(Date::from_days(739_369)));
}

#[test]
fn a_page_is_drawn_again_after_the_tick() {
    assert_eq!(TICK_RATE_MS, 150);
    assert!(!should_draw(0));
    assert!(!should_draw(150));
    assert!(should_draw(151));
    assert!(should_draw(u64::MAX));
}

#[test]
fn find_match_gives_the_first_match_with_the_id() {
    let matches = vec![fixture("x", "A"), fixture("y", "A"), fixture("x", "B")];
    assert_eq!(find_match(&matches, &"x".to_string()), Some(0));
    assert_eq!(find_match(&matches, &"y".to_string()), Some(1));
    assert_eq!(find_match(&matches, &"z".to_string()), None);
    assert_eq!(find_match(&Vec::new(), &"x".to_string()), None);
}
