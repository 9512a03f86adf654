use gegen::cache::SnapshotCache;
use gegen::date::Date;
use gegen::events::EventSide;
use gegen::grouping::group_by_competition;
use gegen::navigation::{Key, Page, RowCommand};
use gegen::phase::Phase;
use gegen::pages::{
    fixture_row, fixture_rows, fixtures_view, locate_match, match_view, tab_title, tab_titles,
};
use gegen::requests::{request_channel, RequestOutcome, SendFailure};
use gegen::navigation::Navigation;
use gegen::state::{content_for, group_snapshot, PageContent, State};
use gegen::types::{
    Competition, Country, Event, GoalEvent, GoalType, LiveScoresResponse, Match, Score, ScoreKey,
    Scores, Status, Team,
};

fn fixture(id: &str, competition: &str, period: usize) -> Match {
    let mut scores = Scores::new();
    scores.insert(ScoreKey::Ft, Score { home: 2, away: 1 });
    scores.insert(ScoreKey::Total, Score { home: 1, away: 1 });
    Match {
        id: id.to_string(),
        period,
        time: Some(33),
        status: Status::Playing,
        comp: Competition {
            id: "c".to_string(),
            name: competition.to_string(),
            country: Country { id: "k".to_string(), full_name: "Éire".to_string() },
        },
        date: 0,
        home: Team { id: Some("home".to_string()), name: Some("Rovers".to_string()) },
        away: Team { id: Some("away".to_string()), name: Some("City".to_string()) },
        score: Some(scores),
        events: Some(vec![Event::Goal(GoalEvent {
            period_id: 1,
            min: 10,
            time_str: Some("10'".to_string()),
            team_id: "away".to_string(),
            player_id: "p".to_string(),
            player_name: "Unlucky".to_string(),
            player_2_name: None,
            goal_type: GoalType::OwnGoal,
            score: None,
        })]),
        updated: 0,
    }
}

fn snapshot() -> LiveScoresResponse {
    LiveScoresResponse {
        matches: vec![
            fixture("b1", "B", 1),
            fixture("a1", "A", 14),
            fixture("b2", "B", 10),
        ],
    }
}

#[test]
fn a_tab_title_is_the_start_of_the_label() {
    assert_eq!(tab_title(&"England - Premier League".to_string()), "Engla");
    assert_eq!(tab_title(&"Éire - B".to_string()), "Éire ");
    assert_eq!(tab_title(&"ÉÉÉÉÉÉ".to_string()), "ÉÉÉÉÉ");
    assert_eq!(tab_title(&"12345".to_string()), "12345");
    assert_eq!(tab_title(&"1234".to_string()), "1234");
    assert_eq!(tab_title(&"".to_string()), "");
}

#[test]
fn tab_titles_follow_the_groups() {
    let groups = group_by_competition(snapshot().matches);
    assert_eq!(tab_titles(&groups), ["Éire ", "Éire "]);
    assert!(tab_titles(&Vec::new()).is_empty());
}

#[test]
fn a_row_shows_its_match() {
    let row = fixture_row(&fixture("a1", "A", 14));
    assert_eq!(row.phase, Phase::FullTime);
    assert_eq!(row.state_text, "ft");
    assert_eq!(row.home, "Rovers");
    assert_eq!(row.center_text, "2 - 1");
    assert_eq!(row.away, "City");
    let rows = fixture_rows(&snapshot().matches);
    assert_eq!(rows.len(), 3);
    assert_eq!(rows[0].phase, Phase::InPlay(33));
    assert_eq!(rows[0].state_text, "33'");
    assert_eq!(rows[0].center_text, "1 - 1");
    assert_eq!(rows[2].state_text, "ht");
    assert_eq!(rows[2].center_text, "???");
}

#[test]
fn the_fixtures_page_shows_the_selected_tab() {
    let groups = group_by_competition(snapshot().matches);
    let view = fixtures_view(&groups, 0);
    assert_eq!(view.tab_title, "Éire - B");
    assert_eq!(view.titles.len(), 2);
    assert_eq!(view.rows.len(), 2);
    let view = fixtures_view(&groups, 1);
    assert_eq!(view.tab_title, "Éire - A");
    assert_eq!(view.rows.len(), 1);
    assert_eq!(view.rows[0].state_text, "ft");
    let view = fixtures_view(&groups, 2);
    assert_eq!(view.tab_title, "");
    assert_eq!(view.titles.len(), 2);
    assert!(view.rows.is_empty());
}

#[test]
fn a_match_is_found_by_label_and_id() {
    let groups = group_by_competition(snapshot().matches);
    let find = |label: &str, id: &str| locate_match(&groups, &label.to_string(), &id.to_string());
    assert_eq!(find("Éire - B", "b2"), Some((0, 1)));
    assert_eq!(find("Éire - A", "a1"), Some((1, 0)));
    assert_eq!(find("Éire - A", "b1"), None);
    assert_eq!(find("Éire - C", "a1"), None);
}

#[test]
fn the_match_page_shows_head_and_events() {
    let view = match_view(&fixture("a1", "A", 14));
    assert_eq!(view.head.home, "Rovers");
    assert_eq!(view.head.away, "City");
    assert_eq!(view.phase, Phase::FullTime);
    assert_eq!(view.head.status, "ft");
    assert_eq!(view.head.score, "2 - 1");
    assert_eq!(view.lines.len(), 1);
    assert_eq!(view.lines[0].text, "Goal (og): Unlucky");
    assert_eq!(view.lines[0].side, EventSide::Home);
    let mut bare = fixture("a1", "A", 14);
    bare.events = None;
    assert!(match_view(&bare).lines.is_empty());
}

#[test]
fn a_date_that_is_not_cached_is_loading_and_asked_for() {
    let (_cache, reader) = SnapshotCache::new();
    let (requester, queue) = request_channel();
    let today = Date::from_days(10);
    let mut state = State::new(reader, requester, today);
    assert_eq!(state.page_content(), (PageContent::Loading, Some(RequestOutcome::Suppressed)));
    assert_eq!(queue.poll(), None);
    assert_eq!(state.get_grouped_data(), None);
    state.process_event(Key::Char('n'), None);
    assert_eq!(state.page_content(), (PageContent::Loading, Some(RequestOutcome::Sent)));
    assert_eq!(queue.poll(), Some(Date::from_days(11)));
    assert_eq!(queue.poll(), None);
}

#[test]
fn a_request_that_fails_is_reported_beside_the_page() {
    let (_cache, reader) = SnapshotCache::new();
    let (requester, queue) = request_channel();
    drop(queue);
    let mut state = State::new(reader, requester, Date::from_days(10));
    state.process_event(Key::Char('p'), None);
    assert_eq!(
        state.page_content(),
        (PageContent::Loading, Some(RequestOutcome::Failed(SendFailure::Disconnected)))
    );
}

#[test]
fn the_page_of_a_match_asks_for_nothing() {
    let (_cache, reader) = SnapshotCache::new();
    let (requester, queue) = request_channel();
    let mut state = State::new(reader, requester, Date::from_days(10));
    state.nav.current_page = Page::MatchOverview {
        date: Date::from_days(11),
        match_id: "a1".to_string(),
        competition_name: "Éire - A".to_string(),
    };
    assert_eq!(state.page_content(), (PageContent::Loading, None));
    assert_eq!(queue.poll(), None);
}

#[test]
fn fetch_data_for_date_skips_today() {
    let (_cache, reader) = SnapshotCache::new();
    let (requester, queue) = request_channel();
    let today = Date::from_days(10);
    let mut state = State::new(reader, requester, today);
    assert_eq!(state.fetch_data_for_date(today), RequestOutcome::Suppressed);
    assert_eq!(queue.poll(), None);
    assert_eq!(state.fetch_data_for_date(Date::from_days(9)), RequestOutcome::Sent);
    assert_eq!(queue.poll(), Some(Date::from_days(9)));
}

#[test]
fn a_cached_date_is_shown_and_a_match_can_be_opened() {
    let (mut cache, reader) = SnapshotCache::new();
    let (requester, queue) = request_channel();
    let today = Date::from_days(10);
    cache.insert(today, snapshot());
    let mut state = State::new(reader, requester, today);
    let groups = state.get_grouped_data().expect("cached");
    assert_eq!(groups.len(), 2);
    match state.page_content() {
        (PageContent::Fixtures(view), None) => {
            assert_eq!(view.tab_title, "Éire - B");
            assert_eq!(view.rows.len(), 2);
        }
        other => panic!("not the fixtures: {other:?}"),
    }
    assert_eq!(state.process_event(Key::Tab, None), RowCommand::Reset);
    assert_eq!(state.nav.selected_tab, 1);
    assert_eq!(state.process_event(Key::Tab, None), RowCommand::Reset);
    assert_eq!(state.nav.selected_tab, 1);
    assert_eq!(state.process_event(Key::Enter, Some(0)), RowCommand::Keep);
    assert_eq!(
        state.nav.current_page,
        Page::MatchOverview {
            date: today,
            match_id: "a1".to_string(),
            competition_name: "Éire - A".to_string(),
        }
    );
    match state.page_content() {
        (PageContent::Overview(view), None) => {
            assert_eq!(view.head.score, "2 - 1");
            assert_eq!(view.lines.len(), 1);
        }
        other => panic!("not the match: {other:?}"),
    }
    cache.insert(today, LiveScoresResponse { matches: Vec::new() });
    assert_eq!(state.page_content(), (PageContent::Loading, None));
    assert_eq!(state.process_event(Key::Backspace, None), RowCommand::Keep);
    assert_eq!(state.nav.current_page, Page::Matches(today));
    assert_eq!(queue.poll(), None);
}

#[test]
fn no_snapshot_gives_no_groups() {
    assert_eq!(group_snapshot(None), None);
}

#[test]
fn a_snapshot_gives_its_groups() {
    let groups = group_snapshot(Some(snapshot())).expect("groups of the snapshot");
    assert_eq!(groups, group_by_competition(snapshot().matches));
    assert_eq!(groups.len(), 2);
    assert_eq!(groups[0].0, "Éire - B");
    assert_eq!(groups[0].1.len(), 2);
    assert_eq!(groups[1].0, "Éire - A");
    let empty = group_snapshot(Some(LiveScoresResponse { matches: Vec::new() }));
    assert_eq!(empty, Some(Vec::new()));
}

#[test]
fn every_page_is_loading_without_groups() {
    let mut nav = Navigation::new(Date::from_days(10));
    assert_eq!(content_for(&nav, None), PageContent::Loading);
    nav.current_page = Page::MatchOverview {
        date: Date::from_days(10),
        match_id: "a1".to_string(),
        competition_name: "Éire - A".to_string(),
    };
    assert_eq!(content_for(&nav, None), PageContent::Loading);
}

#[test]
fn the_page_of_fixtures_shows_the_groups() {
    let groups = group_by_competition(snapshot().matches);
    let mut nav = Navigation::new(Date::from_days(10));
    nav.selected_tab = 1;
    assert_eq!(content_for(&nav, Some(&groups)), PageContent::Fixtures(fixtures_view(&groups, 1)));
    let none: Vec<(String, Vec<Match>)> = Vec::new();
    match content_for(&nav, Some(&none)) {
        PageContent::Fixtures(view) => {
            assert_eq!(view.tab_title, "");
            assert!(view.titles.is_empty());
            assert!(view.rows.is_empty());
        }
        other => panic!("not the fixtures: {other:?}"),
    }
}

#[test]
fn the_page_of_a_match_shows_that_match_or_is_loading() {
    let groups = group_by_competition(snapshot().matches);
    let mut nav = Navigation::new(Date::from_days(10));
    nav.current_page = Page::MatchOverview {
        date: Date::from_days(10),
        match_id: "b2".to_string(),
        competition_name: "Éire - B".to_string(),
    };
    assert_eq!(
        content_for(&nav, Some(&groups)),
        PageContent::Overview(match_view(&groups[0].1[1]))
    );
    nav.current_page = Page::MatchOverview {
        date: Date::from_days(10),
        match_id: "b2".to_string(),
        competition_name: "Éire - A".to_string(),
    };
    assert_eq!(content_for(&nav, Some(&groups)), PageContent::Loading);
    nav.current_page = Page::MatchOverview {
        date: Date::from_days(10),
        match_id: "b2".to_string(),
        competition_name: "Éire - Z".to_string(),
    };
    assert_eq!(content_for(&nav, Some(&groups)), PageContent::Loading);
}
