use gegen::events::{
    build_card_event, build_goal_event, build_penalty_event, build_sub_event, build_var_event,
    draw_events, event_side, format_goal_text, render_event, side_of_team, EventSide,
};
use gegen::types::{
    Card, CardEvent, Event, GoalEvent, GoalType, PenaltyEvent, PenaltyOutcome, SubEvent, VAREvent,
};

fn goal(team: &str, goal_type: GoalType, assist: Option<&str>) -> GoalEvent {
    GoalEvent {
        period_id: 1,
        min: 23,
        time_str: Some("23'".to_string()),
        team_id: team.to_string(),
        player_id: "nine".to_string(),
        player_name: "Nine".to_string(),
        player_2_name: assist.map(|a| a.to_string()),
        goal_type,
        score: Some([1, 0]),
    }
}

fn card(team: &str, card_type: Card, player: Option<&str>, reason: Option<&str>) -> CardEvent {
    CardEvent {
        period_id: 2,
        min: 70,
        time_str: None,
        player_name: player.map(|p| p.to_string()),
        reason: reason.map(|r| r.to_string()),
        team_id: team.to_string(),
        card_type,
    }
}

fn sub(team: &str) -> SubEvent {
    SubEvent {
        period_id: 2,
        min: 60,
        time_str: Some("60'".to_string()),
        team_id: team.to_string(),
        player_id: "fresh".to_string(),
        player_name: "Fresh".to_string(),
        player2_id: "tired".to_string(),
        player2_name: "Tired".to_string(),
    }
}

fn review(team: &str, outcome: Option<&str>) -> VAREvent {
    VAREvent {
        period_id: 1,
        min: 40,
        time_str: Some("40'".to_string()),
        team_id: team.to_string(),
        player_id: "three".to_string(),
        player_name: "Three".to_string(),
        var_type: "Goal".to_string(),
        outcome: outcome.map(|o| o.to_string()),
        decision: "Overturned".to_string(),
    }
}

fn kick(team: &str, outcome: PenaltyOutcome) -> PenaltyEvent {
    PenaltyEvent {
        period_id: 5,
        min: 120,
        time_str: None,
        team_id: team.to_string(),
        player_id: "four".to_string(),
        player_name: "Four".to_string(),
        outcome,
        pen_num: 1,
    }
}

#[test]
fn a_team_is_home_only_by_the_home_id() {
    let home = "home".to_string();
    assert_eq!(side_of_team(&"home".to_string(), Some(&home)), EventSide::Home);
    assert_eq!(side_of_team(&"away".to_string(), Some(&home)), EventSide::Away);
    assert_eq!(side_of_team(&"home".to_string(), None), EventSide::Away);
    assert_eq!(side_of_team(&"".to_string(), Some(&home)), EventSide::Away);
}

#[test]
fn own_goal_of_the_away_team_stands_on_the_home_side() {
    let home = "home".to_string();
    let event = Event::Goal(goal("away", GoalType::OwnGoal, None));
    assert_eq!(event_side(&event, Some(&home)), EventSide::Home);
}

#[test]
fn own_goal_of_the_home_team_stands_on_the_away_side() {
    let home = "home".to_string();
    let event = Event::Goal(goal("home", GoalType::OwnGoal, None));
    assert_eq!(event_side(&event, Some(&home)), EventSide::Away);
    assert_eq!(event_side(&event, None), EventSide::Home);
}

#[test]
fn other_events_stand_on_the_side_of_their_team() {
    let home = "home".to_string();
    for team in ["home", "away"] {
        let expected = if team == "home" { EventSide::Home } else { EventSide::Away };
        let events = [
            Event::Goal(goal(team, GoalType::Goal, None)),
            Event::Goal(goal(team, GoalType::Penalty, None)),
            Event::Sub(sub(team)),
            Event::Card(card(team, Card::Red, None, None)),
            Event::Var(review(team, None)),
            Event::Pen(kick(team, PenaltyOutcome::Saved)),
        ];
        for event in events.iter() {
            assert_eq!(event_side(event, Some(&home)), expected);
            assert_eq!(event_side(event, None), EventSide::Away);
        }
    }
}

#[test]
fn event_accessors_reach_into_every_variant() {
    let events = [
        Event::Goal(goal("t1", GoalType::Goal, None)),
        Event::Sub(sub("t2")),
        Event::Card(card("t3", Card::Yellow, None, None)),
        Event::Var(review("t4", None)),
        Event::Pen(kick("t5", PenaltyOutcome::Scored)),
    ];
    let ids: Vec<&String> = events.iter().map(|e| e.get_team_id()).collect();
    assert_eq!(ids, ["t1", "t2", "t3", "t4", "t5"]);
    let clocks: Vec<Option<&String>> = events.iter().map(|e| e.get_time_str()).collect();
    assert_eq!(clocks[0].map(|s| s.as_str()), Some("23'"));
    assert_eq!(clocks[1].map(|s| s.as_str()), Some("60'"));
    assert_eq!(clocks[2], None);
    assert_eq!(clocks[3].map(|s| s.as_str()), Some("40'"));
    assert_eq!(clocks[4], None);
}

#[test]
fn goal_text_names_kind_scorer_and_assist() {
    assert_eq!(format_goal_text(&goal("t", GoalType::Goal, None)), "Goal: Nine");
    assert_eq!(format_goal_text(&goal("t", GoalType::Penalty, None)), "Goal (p): Nine");
    assert_eq!(format_goal_text(&goal("t", GoalType::OwnGoal, None)), "Goal (og): Nine");
    assert_eq!(
        format_goal_text(&goal("t", GoalType::Goal, Some("Ten"))),
        "Goal: Nine, Assist: Ten"
    );
    assert_eq!(
        format_goal_text(&goal("t", GoalType::OwnGoal, Some("Ten"))),
        "Goal (og): Nine, Assist: Ten"
    );
}

#[test]
fn goal_line() {
    let home = "home".to_string();
    let line = build_goal_event(&goal("home", GoalType::Penalty, None), Some(&home));
    assert_eq!(line, ("⚽", "Goal (p): Nine".to_string(), EventSide::Home));
    let line = build_goal_event(&goal("away", GoalType::OwnGoal, None), Some(&home));
    assert_eq!(line, ("⚽", "Goal (og): Nine".to_string(), EventSide::Home));
}

#[test]
fn penalty_lines() {
    let home = "home".to_string();
    assert_eq!(
        build_penalty_event(&kick("home", PenaltyOutcome::Saved), Some(&home)),
        ("❌", "Four: Saved".to_string(), EventSide::Home)
    );
    assert_eq!(
        build_penalty_event(&kick("away", PenaltyOutcome::Scored), Some(&home)),
        ("✅", "Four: Scored".to_string(), EventSide::Away)
    );
    assert_eq!(
        build_penalty_event(&kick("away", PenaltyOutcome::Missed), None),
        ("❌", "Four: Missed".to_string(), EventSide::Away)
    );
}

#[test]
fn var_lines() {
    let home = "home".to_string();
    assert_eq!(
        build_var_event(&review("home", Some("No goal")), Some(&home)),
        ("🔎", "Goal (Three) -> Overturned: No goal".to_string(), EventSide::Home)
    );
    assert_eq!(
        build_var_event(&review("away", None), Some(&home)),
        ("🔎", "Goal (Three) -> Overturned: ".to_string(), EventSide::Away)
    );
}

#[test]
fn card_lines() {
    let home = "home".to_string();
    assert_eq!(
        build_card_event(&card("home", Card::Yellow, Some("Six"), Some("Foul")), Some(&home)),
        ("🟨", "Six (Foul)".to_string(), EventSide::Home)
    );
    assert_eq!(
        build_card_event(&card("away", Card::SecondYellow, Some("Six"), None), Some(&home)),
        ("🟨🟨 (🟥)", "Six ".to_string(), EventSide::Away)
    );
    assert_eq!(
        build_card_event(&card("away", Card::Red, None, Some("Violent conduct")), Some(&home)),
        ("🟥", " (Violent conduct)".to_string(), EventSide::Away)
    );
    assert_eq!(
        build_card_event(&card("away", Card::Red, None, None), Some(&home)),
        ("🟥", " ".to_string(), EventSide::Away)
    );
}

#[test]
fn sub_line() {
    let home = "home".to_string();
    assert_eq!(
        build_sub_event(&sub("home"), Some(&home)),
        ("🔄", "On: Fresh, Off: Tired".to_string(), EventSide::Home)
    );
}

#[test]
fn rendered_event_carries_sign_text_clock_and_side() {
    let home = "home".to_string();
    let line = render_event(&Event::Goal(goal("away", GoalType::OwnGoal, Some("Ten"))), Some(&home));
    assert_eq!(line.emoji, "⚽");
    assert_eq!(line.text, "Goal (og): Nine, Assist: Ten");
    assert_eq!(line.time, "23'");
    assert_eq!(line.side, EventSide::Home);
    let line = render_event(&Event::Card(card("away", Card::Yellow, Some("Six"), None)), Some(&home));
    assert_eq!(line.emoji, "🟨");
    assert_eq!(line.time, "");
    assert_eq!(line.side, EventSide::Away);
}

#[test]
fn events_become_lines_one_for_one_in_order() {
    let home = "home".to_string();
    let events = vec![
        Event::Sub(sub("home")),
        Event::Goal(goal("away", GoalType::Goal, None)),
        Event::Pen(kick("home", PenaltyOutcome::Scored)),
    ];
    let lines = draw_events(&events, Some(&home));
    assert_eq!(lines.len(), 3);
    assert_eq!(lines[0].emoji, "🔄");
    assert_eq!(lines[0].side, EventSide::Home);
    assert_eq!(lines[1].text, "Goal: Nine");
    assert_eq!(lines[1].side, EventSide::Away);
    assert_eq!(lines[2].emoji, "✅");
    assert!(draw_events(&Vec::new(), Some(&home)).is_empty());
}
