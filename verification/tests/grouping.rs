use gegen::grouping::{find_group, group_by_competition, label_of};
use gegen::types::{Competition, Country, Match, Status, Team};

fn fixture(id: &str, country: &str, competition: &str) -> Match {
    Match {
        id: id.to_string(),
        period: 16,
        time: None,
        status: Status::Fixture,
        comp: Competition {
            id: format!("id-{competition}"),
            name: competition.to_string(),
            country: Country { id: format!("id-{country}"), full_name: country.to_string() },
        },
        date: 0,
        home: Team { id: None, name: None },
        away: Team { id: None, name: None },
        score: None,
        events: None,
        updated: 0,
    }
}

fn ids(matches: &[Match]) -> Vec<&str> {
    matches.iter().map(|m| m.id.as_str()).collect()
}

#[test]
fn label_joins_country_and_competition() {
    assert_eq!(label_of(&fixture("1", "England", "Premier League")), "England - Premier League");
    assert_eq!(label_of(&fixture("1", "", "")), " - ");
}

#[test]
fn groups_follow_first_occurrence() {
    let groups = group_by_competition(vec![
        fixture("b1", "Spain", "CompB"),
        fixture("a1", "Spain", "CompA"),
        fixture("b2", "Spain", "CompB"),
    ]);
    assert_eq!(groups.len(), 2);
    assert_eq!(groups[0].0, "Spain - CompB");
    assert_eq!(ids(&groups[0].1), ["b1", "b2"]);
    assert_eq!(groups[1].0, "Spain - CompA");
    assert_eq!(ids(&groups[1].1), ["a1"]);
}

#[test]
fn groups_are_not_sorted_and_keep_every_match() {
    let groups = group_by_competition(vec![
        fixture("1", "Wales", "Z"),
        fixture("2", "Italy", "A"),
        fixture("3", "Wales", "A"),
        fixture("4", "Italy", "A"),
        fixture("5", "Wales", "Z"),
        fixture("6", "Wales", "A"),
        fixture("7", "Wales", "Z"),
    ]);
    let labels: Vec<&str> = groups.iter().map(|g| g.0.as_str()).collect();
    assert_eq!(labels, ["Wales - Z", "Italy - A", "Wales - A"]);
    assert_eq!(ids(&groups[0].1), ["1", "5", "7"]);
    assert_eq!(ids(&groups[1].1), ["2", "4"]);
    assert_eq!(ids(&groups[2].1), ["3", "6"]);
}

#[test]
fn the_same_competition_name_in_two_countries_makes_two_groups() {
    let groups = group_by_competition(vec![
        fixture("1", "Spain", "Cup"),
        fixture("2", "Italy", "Cup"),
    ]);
    assert_eq!(groups.len(), 2);
}

#[test]
fn an_empty_snapshot_has_no_groups() {
    assert!(group_by_competition(Vec::new()).is_empty());
}

#[test]
fn one_match_makes_one_group() {
    let groups = group_by_competition(vec![fixture("only", "Peru", "Liga 1")]);
    assert_eq!(groups.len(), 1);
    assert_eq!(groups[0].0, "Peru - Liga 1");
    assert_eq!(groups[0].1, vec![fixture("only", "Peru", "Liga 1")]);
}

#[test]
fn find_group_gives_the_position_of_a_label() {
    let groups = group_by_competition(vec![
        fixture("1", "Spain", "B"),
        fixture("2", "Spain", "A"),
    ]);
    assert_eq!(find_group(&groups, &"Spain - A".to_string()), Some(1));
    assert_eq!(find_group(&groups, &"Spain - B".to_string()), Some(0));
    assert_eq!(find_group(&groups, &"Spain - C".to_string()), None);
}
