//! What the two pages show, made from the grouped snapshot of a date.
use crate::display::{build_row, draw_overview, format_team_name, overview_score_text,
    row_center_text, row_state_text, team_label, OverviewText};
use crate::events::{draw_events, lines_show, EventLine};
use crate::grouping::find_group;
use crate::navigation::find_match;
use crate::phase::{classify, phase_of, resolved_score_of, Phase};
use crate::types::{Event, Match};
use vstd::prelude::*;
use vstd::string::{StrSliceExecFns, StringExecFns};

verus! {

/// The number of characters of a label that fit on a tab.
pub const TAB_WIDTH: usize = 5;

/// The title of a tab: the first characters of the label, as many as fit.
pub open spec fn tab_title_text(label: Seq<char>) -> Seq<char> {
    if label.len() <= TAB_WIDTH {
        label
    } else {
        label.subrange(0, TAB_WIDTH as int)
    }
}

/// Writes the title of a tab.
pub fn tab_title(label: &String) -> (title: String)
    ensures
        title@ == tab_title_text(label@),
{
    let text = label.as_str();
    if text.unicode_len() <= TAB_WIDTH {
        label.clone()
    } else {
        String::from_str(text.substring_char(0, TAB_WIDTH))
    }
}

/// One row of the fixtures table: the phase of the match and the texts of
/// the row.
#[derive(Debug, Clone, PartialEq, Eq)]
pub struct FixtureRow {
    pub phase: Phase,
    pub state_text: String,
    pub home: String,
    pub center_text: String,
    pub away: String,
}

impl FixtureRow {
    /// Whether the row shows the match `m`: its sides by name, its score in
    /// the middle and, but for a match that has yet to start, the text of its
    /// phase in front. Before kick-off the text in front is the kick-off on
    /// this machine's clock.
    pub open spec fn shows(&self, m: Match) -> bool {
        &&& self.phase == phase_of(m)
        &&& self.home@ == team_label(m.home)
        &&& self.away@ == team_label(m.away)
        &&& self.center_text@ == row_center_text(phase_of(m), resolved_score_of(m))
        &&& phase_of(m) !is Pending ==> self.state_text@ == row_state_text(phase_of(m), None)
    }
}

/// Whether `rows` shows `matches` one for one and in order.
pub open spec fn rows_show(rows: Seq<FixtureRow>, matches: Seq<Match>) -> bool {
    &&& rows.len() == matches.len()
    &&& forall|i: int| 0 <= i < matches.len() ==> (#[trigger] rows[i]).shows(matches[i])
}

/// Whether `titles` holds the tab title of each group, in order.
pub open spec fn titles_show(titles: Seq<String>, groups: Seq<(String, Vec<Match>)>) -> bool {
    &&& titles.len() == groups.len()
    &&& forall|i: int|
        0 <= i < groups.len() ==> (#[trigger] titles[i])@ == tab_title_text(groups[i].0@)
}

/// The fixtures page: the label of the selected competition, the titles of
/// all tabs, and the rows of the selected competition.
#[derive(Debug, Clone, PartialEq, Eq)]
pub struct FixturesView {
    pub tab_title: String,
    pub titles: Vec<String>,
    pub rows: Vec<FixtureRow>,
}

impl FixturesView {
    /// Whether the view shows `groups` with the tab `tab` selected. A tab
    /// that does not exist has an empty label and no rows.
    pub open spec fn shows(&self, groups: Seq<(String, Vec<Match>)>, tab: usize) -> bool {
        &&& titles_show(self.titles@, groups)
        &&& if tab < groups.len() {
            &&& self.tab_title@ == groups[tab as int].0@
            &&& rows_show(self.rows@, groups[tab as int].1@)
        } else {
            &&& self.tab_title@ == Seq::<char>::empty()
            &&& self.rows@.len() == 0
        }
    }
}

/// Makes the row of one match.
pub fn fixture_row(fixture: &Match) -> (row: FixtureRow)
    ensures
        row.shows(*fixture),
{
    let texts = build_row(fixture);
    FixtureRow {
        phase: classify(fixture),
        state_text: texts.state_text,
        home: format_team_name(&fixture.home),
        center_text: texts.center_text,
        away: format_team_name(&fixture.away),
    }
}

/// Makes the rows of the matches of one competition.
pub fn fixture_rows(matches: &Vec<Match>) -> (rows: Vec<FixtureRow>)
    ensures
        rows_show(rows@, matches@),
{
    let mut rows: Vec<FixtureRow> = Vec::new();
    let mut i: usize = 0;
    while i < matches.len()
        invariant
            i <= matches.len(),
            rows_show(rows@, matches@.take(i as int)),
        decreases matches.len() - i,
    {
        let row = fixture_row(&matches[i]);
        rows.push(row);
        i = i + 1;
    }
    assert(matches@.take(i as int) =~= matches@);
    rows
}

/// Makes the titles of the tabs.
pub fn tab_titles(groups: &Vec<(String, Vec<Match>)>) -> (titles: Vec<String>)
    ensures
        titles_show(titles@, groups@),
{
    let mut titles: Vec<String> = Vec::new();
    let mut i: usize = 0;
    while i < groups.len()
        invariant
            i <= groups.len(),
            titles_show(titles@, groups@.take(i as int)),
        decreases groups.len() - i,
    {
        let title = tab_title(&groups[i].0);
        titles.push(title);
        i = i + 1;
    }
    assert(groups@.take(i as int) =~= groups@);
    titles
}

/// Makes the fixtures page of `groups` with the tab `selected_tab` selected.
pub fn fixtures_view(groups: &Vec<(String, Vec<Match>)>, selected_tab: usize) -> (view: FixturesView)
    ensures
        view.shows(groups@, selected_tab),
{
    let titles = tab_titles(groups);
    if selected_tab < groups.len() {
        FixturesView {
            tab_title: groups[selected_tab].0.clone(),
            titles,
            rows: fixture_rows(&groups[selected_tab].1),
        }
    } else {
        FixturesView { tab_title: String::new(), titles, rows: Vec::new() }
    }
}

/// The page of one match: its phase, its head and the lines of its events.
#[derive(Debug, Clone, PartialEq, Eq)]
pub struct MatchView {
    pub phase: Phase,
    pub head: OverviewText,
    pub lines: Vec<EventLine>,
}

/// The events of a match, none where the data source sent no list.
pub open spec fn events_of(m: Match) -> Seq<Event> {
    match m.events {
        Some(events) => events@,
        None => Seq::empty(),
    }
}

/// The id of the home team of a match, where it is known.
pub open spec fn home_id_of(m: &Match) -> Option<&String> {
    match &m.home.id {
        Some(id) => Some(id),
        None => None,
    }
}

impl MatchView {
    /// Whether the view shows the match `m`: its sides and score at the head,
    /// the text of its phase above them but for a match that has yet to
    /// start, and one line for each of its events, in order.
    pub open spec fn shows(&self, m: Match) -> bool {
        &&& self.phase == phase_of(m)
        &&& self.head.home@ == team_label(m.home)
        &&& self.head.away@ == team_label(m.away)
        &&& self.head.score@ == overview_score_text(phase_of(m), resolved_score_of(m))
        &&& phase_of(m) !is Pending ==> self.head.status@ == row_state_text(phase_of(m), None)
        &&& lines_show(self.lines@, events_of(m), home_id_of(&m))
    }
}

/// Makes the page of one match.
pub fn match_view(match_data: &Match) -> (view: MatchView)
    ensures
        view.shows(*match_data),
{
    let head = draw_overview(match_data);
    let lines = match &match_data.events {
        Some(events) => draw_events(events, match_data.home.id.as_ref()),
        None => Vec::new(),
    };
    MatchView { phase: classify(match_data), head, lines }
}

/// The match that the page of a match is about: the first match with the id
/// `match_id` in the first group with the label `competition_name`.
pub open spec fn located(
    groups: Seq<(String, Vec<Match>)>,
    competition_name: Seq<char>,
    match_id: Seq<char>,
    at: Option<(usize, usize)>,
) -> bool {
    match at {
        Some((g, i)) => {
            &&& g < groups.len()
            &&& groups[g as int].0@ == competition_name
            &&& forall|k: int| 0 <= k < g ==> (#[trigger] groups[k]).0@ != competition_name
            &&& i < groups[g as int].1@.len()
            &&& groups[g as int].1@[i as int].id@ == match_id
            &&& forall|k: int| 0 <= k < i ==> (#[trigger] groups[g as int].1@[k]).id@ != match_id
        },
        None => forall|g: int|
            0 <= g < groups.len() && (#[trigger] groups[g]).0@ == competition_name
                && (forall|k: int| 0 <= k < g ==> (#[trigger] groups[k]).0@ != competition_name)
                ==> forall|i: int|
                0 <= i < groups[g].1@.len() ==> (#[trigger] groups[g].1@[i]).id@ != match_id,
    }
}

/// Finds the match that the page of a match is about: the group by its
/// label, the match in it by its id. `None` where either is not there.
pub fn locate_match(
    groups: &Vec<(String, Vec<Match>)>,
    competition_name: &String,
    match_id: &String,
) -> (at: Option<(usize, usize)>)
    ensures
        located(groups@, competition_name@, match_id@, at),
{
    match find_group(groups, competition_name) {
        Some(g) => match find_match(&groups[g].1, match_id) {
            Some(i) => Some((g, i)),
            None => {
                assert forall|h: int|
                    0 <= h < groups.len() && (#[trigger] groups[h]).0@ == competition_name@ && (
                    forall|k: int| 0 <= k < h ==> (#[trigger] groups[k]).0@ != competition_name@)
                    implies forall|i: int|
                    0 <= i < groups[h].1@.len() ==> (#[trigger] groups[h].1@[i]).id@ != match_id@ by {
                    assert(h == g);
                }
                None
            },
        },
        None => None,
    }
}

} // verus!
