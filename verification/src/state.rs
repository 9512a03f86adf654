//! The dashboard's state: where the reader is, a reading end of the cache and
//! the sending end of the request queue.
use crate::cache::CacheReader;
use crate::date::Date;
use crate::grouping::{group_by_competition, grouped};
use crate::navigation::{groups_view, Key, Navigation, Page, RowCommand};
use crate::pages::{fixtures_view, locate_match, located, match_view, FixturesView, MatchView};
use crate::requests::{sent_after, FetchRequester, RequestOutcome};
use crate::types::{LiveScoresResponse, Match};
use vstd::prelude::*;

verus! {

/// The state of the dashboard.
pub struct State {
    pub nav: Navigation,
    pub reader: CacheReader,
    pub requester: FetchRequester,
}

/// What a page has to show.
#[derive(Debug, Clone, PartialEq, Eq)]
pub enum PageContent {
    /// The cache holds no snapshot of the date, or not the match.
    Loading,
    /// The fixtures of the date.
    Fixtures(FixturesView),
    /// One match.
    Overview(MatchView),
}

/// Whether `groups` is some snapshot grouped by competition.
pub open spec fn is_grouping(groups: Seq<(String, Vec<Match>)>) -> bool {
    exists|snapshot: Seq<Match>| grouped(groups, snapshot)
}

/// Whether `groups`, where there are any, is some snapshot grouped by
/// competition.
pub open spec fn is_grouping_if_any(groups: Option<Seq<(String, Vec<Match>)>>) -> bool {
    match groups {
        Some(found) => is_grouping(found),
        None => true,
    }
}

/// The matches of a snapshot, where there is one.
pub open spec fn snapshot_view(found: Option<LiveScoresResponse>) -> Option<Seq<Match>> {
    match found {
        Some(snapshot) => Some(snapshot@),
        None => None,
    }
}

/// The groups as a sequence, where there are any.
pub open spec fn owned_groups_view(groups: Option<Vec<(String, Vec<Match>)>>) -> Option<
    Seq<(String, Vec<Match>)>,
> {
    match groups {
        Some(found) => Some(found@),
        None => None,
    }
}

/// Whether `groups` is what grouping makes of what the cache gave: the
/// matches of the snapshot grouped by competition, or nothing where the cache
/// gave nothing.
pub open spec fn grouping_of(
    found: Option<Seq<Match>>,
    groups: Option<Seq<(String, Vec<Match>)>>,
) -> bool {
    match found {
        Some(snapshot) => groups matches Some(made) && grouped(made, snapshot),
        None => groups is None,
    }
}

/// Whether `content` is right for the page of a match when that match stands
/// at `at` in `groups`: the page of that match, or a loading page where the
/// groups do not hold it.
pub open spec fn overview_shows(
    groups: Seq<(String, Vec<Match>)>,
    competition_name: Seq<char>,
    match_id: Seq<char>,
    content: PageContent,
    at: Option<(usize, usize)>,
) -> bool {
    &&& located(groups, competition_name, match_id, at)
    &&& match at {
        Some(place) => content matches PageContent::Overview(view) && view.shows(
            groups[place.0 as int].1@[place.1 as int],
        ),
        None => content is Loading,
    }
}

/// Whether `content` is the page of fixtures of `groups` with the tab `tab`
/// selected.
pub open spec fn fixtures_content(
    groups: Seq<(String, Vec<Match>)>,
    tab: usize,
    content: PageContent,
) -> bool {
    content matches PageContent::Fixtures(view) && view.shows(groups, tab)
}

/// Whether `content` is right for the page of the match with the id
/// `match_id` in the competition `competition_name`: the page of the first
/// such match in the first such group, or a loading page where `groups` has
/// no such match.
pub open spec fn overview_content(
    groups: Seq<(String, Vec<Match>)>,
    competition_name: Seq<char>,
    match_id: Seq<char>,
    content: PageContent,
) -> bool {
    exists|at: Option<(usize, usize)>| #[trigger]
        overview_shows(groups, competition_name, match_id, content, at)
}

/// Whether `content` is what the page that `nav` shows has to show, given the
/// grouped snapshot of its date.
///
/// Without a snapshot every page is loading. With one, the page of fixtures
/// shows the groups with the selected tab, and the page of a match shows the
/// first match with its id in the first group with its label, or is loading
/// where there is no such match.
pub open spec fn content_shows(
    nav: Navigation,
    groups: Option<Seq<(String, Vec<Match>)>>,
    content: PageContent,
) -> bool {
    match groups {
        None => content is Loading,
        Some(made) => match nav.current_page {
            Page::Matches(_) => fixtures_content(made, nav.selected_tab, content),
            Page::MatchOverview { match_id, competition_name, .. } => overview_content(
                made,
                competition_name@,
                match_id@,
                content,
            ),
        },
    }
}

/// Whether `content` is the page made of what the cache gave: `groups` is
/// the grouping of `found`, and `content` shows `groups`.
pub open spec fn content_made_of(
    nav: Navigation,
    found: Option<Seq<Match>>,
    groups: Option<Seq<(String, Vec<Match>)>>,
    content: PageContent,
) -> bool {
    grouping_of(found, groups) && content_shows(nav, groups, content)
}

/// Whether `request` is the request that the page makes, given what the
/// cache gave: a request is made exactly on the page of fixtures where the
/// cache gave nothing, and it is suppressed exactly where the date of the
/// page is today.
pub open spec fn request_made_of(
    nav: Navigation,
    found: Option<Seq<Match>>,
    request: Option<RequestOutcome>,
) -> bool {
    &&& request is Some <==> (found is None && nav.current_page is Matches)
    &&& request matches Some(outcome) ==> (outcome is Suppressed <==> nav.page_date() == nav.today)
}

/// Whether content and request are what the page makes of what the cache
/// gave.
pub open spec fn shown_made_of(
    nav: Navigation,
    found: Option<Seq<Match>>,
    groups: Option<Seq<(String, Vec<Match>)>>,
    content: PageContent,
    request: Option<RequestOutcome>,
) -> bool {
    content_made_of(nav, found, groups, content) && request_made_of(nav, found, request)
}

/// What the sending end has handed over after the page was made: as
/// `sent_after` says where a request was made, the same as before where none
/// was.
pub open spec fn sent_with(
    before: Seq<Date>,
    date: Date,
    request: Option<RequestOutcome>,
) -> Seq<Date> {
    match request {
        Some(outcome) => sent_after(before, date, outcome),
        None => before,
    }
}

/// Groups what the cache gave: the matches of a snapshot by competition,
/// nothing where there is no snapshot.
pub fn group_snapshot(found: Option<LiveScoresResponse>) -> (groups: Option<Vec<(String, Vec<Match>)>>)
    ensures
        grouping_of(snapshot_view(found), owned_groups_view(groups)),
{
    match found {
        Some(snapshot) => Some(group_by_competition(snapshot.matches)),
        None => None,
    }
}

/// Makes what the page that `nav` shows has to show, from the grouped
/// snapshot of its date.
pub fn content_for(nav: &Navigation, groups: Option<&Vec<(String, Vec<Match>)>>) -> (content: PageContent)
    ensures
        content_shows(*nav, groups_view(groups), content),
{
    match groups {
        None => PageContent::Loading,
        Some(made) => match &nav.current_page {
            Page::Matches(_) => {
                let content = PageContent::Fixtures(fixtures_view(made, nav.selected_tab));
                assert(fixtures_content(made@, nav.selected_tab, content));
                content
            },
            Page::MatchOverview { match_id, competition_name, .. } => {
                let at = locate_match(made, competition_name, match_id);
                let content = match at {
                    Some((g, i)) => PageContent::Overview(match_view(&made[g].1[i])),
                    None => PageContent::Loading,
                };
                assert(overview_shows(made@, competition_name@, match_id@, content, at));
                assert(overview_content(made@, competition_name@, match_id@, content));
                content
            },
        },
    }
}

impl State {
    /// The state at the start: the fixtures of today.
    pub fn new(reader: CacheReader, requester: FetchRequester, today: Date) -> (state: State)
        ensures
            state.nav == (Navigation {
                current_page: Page::Matches(today),
                today,
                selected_tab: 0,
                should_quit: false,
                show_metadata_pop_up: false,
                show_key_bind_pop_up: false,
            }),
    {
        State { nav: Navigation::new(today), reader, requester }
    }

    /// Asks for the fixtures of `date` to be fetched, unless `date` is today.
    /// Nothing but what the sending end has handed over changes, and that
    /// grows by `date` exactly where the outcome is `Sent`.
    pub fn fetch_data_for_date(&mut self, date: Date) -> (outcome: RequestOutcome)
        ensures
            outcome is Suppressed <==> date == old(self).nav.today,
            final(self).nav == old(self).nav,
            final(self).reader == old(self).reader,
            final(self).requester.sent() == sent_after(old(self).requester.sent(), date, outcome),
    {
        let today = self.nav.today;
        self.requester.request_fetch(date, today)
    }

    /// What the cache holds at this moment for the date that is shown,
    /// grouped by competition: the groups of its snapshot, or `None` where it
    /// holds none.
    pub fn get_grouped_data(&self) -> (groups: Option<Vec<(String, Vec<Match>)>>)
        ensures
            exists|found: Option<Seq<Match>>| #[trigger]
                grouping_of(found, owned_groups_view(groups)),
            groups matches Some(made) ==> is_grouping(made@),
    {
        let found = self.reader.get_snapshot(self.nav.date());
        let ghost given = snapshot_view(found);
        let groups = group_snapshot(found);
        assert(grouping_of(given, owned_groups_view(groups)));
        groups
    }

    /// Takes a key press and says what becomes of the row selection. The
    /// grouped snapshot is read from the cache where the key needs it, and
    /// only then.
    pub fn process_event(&mut self, key: Key, selected_row: Option<usize>) -> (command: RowCommand)
        ensures
            exists|groups: Option<Seq<(String, Vec<Match>)>>|
                {
                    &&& (final(self).nav, command) == #[trigger] old(self).nav.pressed(
                        key,
                        selected_row,
                        groups,
                    )
                    &&& is_grouping_if_any(groups)
                    &&& !old(self).nav.reads_groups(key) ==> groups is None
                },
    {
        if self.nav.needs_groups(key) {
            match self.get_grouped_data() {
                Some(found) => {
                    let command = self.nav.press(key, selected_row, Some(&found));
                    assert(is_grouping_if_any(Some(found@)));
                    command
                },
                None => {
                    let command = self.nav.press(key, selected_row, None);
                    assert(is_grouping_if_any(None));
                    command
                },
            }
        } else {
            let command = self.nav.press(key, selected_row, None);
            assert(is_grouping_if_any(None));
            command
        }
    }

    /// What the page that is shown has to show, made from what the cache
    /// holds at this moment for its date: the snapshot grouped by
    /// competition, and of the groups the content of the page.
    ///
    /// On the page of fixtures a date that the cache does not hold is asked
    /// for once, unless it is today; the outcome of that request stands
    /// beside the content. Where the cache holds the date, and on the page of
    /// a match, nothing is asked for.
    pub fn page_content(&mut self) -> (shown: (PageContent, Option<RequestOutcome>))
        ensures
            final(self).nav == old(self).nav,
            final(self).reader == old(self).reader,
            exists|found: Option<Seq<Match>>, groups: Option<Seq<(String, Vec<Match>)>>| #[trigger]
                shown_made_of(old(self).nav, found, groups, shown.0, shown.1),
            final(self).requester.sent() == sent_with(
                old(self).requester.sent(),
                old(self).nav.page_date(),
                shown.1,
            ),
    {
        let groups = self.get_grouped_data();
        let ghost found = choose|found: Option<Seq<Match>>| #[trigger]
            grouping_of(found, owned_groups_view(groups));
        let content = match &groups {
            Some(made) => content_for(&self.nav, Some(made)),
            None => content_for(&self.nav, None),
        };
        let on_fixtures = match &self.nav.current_page {
            Page::Matches(_) => true,
            _ => false,
        };
        let request = if groups.is_none() && on_fixtures {
            let date = self.nav.date();
            Some(self.fetch_data_for_date(date))
        } else {
            None
        };
        assert(self.nav == old(self).nav);
        assert(request_made_of(old(self).nav, found, request));
        let ghost made = owned_groups_view(groups);
        let shown = (content, request);
        assert(shown_made_of(old(self).nav, found, made, shown.0, shown.1));
        shown
    }
}

} // verus!
