//! Where the reader is in the dashboard, and how a key press moves them.
use crate::date::Date;
use crate::types::Match;
use vstd::prelude::*;

verus! {

/// The pages of the dashboard.
#[derive(Debug, Clone, PartialEq, Eq)]
pub enum Page {
    /// The fixtures of a date.
    Matches(Date),
    /// One match of a date, found by its competition and its id.
    MatchOverview { date: Date, match_id: String, competition_name: String },
}

/// A key press, as far as the dashboard tells keys apart.
#[derive(Debug, Clone, Copy, PartialEq, Eq, Structural)]
pub enum Key {
    Char(char),
    Esc,
    Enter,
    Up,
    Down,
    Tab,
    BackTab,
    Backspace,
    Other,
}

/// What a key press asks of the row selection of the fixtures table.
#[derive(Debug, Clone, Copy, PartialEq, Eq, Structural)]
pub enum RowCommand {
    /// Leave it.
    Keep,
    /// Select no row.
    Clear,
    /// Select the row above.
    Previous,
    /// Select the row below.
    Next,
    /// Start over, as for a table shown for the first time.
    Reset,
}

/// Where the reader is.
#[derive(Debug, Clone, PartialEq, Eq)]
pub struct Navigation {
    pub current_page: Page,
    pub today: Date,
    pub selected_tab: usize,
    pub should_quit: bool,
    pub show_metadata_pop_up: bool,
    pub show_key_bind_pop_up: bool,
}

/// A page is redrawn once more than this many milliseconds have passed since
/// it was drawn last.
pub const TICK_RATE_MS: u64 = 150;

/// The day after, or the day itself where it has none.
pub open spec fn day_after(date: Date) -> Date {
    if date.days < i32::MAX {
        Date { days: (date.days + 1) as i32 }
    } else {
        date
    }
}

/// The day before, or the day itself where it has none.
pub open spec fn day_before(date: Date) -> Date {
    if date.days > i32::MIN {
        Date { days: (date.days - 1) as i32 }
    } else {
        date
    }
}

/// The tab to the right of `tab` among `count` tabs: the next one, but never
/// past the last.
pub open spec fn tab_after(tab: usize, count: nat) -> usize {
    if count == 0 {
        0
    } else if tab + 1 < count {
        (tab + 1) as usize
    } else {
        (count - 1) as usize
    }
}

/// The tab to the left of `tab`: the one before, but never before the first.
pub open spec fn tab_before(tab: usize) -> usize {
    if tab == 0 {
        0
    } else {
        (tab - 1) as usize
    }
}

/// The page of the match in row `row` of tab `tab`, where the groups have
/// such a row.
pub open spec fn overview_of(
    date: Date,
    groups: Seq<(String, Vec<Match>)>,
    tab: usize,
    row: usize,
) -> Option<Page> {
    if tab < groups.len() && row < groups[tab as int].1@.len() {
        Some(
            Page::MatchOverview {
                date,
                match_id: groups[tab as int].1@[row as int].id,
                competition_name: groups[tab as int].0,
            },
        )
    } else {
        None
    }
}

impl Navigation {
    /// This navigation on another page.
    pub open spec fn on_page(self, page: Page) -> Navigation {
        Navigation {
            current_page: page,
            today: self.today,
            selected_tab: self.selected_tab,
            should_quit: self.should_quit,
            show_metadata_pop_up: self.show_metadata_pop_up,
            show_key_bind_pop_up: self.show_key_bind_pop_up,
        }
    }

    /// This navigation with another tab selected.
    pub open spec fn on_tab(self, tab: usize) -> Navigation {
        Navigation {
            current_page: self.current_page,
            today: self.today,
            selected_tab: tab,
            should_quit: self.should_quit,
            show_metadata_pop_up: self.show_metadata_pop_up,
            show_key_bind_pop_up: self.show_key_bind_pop_up,
        }
    }

    /// The date of the page that is shown.
    pub open spec fn page_date(self) -> Date {
        match self.current_page {
            Page::Matches(date) => date,
            Page::MatchOverview { date, .. } => date,
        }
    }

    /// What the keys that work on every page do: `q` quits, `m` and `?` show
    /// or hide a pop-up. Every other key leaves the navigation as it is.
    pub open spec fn after_global_key(self, key: Key) -> Navigation {
        Navigation {
            current_page: self.current_page,
            today: self.today,
            selected_tab: self.selected_tab,
            should_quit: self.should_quit || key == Key::Char('q'),
            show_metadata_pop_up: if key == Key::Char('m') {
                !self.show_metadata_pop_up
            } else {
                self.show_metadata_pop_up
            },
            show_key_bind_pop_up: if key == Key::Char('?') {
                !self.show_key_bind_pop_up
            } else {
                self.show_key_bind_pop_up
            },
        }
    }

    /// What a key does on the page of fixtures of `date`. `selected_row` is
    /// the row that is selected in the table, `groups` the grouped snapshot
    /// of the date where the cache holds one.
    pub open spec fn after_matches_key(
        self,
        date: Date,
        key: Key,
        selected_row: Option<usize>,
        groups: Option<Seq<(String, Vec<Match>)>>,
    ) -> (Navigation, RowCommand) {
        match key {
            Key::Esc => (self, RowCommand::Clear),
            Key::Char('n') => (self.on_page(Page::Matches(day_after(date))).on_tab(0), RowCommand::Keep),
            Key::Char('p') => (
                self.on_page(Page::Matches(day_before(date))).on_tab(0),
                RowCommand::Keep,
            ),
            Key::Char('t') => (self.on_page(Page::Matches(self.today)), RowCommand::Keep),
            Key::Char('g') => (self.on_tab(0), RowCommand::Keep),
            Key::Enter => match (selected_row, groups) {
                (Some(row), Some(found)) => match overview_of(date, found, self.selected_tab, row) {
                    Some(page) => (self.on_page(page), RowCommand::Keep),
                    None => (self, RowCommand::Keep),
                },
                _ => (self, RowCommand::Keep),
            },
            Key::Char('k') | Key::Up => (self, RowCommand::Previous),
            Key::Char('j') | Key::Down => (self, RowCommand::Next),
            Key::Tab => match groups {
                Some(found) => (
                    self.on_tab(tab_after(self.selected_tab, found.len())),
                    RowCommand::Reset,
                ),
                None => (self, RowCommand::Keep),
            },
            Key::BackTab => (self.on_tab(tab_before(self.selected_tab)), RowCommand::Reset),
            _ => (self, RowCommand::Keep),
        }
    }

    /// What a key does: first what it does on every page, then what it does
    /// on the page that is shown. On the page of a match the backspace key
    /// leads back to the fixtures of its date.
    pub open spec fn pressed(
        self,
        key: Key,
        selected_row: Option<usize>,
        groups: Option<Seq<(String, Vec<Match>)>>,
    ) -> (Navigation, RowCommand) {
        let after = self.after_global_key(key);
        match after.current_page {
            Page::Matches(date) => after.after_matches_key(date, key, selected_row, groups),
            Page::MatchOverview { date, .. } => if key == Key::Backspace {
                (after.on_page(Page::Matches(date)), RowCommand::Keep)
            } else {
                (after, RowCommand::Keep)
            },
        }
    }

    /// Whether this key press reads the grouped snapshot.
    pub open spec fn reads_groups(self, key: Key) -> bool {
        self.current_page is Matches && (key == Key::Enter || key == Key::Tab)
    }

    /// The navigation at the start: the fixtures of today, first tab, no
    /// pop-up.
    pub fn new(today: Date) -> (start: Navigation)
        ensures
            start == (Navigation {
                current_page: Page::Matches(today),
                today,
                selected_tab: 0,
                should_quit: false,
                show_metadata_pop_up: false,
                show_key_bind_pop_up: false,
            }),
    {
        Navigation {
            current_page: Page::Matches(today),
            today,
            selected_tab: 0,
            should_quit: false,
            show_metadata_pop_up: false,
            show_key_bind_pop_up: false,
        }
    }

    /// The date of the page that is shown.
    pub fn date(&self) -> (date: Date)
        ensures
            date == self.page_date(),
    {
        match &self.current_page {
            Page::Matches(date) => *date,
            Page::MatchOverview { date, .. } => *date,
        }
    }

    /// The tab that is selected.
    pub fn selected_tab(&self) -> (tab: usize)
        ensures
            tab == self.selected_tab,
    {
        self.selected_tab
    }

    /// Goes back to the first tab.
    pub fn reset_scroll_state(&mut self)
        ensures
            *final(self) == old(self).on_tab(0),
    {
        self.selected_tab = 0;
    }

    /// Shows the pop-up with the version, or hides it.
    pub fn toggle_metadata_pop_up(&mut self)
        ensures
            *final(self) == old(self).after_global_key(Key::Char('m')),
    {
        self.show_metadata_pop_up = !self.show_metadata_pop_up;
    }

    /// Shows the pop-up with the keys, or hides it.
    pub fn toggle_key_bind_pop_up(&mut self)
        ensures
            *final(self) == old(self).after_global_key(Key::Char('?')),
    {
        self.show_key_bind_pop_up = !self.show_key_bind_pop_up;
    }

    /// Shows the fixtures of today.
    pub fn reset_to_today(&mut self)
        ensures
            *final(self) == old(self).on_page(Page::Matches(old(self).today)),
    {
        self.current_page = Page::Matches(self.today);
    }

    /// On the page of fixtures, shows the day before, from its first tab. On
    /// the page of a match nothing changes.
    pub fn previous_day(&mut self)
        ensures
            *final(self) == (match old(self).current_page {
                Page::Matches(date) => old(self).on_page(Page::Matches(day_before(date))).on_tab(0),
                _ => *old(self),
            }),
    {
        let shown = match &self.current_page {
            Page::Matches(date) => Some(*date),
            _ => None,
        };
        match shown {
            Some(date) => {
                let before = match date.previous_day() {
                    Some(day) => day,
                    None => date,
                };
                self.current_page = Page::Matches(before);
                self.selected_tab = 0;
            },
            None => {},
        }
    }

    /// On the page of fixtures, shows the day after, from its first tab. On
    /// the page of a match nothing changes.
    pub fn next_day(&mut self)
        ensures
            *final(self) == (match old(self).current_page {
                Page::Matches(date) => old(self).on_page(Page::Matches(day_after(date))).on_tab(0),
                _ => *old(self),
            }),
    {
        let shown = match &self.current_page {
            Page::Matches(date) => Some(*date),
            _ => None,
        };
        match shown {
            Some(date) => {
                let after = match date.next_day() {
                    Some(day) => day,
                    None => date,
                };
                self.current_page = Page::Matches(after);
                self.selected_tab = 0;
            },
            None => {},
        }
    }

    /// Takes over the day that the clock shows now.
    pub fn on_tick(&mut self, today: Date)
        ensures
            *final(self) == (Navigation {
                current_page: old(self).current_page,
                today,
                selected_tab: old(self).selected_tab,
                should_quit: old(self).should_quit,
                show_metadata_pop_up: old(self).show_metadata_pop_up,
                show_key_bind_pop_up: old(self).show_key_bind_pop_up,
            }),
    {
        self.today = today;
    }

    /// Whether this key press reads the grouped snapshot.
    pub fn needs_groups(&self, key: Key) -> (needed: bool)
        ensures
            needed == self.reads_groups(key),
    {
        let on_matches = match &self.current_page {
            Page::Matches(_) => true,
            _ => false,
        };
        on_matches && match key {
            Key::Enter => true,
            Key::Tab => true,
            _ => false,
        }
    }

    fn press_global(&mut self, key: Key)
        ensures
            *final(self) == old(self).after_global_key(key),
    {
        match key {
            Key::Char(c) => {
                if c == 'q' {
                    self.should_quit = true;
                } else if c == 'm' {
                    self.toggle_metadata_pop_up();
                } else if c == '?' {
                    self.toggle_key_bind_pop_up();
                }
            },
            _ => {},
        }
    }

    fn open_overview(
        &mut self,
        date: Date,
        selected_row: Option<usize>,
        groups: Option<&Vec<(String, Vec<Match>)>>,
    )
        ensures
            (*final(self), RowCommand::Keep) == old(self).after_matches_key(
                date,
                Key::Enter,
                selected_row,
                groups_view(groups),
            ),
    {
        match (selected_row, groups) {
            (Some(row), Some(found)) => {
                let tab = self.selected_tab;
                if tab < found.len() && row < found[tab].1.len() {
                    self.current_page = Page::MatchOverview {
                        date,
                        match_id: found[tab].1[row].id.clone(),
                        competition_name: found[tab].0.clone(),
                    };
                }
            },
            _ => {},
        }
    }

    fn press_on_matches(
        &mut self,
        date: Date,
        key: Key,
        selected_row: Option<usize>,
        groups: Option<&Vec<(String, Vec<Match>)>>,
    ) -> (command: RowCommand)
        requires
            old(self).current_page == Page::Matches(date),
        ensures
            (*final(self), command) == old(self).after_matches_key(
                date,
                key,
                selected_row,
                groups_view(groups),
            ),
    {
        match key {
            Key::Esc => RowCommand::Clear,
            Key::Char(c) => {
                if c == 'n' {
                    self.next_day();
                    RowCommand::Keep
                } else if c == 'p' {
                    self.previous_day();
                    RowCommand::Keep
                } else if c == 't' {
                    self.reset_to_today();
                    RowCommand::Keep
                } else if c == 'g' {
                    self.reset_scroll_state();
                    RowCommand::Keep
                } else if c == 'k' {
                    RowCommand::Previous
                } else if c == 'j' {
                    RowCommand::Next
                } else {
                    RowCommand::Keep
                }
            },
            Key::Enter => {
                self.open_overview(date, selected_row, groups);
                RowCommand::Keep
            },
            Key::Up => RowCommand::Previous,
            Key::Down => RowCommand::Next,
            Key::Tab => match groups {
                Some(found) => {
                    let count = found.len();
                    if count == 0 {
                        self.selected_tab = 0;
                    } else if self.selected_tab < count - 1 {
                        self.selected_tab = self.selected_tab + 1;
                    } else {
                        self.selected_tab = count - 1;
                    }
                    RowCommand::Reset
                },
                None => RowCommand::Keep,
            },
            Key::BackTab => {
                if self.selected_tab > 0 {
                    self.selected_tab = self.selected_tab - 1;
                }
                RowCommand::Reset
            },
            _ => RowCommand::Keep,
        }
    }

    /// Takes a key press and says what becomes of the row selection.
    /// `selected_row` is the row that is selected in the table, `groups` the
    /// grouped snapshot of the date that is shown, where the cache holds one.
    pub fn press(
        &mut self,
        key: Key,
        selected_row: Option<usize>,
        groups: Option<&Vec<(String, Vec<Match>)>>,
    ) -> (command: RowCommand)
        ensures
            (*final(self), command) == old(self).pressed(key, selected_row, groups_view(groups)),
    {
        self.press_global(key);
        let shown = match &self.current_page {
            Page::Matches(date) => Some(*date),
            _ => None,
        };
        match shown {
            Some(date) => self.press_on_matches(date, key, selected_row, groups),
            None => {
                let date = self.date();
                match key {
                    Key::Backspace => {
                        self.current_page = Page::Matches(date);
                    },
                    _ => {},
                }
                RowCommand::Keep
            },
        }
    }
}

/// The groups as a sequence, where there are any.
pub open spec fn groups_view(groups: Option<&Vec<(String, Vec<Match>)>>) -> Option<
    Seq<(String, Vec<Match>)>,
> {
    match groups {
        Some(found) => Some(found@),
        None => None,
    }
}

/// Whether a page is due to be drawn again, `elapsed` milliseconds after it
/// was drawn last.
pub fn should_draw(elapsed: u64) -> (due: bool)
    ensures
        due == (elapsed > TICK_RATE_MS),
{
    elapsed > TICK_RATE_MS
}

/// The position of the first match with the id `match_id`, if there is one.
pub fn find_match(matches: &Vec<Match>, match_id: &String) -> (position: Option<usize>)
    ensures
        match position {
            Some(i) => {
                &&& i < matches.len()
                &&& matches[i as int].id@ == match_id@
                &&& forall|k: int| 0 <= k < i ==> (#[trigger] matches[k]).id@ != match_id@
            },
            None => forall|k: int| 0 <= k < matches.len() ==> (#[trigger] matches[k]).id@ != match_id@,
        },
{
    let mut i: usize = 0;
    while i < matches.len()
        invariant
            i <= matches.len(),
            forall|k: int| 0 <= k < i ==> (#[trigger] matches[k]).id@ != match_id@,
        decreases matches.len() - i,
    {
        if matches[i].id == *match_id {
            return Some(i);
        }
        i = i + 1;
    }
    None
}

} // verus!
