//! The records that one fetch delivers: matches with their competition, teams,
//! scores and events.
use vstd::prelude::*;

verus! {

/// Which phase or context a score pair belongs to.
#[derive(Hash, PartialEq, Eq, PartialOrd, Ord, Debug, Clone, Copy, Structural)]
pub enum ScoreKey {
    Ft,
    Ht,
    Total,
    Aggregate,
    TotalUnconfirmed,
    Pen,
    Et,
}

/// Goals of the home and of the away side.
#[derive(Debug, Clone, Copy, PartialEq, Eq, Structural)]
pub struct Score {
    pub home: u8,
    pub away: u8,
}

impl Default for Score {
    fn default() -> (s: Self)
        ensures
            s == (Score { home: 0, away: 0 }),
    {
        Score { home: 0, away: 0 }
    }
}

/// The scores of one match, at most one pair per key.
///
/// Seen as a map from key to pair (`@`), a key is present exactly when its
/// field holds a pair.
#[derive(Debug, Clone, Copy, PartialEq, Eq)]
pub struct Scores {
    pub ft: Option<Score>,
    pub ht: Option<Score>,
    pub total: Option<Score>,
    pub aggregate: Option<Score>,
    pub total_unconfirmed: Option<Score>,
    pub pen: Option<Score>,
    pub et: Option<Score>,
}

impl View for Scores {
    type V = Map<ScoreKey, Score>;

    open spec fn view(&self) -> Map<ScoreKey, Score> {
        Map::new(|k: ScoreKey| self.entry(k) is Some, |k: ScoreKey| self.entry(k)->0)
    }
}

impl Scores {
    /// The pair stored under `key`, if any.
    pub open spec fn entry(&self, key: ScoreKey) -> Option<Score> {
        match key {
            ScoreKey::Ft => self.ft,
            ScoreKey::Ht => self.ht,
            ScoreKey::Total => self.total,
            ScoreKey::Aggregate => self.aggregate,
            ScoreKey::TotalUnconfirmed => self.total_unconfirmed,
            ScoreKey::Pen => self.pen,
            ScoreKey::Et => self.et,
        }
    }

    /// No key is present.
    pub fn new() -> (s: Self)
        ensures
            s@ == Map::<ScoreKey, Score>::empty(),
            forall|k: ScoreKey| s.entry(k) is None,
    {
        let s = Scores {
            ft: None,
            ht: None,
            total: None,
            aggregate: None,
            total_unconfirmed: None,
            pen: None,
            et: None,
        };
        assert(s@ =~= Map::<ScoreKey, Score>::empty());
        s
    }

    /// Stores `score` under `key`, replacing the pair that was there, which is
    /// returned. No other key changes.
    pub fn insert(&mut self, key: ScoreKey, score: Score) -> (previous: Option<Score>)
        ensures
            previous == old(self).entry(key),
            final(self)@ == old(self)@.insert(key, score),
            final(self).entry(key) == Some(score),
            forall|k: ScoreKey| k != key ==> final(self).entry(k) == old(self).entry(k),
    {
        let previous = match key {
            ScoreKey::Ft => {
                let p = self.ft;
                self.ft = Some(score);
                p
            },
            ScoreKey::Ht => {
                let p = self.ht;
                self.ht = Some(score);
                p
            },
            ScoreKey::Total => {
                let p = self.total;
                self.total = Some(score);
                p
            },
            ScoreKey::Aggregate => {
                let p = self.aggregate;
                self.aggregate = Some(score);
                p
            },
            ScoreKey::TotalUnconfirmed => {
                let p = self.total_unconfirmed;
                self.total_unconfirmed = Some(score);
                p
            },
            ScoreKey::Pen => {
                let p = self.pen;
                self.pen = Some(score);
                p
            },
            ScoreKey::Et => {
                let p = self.et;
                self.et = Some(score);
                p
            },
        };
        assert(self@ =~= old(self)@.insert(key, score));
        previous
    }

    /// A reference to the pair stored under `key`, or `None` where the key
    /// is absent.
    pub fn get_ref(&self, key: ScoreKey) -> (found: Option<&Score>)
        ensures
            found is Some <==> self.entry(key) is Some,
            found matches Some(score) ==> Some(*score) == self.entry(key),
    {
        match key {
            ScoreKey::Ft => self.ft.as_ref(),
            ScoreKey::Ht => self.ht.as_ref(),
            ScoreKey::Total => self.total.as_ref(),
            ScoreKey::Aggregate => self.aggregate.as_ref(),
            ScoreKey::TotalUnconfirmed => self.total_unconfirmed.as_ref(),
            ScoreKey::Pen => self.pen.as_ref(),
            ScoreKey::Et => self.et.as_ref(),
        }
    }

    /// The pair stored under `key`, or `None` where the key is absent.
    pub fn get(&self, key: ScoreKey) -> (found: Option<Score>)
        ensures
            found == self.entry(key),
            found == (if self@.contains_key(key) {
                Some(self@[key])
            } else {
                None
            }),
    {
        match key {
            ScoreKey::Ft => self.ft,
            ScoreKey::Ht => self.ht,
            ScoreKey::Total => self.total,
            ScoreKey::Aggregate => self.aggregate,
            ScoreKey::TotalUnconfirmed => self.total_unconfirmed,
            ScoreKey::Pen => self.pen,
            ScoreKey::Et => self.et,
        }
    }
}

/// A country, as the data source names it.
#[derive(Debug, Clone, PartialEq, Eq)]
pub struct Country {
    pub id: String,
    pub full_name: String,
}

/// A competition and the country it is played in.
#[derive(Debug, Clone, PartialEq, Eq)]
pub struct Competition {
    pub id: String,
    pub name: String,
    pub country: Country,
}

/// One side of a match. Id and name are absent while the side is still to be
/// confirmed.
#[derive(Debug, Clone, PartialEq, Eq)]
pub struct Team {
    pub id: Option<String>,
    pub name: Option<String>,
}

/// What the data source says of a match as a whole.
#[derive(Debug, Clone, Copy, PartialEq, Eq, Structural)]
pub enum Status {
    Played,
    Fixture,
    Playing,
    Postponed,
}

/// How a kick in a penalty shoot-out ended.
#[derive(Debug, Clone, Copy, PartialEq, Eq, Structural)]
pub enum PenaltyOutcome {
    Saved,
    Scored,
    Missed,
}

/// The colour of a card.
#[derive(Debug, Clone, Copy, PartialEq, Eq, Structural)]
pub enum Card {
    Yellow,
    SecondYellow,
    Red,
}

/// How a goal came about.
#[derive(Debug, Clone, Copy, PartialEq, Eq, Structural)]
pub enum GoalType {
    Goal,
    Penalty,
    OwnGoal,
}

/// A kick in a penalty shoot-out.
#[derive(Debug, Clone, PartialEq, Eq)]
pub struct PenaltyEvent {
    pub period_id: u8,
    pub min: u16,
    pub time_str: Option<String>,
    pub team_id: String,
    pub player_id: String,
    pub player_name: String,
    pub outcome: PenaltyOutcome,
    pub pen_num: usize,
}

/// A review by the video assistant referee.
#[derive(Debug, Clone, PartialEq, Eq)]
pub struct VAREvent {
    pub period_id: u8,
    pub min: u16,
    pub time_str: Option<String>,
    pub team_id: String,
    pub player_id: String,
    pub player_name: String,
    pub var_type: String,
    pub outcome: Option<String>,
    pub decision: String,
}

/// A card shown to a player.
#[derive(Debug, Clone, PartialEq, Eq)]
pub struct CardEvent {
    pub period_id: u8,
    pub min: u16,
    pub time_str: Option<String>,
    pub player_name: Option<String>,
    pub reason: Option<String>,
    pub team_id: String,
    pub card_type: Card,
}

/// A goal. `team_id` is the side of the player who scored it, also for an own
/// goal.
#[derive(Debug, Clone, PartialEq, Eq)]
pub struct GoalEvent {
    pub period_id: u8,
    pub min: u16,
    pub time_str: Option<String>,
    pub team_id: String,
    pub player_id: String,
    pub player_name: String,
    pub player_2_name: Option<String>,
    pub goal_type: GoalType,
    pub score: Option<[u8; 2]>,
}

/// A substitution: `player_name` comes on, `player2_name` goes off.
#[derive(Debug, Clone, PartialEq, Eq)]
pub struct SubEvent {
    pub period_id: u8,
    pub min: u16,
    pub time_str: Option<String>,
    pub team_id: String,
    pub player_id: String,
    pub player_name: String,
    pub player2_id: String,
    pub player2_name: String,
}

/// Something that happened in a match.
#[derive(Debug, Clone, PartialEq, Eq)]
pub enum Event {
    Sub(SubEvent),
    Goal(GoalEvent),
    Card(CardEvent),
    Var(VAREvent),
    Pen(PenaltyEvent),
}

impl Event {
    /// The team id that the event carries, whatever its variant.
    pub open spec fn team_id(&self) -> String {
        match *self {
            Event::Sub(e) => e.team_id,
            Event::Goal(e) => e.team_id,
            Event::Card(e) => e.team_id,
            Event::Var(e) => e.team_id,
            Event::Pen(e) => e.team_id,
        }
    }

    /// The clock text that the event carries, whatever its variant.
    pub open spec fn time_str(&self) -> Option<String> {
        match *self {
            Event::Sub(e) => e.time_str,
            Event::Goal(e) => e.time_str,
            Event::Card(e) => e.time_str,
            Event::Var(e) => e.time_str,
            Event::Pen(e) => e.time_str,
        }
    }

    /// The id of the team the event is recorded for.
    pub fn get_team_id(&self) -> (id: &String)
        ensures
            *id == self.team_id(),
    {
        match self {
            Event::Sub(sub_event) => &sub_event.team_id,
            Event::Goal(goal_event) => &goal_event.team_id,
            Event::Card(card_event) => &card_event.team_id,
            Event::Var(var_event) => &var_event.team_id,
            Event::Pen(penalty_event) => &penalty_event.team_id,
        }
    }

    /// The event's clock text, where it has one.
    pub fn get_time_str(&self) -> (text: Option<&String>)
        ensures
            text is Some == self.time_str() is Some,
            text matches Some(t) ==> *t == self.time_str()->0,
    {
        match self {
            Event::Sub(sub_event) => sub_event.time_str.as_ref(),
            Event::Goal(goal_event) => goal_event.time_str.as_ref(),
            Event::Card(card_event) => card_event.time_str.as_ref(),
            Event::Var(var_event) => var_event.time_str.as_ref(),
            Event::Pen(penalty_event) => penalty_event.time_str.as_ref(),
        }
    }
}

/// One match as of one fetch.
///
/// `period` is the data source's code for the phase of play. `time` counts the
/// minutes played and is present only while play is in progress. `date` and
/// `updated` are seconds since the Unix epoch: kick-off and last change.
#[derive(Debug, Clone, PartialEq, Eq)]
pub struct Match {
    pub id: String,
    pub period: usize,
    pub time: Option<usize>,
    pub status: Status,
    pub comp: Competition,
    pub date: i64,
    pub home: Team,
    pub away: Team,
    pub score: Option<Scores>,
    pub events: Option<Vec<Event>>,
    pub updated: i64,
}

impl Match {
    /// The pair that the match holds under `key`: none where the match has no
    /// scores at all, or not this key.
    pub open spec fn score_of(&self, key: ScoreKey) -> Option<Score> {
        match self.score {
            Some(scores) => scores.entry(key),
            None => None,
        }
    }

    /// Looks up one score of the match.
    pub fn try_get_score(&self, score_key: &ScoreKey) -> (found: Option<&Score>)
        ensures
            found is Some <==> self.score_of(*score_key) is Some,
            found matches Some(score) ==> Some(*score) == self.score_of(*score_key),
    {
        match &self.score {
            Some(scores) => scores.get_ref(*score_key),
            None => None,
        }
    }
}

/// The matches of one calendar date as one fetch returned them, in the order
/// of the data source.
#[derive(Debug, Clone, PartialEq, Eq)]
pub struct LiveScoresResponse {
    pub matches: Vec<Match>,
}

impl View for LiveScoresResponse {
    type V = Seq<Match>;

    open spec fn view(&self) -> Seq<Match> {
        self.matches@
    }
}

} // verus!
