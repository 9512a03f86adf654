//! The events of a match as lines of the match page: on which side of the
//! page a line stands, its sign and its text.
use crate::types::{Card, CardEvent, Event, GoalEvent, GoalType, PenaltyEvent, PenaltyOutcome,
    SubEvent, VAREvent};
use vstd::prelude::*;
use vstd::string::StringExecFns;

verus! {

/// The side of the page on which an event is shown.
#[derive(Debug, Clone, Copy, PartialEq, Eq, Structural)]
pub enum EventSide {
    Home,
    Away,
}

impl EventSide {
    /// The other side.
    pub open spec fn opposite(self) -> EventSide {
        match self {
            EventSide::Home => EventSide::Away,
            EventSide::Away => EventSide::Home,
        }
    }
}

/// Whether `team_id` is the id of the home team. It is not while the home
/// team is unknown.
pub open spec fn is_home_team(team_id: String, home_team_id: Option<&String>) -> bool {
    match home_team_id {
        Some(home) => home@ == team_id@,
        None => false,
    }
}

/// The side of the team an event is recorded for: home where its id is the
/// home team's, away in every other case.
pub open spec fn team_side(team_id: String, home_team_id: Option<&String>) -> EventSide {
    if is_home_team(team_id, home_team_id) {
        EventSide::Home
    } else {
        EventSide::Away
    }
}

/// Whether the event is an own goal.
pub open spec fn is_own_goal(event: Event) -> bool {
    event matches Event::Goal(goal) && goal.goal_type == GoalType::OwnGoal
}

/// The side on which an event is shown: the side of its team, but for an own
/// goal, which is shown on the side that it counts for.
pub open spec fn side_of(event: Event, home_team_id: Option<&String>) -> EventSide {
    if is_own_goal(event) {
        team_side(event.team_id(), home_team_id).opposite()
    } else {
        team_side(event.team_id(), home_team_id)
    }
}

/// Tells the side of a team from its id.
pub fn side_of_team(team_id: &String, home_team_id: Option<&String>) -> (side: EventSide)
    ensures
        side == team_side(*team_id, home_team_id),
{
    match home_team_id {
        Some(home) => {
            if *home == *team_id {
                EventSide::Home
            } else {
                EventSide::Away
            }
        },
        None => EventSide::Away,
    }
}

/// Tells the side on which an event is shown.
pub fn event_side(event: &Event, home_team_id: Option<&String>) -> (side: EventSide)
    ensures
        side == side_of(*event, home_team_id),
{
    let own = side_of_team(event.get_team_id(), home_team_id);
    match event {
        Event::Goal(goal) => match goal.goal_type {
            GoalType::OwnGoal => match own {
                EventSide::Home => EventSide::Away,
                EventSide::Away => EventSide::Home,
            },
            _ => own,
        },
        _ => own,
    }
}

/// An own goal by a player of any team but the home team is shown on the home
/// side, and one by a player of the home team on the away side.
pub proof fn lemma_own_goal_inverted(goal: GoalEvent, home_team_id: Option<&String>)
    requires
        goal.goal_type == GoalType::OwnGoal,
    ensures
        !is_home_team(goal.team_id, home_team_id) ==> side_of(Event::Goal(goal), home_team_id)
            == EventSide::Home,
        is_home_team(goal.team_id, home_team_id) ==> side_of(Event::Goal(goal), home_team_id)
            == EventSide::Away,
{
}

/// Every event but an own goal is shown on the side of its team: home exactly
/// when its team id is the home team's.
pub proof fn lemma_side_follows_team(event: Event, home_team_id: Option<&String>)
    requires
        !is_own_goal(event),
    ensures
        side_of(event, home_team_id) == EventSide::Home <==> is_home_team(
            event.team_id(),
            home_team_id,
        ),
{
}

/// The words before the scorer's name.
pub open spec fn goal_prefix(goal_type: GoalType) -> Seq<char> {
    match goal_type {
        GoalType::Goal => "Goal"@,
        GoalType::Penalty => "Goal (p)"@,
        GoalType::OwnGoal => "Goal (og)"@,
    }
}

/// The text of a goal: how it came about, the scorer, and the assist where
/// there was one.
pub open spec fn goal_text(goal: GoalEvent) -> Seq<char> {
    match goal.player_2_name {
        Some(assist) => goal_prefix(goal.goal_type) + ": "@ + goal.player_name@ + ", Assist: "@
            + assist@,
        None => goal_prefix(goal.goal_type) + ": "@ + goal.player_name@,
    }
}

/// The text of a kick in a shoot-out: the taker and the outcome.
pub open spec fn penalty_text(penalty: PenaltyEvent) -> Seq<char> {
    match penalty.outcome {
        PenaltyOutcome::Saved => penalty.player_name@ + ": Saved"@,
        PenaltyOutcome::Scored => penalty.player_name@ + ": Scored"@,
        PenaltyOutcome::Missed => penalty.player_name@ + ": Missed"@,
    }
}

/// The sign of a kick in a shoot-out.
pub open spec fn penalty_sign(outcome: PenaltyOutcome) -> Seq<char> {
    match outcome {
        PenaltyOutcome::Scored => "✅"@,
        _ => "❌"@,
    }
}

/// The text of a review: what was reviewed, the player, the decision and the
/// outcome, which is left empty where none is given.
pub open spec fn var_text(review: VAREvent) -> Seq<char> {
    review.var_type@ + " ("@ + review.player_name@ + ") -> "@ + review.decision@ + ": "@ + (
    match review.outcome {
        Some(outcome) => outcome@,
        None => Seq::<char>::empty(),
    })
}

/// The text of a card: the player, and the reason in brackets where one is
/// given. A player without a name is shown as an empty name.
pub open spec fn card_text(card: CardEvent) -> Seq<char> {
    let player = match card.player_name {
        Some(name) => name@,
        None => Seq::<char>::empty(),
    };
    match card.reason {
        Some(reason) => player + " ("@ + reason@ + ")"@,
        None => player + " "@,
    }
}

/// The sign of a card.
pub open spec fn card_sign(card_type: Card) -> Seq<char> {
    match card_type {
        Card::Yellow => "🟨"@,
        Card::SecondYellow => "🟨🟨 (🟥)"@,
        Card::Red => "🟥"@,
    }
}

/// The text of a substitution.
pub open spec fn sub_text(sub: SubEvent) -> Seq<char> {
    "On: "@ + sub.player_name@ + ", Off: "@ + sub.player2_name@
}

/// The sign of an event.
pub open spec fn sign_of(event: Event) -> Seq<char> {
    match event {
        Event::Sub(_) => "🔄"@,
        Event::Goal(_) => "⚽"@,
        Event::Card(card) => card_sign(card.card_type),
        Event::Var(_) => "🔎"@,
        Event::Pen(penalty) => penalty_sign(penalty.outcome),
    }
}

/// The text of an event.
pub open spec fn text_of(event: Event) -> Seq<char> {
    match event {
        Event::Sub(sub) => sub_text(sub),
        Event::Goal(goal) => goal_text(goal),
        Event::Card(card) => card_text(card),
        Event::Var(review) => var_text(review),
        Event::Pen(penalty) => penalty_text(penalty),
    }
}

/// The clock text of an event, empty where it has none.
pub open spec fn clock_of(event: Event) -> Seq<char> {
    match event.time_str() {
        Some(text) => text@,
        None => Seq::<char>::empty(),
    }
}

/// One event as a line of the match page.
#[derive(Debug, Clone, PartialEq, Eq)]
pub struct EventLine {
    pub emoji: &'static str,
    pub text: String,
    pub time: String,
    pub side: EventSide,
}

impl EventLine {
    /// Whether the line shows `event` of a match whose home team has the id
    /// `home_team_id`.
    pub open spec fn shows(&self, event: Event, home_team_id: Option<&String>) -> bool {
        &&& self.emoji@ == sign_of(event)
        &&& self.text@ == text_of(event)
        &&& self.time@ == clock_of(event)
        &&& self.side == side_of(event, home_team_id)
    }
}

/// Writes the text of a goal.
pub fn format_goal_text(goal_event: &GoalEvent) -> (text: String)
    ensures
        text@ == goal_text(*goal_event),
{
    let prefix = match goal_event.goal_type {
        GoalType::Goal => "Goal",
        GoalType::Penalty => "Goal (p)",
        GoalType::OwnGoal => "Goal (og)",
    };
    let mut text = String::from_str(prefix);
    text.append(": ");
    text.append(goal_event.player_name.as_str());
    match &goal_event.player_2_name {
        Some(player_2_name) => {
            text.append(", Assist: ");
            text.append(player_2_name.as_str());
        },
        None => {},
    }
    text
}

/// The sign, text and side of a kick in a shoot-out.
pub fn build_penalty_event(penalty_event: &PenaltyEvent, home_team_id: Option<&String>) -> (line: (
    &'static str,
    String,
    EventSide,
))
    ensures
        line.0@ == penalty_sign(penalty_event.outcome),
        line.1@ == penalty_text(*penalty_event),
        line.2 == team_side(penalty_event.team_id, home_team_id),
{
    let event_side = side_of_team(&penalty_event.team_id, home_team_id);
    let mut text = penalty_event.player_name.clone();
    let emoji = match penalty_event.outcome {
        PenaltyOutcome::Saved => {
            text.append(": Saved");
            "❌"
        },
        PenaltyOutcome::Scored => {
            text.append(": Scored");
            "✅"
        },
        PenaltyOutcome::Missed => {
            text.append(": Missed");
            "❌"
        },
    };
    (emoji, text, event_side)
}

/// The sign, text and side of a review.
pub fn build_var_event(var_event: &VAREvent, home_team_id: Option<&String>) -> (line: (
    &'static str,
    String,
    EventSide,
))
    ensures
        line.0@ == "🔎"@,
        line.1@ == var_text(*var_event),
        line.2 == team_side(var_event.team_id, home_team_id),
{
    let event_side = side_of_team(&var_event.team_id, home_team_id);
    let mut text = var_event.var_type.clone();
    text.append(" (");
    text.append(var_event.player_name.as_str());
    text.append(") -> ");
    text.append(var_event.decision.as_str());
    text.append(": ");
    match &var_event.outcome {
        Some(outcome) => {
            text.append(outcome.as_str());
        },
        None => {
            assert(text@ + Seq::<char>::empty() =~= text@);
        },
    }
    ("🔎", text, event_side)
}

/// The sign, text and side of a card.
pub fn build_card_event(card_event: &CardEvent, home_team_id: Option<&String>) -> (line: (
    &'static str,
    String,
    EventSide,
))
    ensures
        line.0@ == card_sign(card_event.card_type),
        line.1@ == card_text(*card_event),
        line.2 == team_side(card_event.team_id, home_team_id),
{
    let event_side = side_of_team(&card_event.team_id, home_team_id);
    let emoji = match card_event.card_type {
        Card::Yellow => "🟨",
        Card::SecondYellow => "🟨🟨 (🟥)",
        Card::Red => "🟥",
    };
    let mut text = match &card_event.player_name {
        Some(name) => name.clone(),
        None => String::new(),
    };
    match &card_event.reason {
        Some(reason) => {
            text.append(" (");
            text.append(reason.as_str());
            text.append(")");
        },
        None => {
            text.append(" ");
        },
    }
    (emoji, text, event_side)
}

/// The sign, text and side of a substitution.
pub fn build_sub_event(sub_event: &SubEvent, home_team_id: Option<&String>) -> (line: (
    &'static str,
    String,
    EventSide,
))
    ensures
        line.0@ == "🔄"@,
        line.1@ == sub_text(*sub_event),
        line.2 == team_side(sub_event.team_id, home_team_id),
{
    let event_side = side_of_team(&sub_event.team_id, home_team_id);
    let mut text = String::from_str("On: ");
    text.append(sub_event.player_name.as_str());
    text.append(", Off: ");
    text.append(sub_event.player2_name.as_str());
    ("🔄", text, event_side)
}

/// The sign, text and side of a goal. An own goal stands on the side
/// opposite to its team's.
pub fn build_goal_event(goal_event: &GoalEvent, home_team_id: Option<&String>) -> (line: (
    &'static str,
    String,
    EventSide,
))
    ensures
        line.0@ == "⚽"@,
        line.1@ == goal_text(*goal_event),
        line.2 == side_of(Event::Goal(*goal_event), home_team_id),
{
    let own = side_of_team(&goal_event.team_id, home_team_id);
    let event_side = match goal_event.goal_type {
        GoalType::OwnGoal => match own {
            EventSide::Home => EventSide::Away,
            EventSide::Away => EventSide::Home,
        },
        _ => own,
    };
    ("⚽", format_goal_text(goal_event), event_side)
}

/// Turns an event into a line of the match page.
pub fn render_event(event: &Event, home_team_id: Option<&String>) -> (line: EventLine)
    ensures
        line.shows(*event, home_team_id),
{
    let (emoji, text, side) = match event {
        Event::Sub(sub_event) => build_sub_event(sub_event, home_team_id),
        Event::Goal(goal_event) => build_goal_event(goal_event, home_team_id),
        Event::Card(card_event) => build_card_event(card_event, home_team_id),
        Event::Var(var_event) => build_var_event(var_event, home_team_id),
        Event::Pen(penalty_event) => build_penalty_event(penalty_event, home_team_id),
    };
    let time = match event.get_time_str() {
        Some(clock) => clock.clone(),
        None => String::new(),
    };
    EventLine { emoji, text, time, side }
}

/// Whether `lines` shows `events` one for one and in order.
pub open spec fn lines_show(
    lines: Seq<EventLine>,
    events: Seq<Event>,
    home_team_id: Option<&String>,
) -> bool {
    &&& lines.len() == events.len()
    &&& forall|i: int| 0 <= i < events.len() ==> (#[trigger] lines[i]).shows(events[i], home_team_id)
}

/// Turns the events of a match into the lines of the match page, one per
/// event and in the order of the events.
pub fn draw_events(events: &Vec<Event>, home_team_id: Option<&String>) -> (lines: Vec<EventLine>)
    ensures
        lines_show(lines@, events@, home_team_id),
{
    let mut lines: Vec<EventLine> = Vec::new();
    let mut i: usize = 0;
    while i < events.len()
        invariant
            i <= events.len(),
            lines_show(lines@, events@.take(i as int), home_team_id),
        decreases events.len() - i,
    {
        let line = render_event(&events[i], home_team_id);
        lines.push(line);
        i = i + 1;
    }
    assert(events@.take(i as int) =~= events@);
    lines
}

} // verus!
