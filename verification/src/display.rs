//! The text shown for a match: in a row of the fixtures table and at the head
//! of the match page.
use crate::phase::{classify, resolve_score, Phase, ResolvedScore, ScoreReading};
use crate::text::{decimal_text, push_decimal, push_goals, str_view};
use crate::types::{Match, Score, Team};
use vstd::prelude::*;
use vstd::string::StringExecFns;

verus! {

/// A score pair: home goals, a dash, away goals.
pub open spec fn plain_pair(s: Score) -> Seq<char> {
    decimal_text(s.home as nat) + " - "@ + decimal_text(s.away as nat)
}

/// A score pair with the aggregate of each side in square brackets behind its
/// goals, `gap` standing between the goals and the bracket.
pub open spec fn aggregate_pair(s: Score, a: Score, gap: Seq<char>) -> Seq<char> {
    decimal_text(s.home as nat) + gap + "["@ + decimal_text(a.home as nat) + "] - "@ + decimal_text(
        s.away as nat,
    ) + gap + "["@ + decimal_text(a.away as nat) + "]"@
}

/// What stands between two sides that have not played yet: the aggregates
/// round a `v`, or the `v` alone.
pub open spec fn versus_text(aggregate: Option<Score>) -> Seq<char> {
    match aggregate {
        Some(a) => "["@ + decimal_text(a.home as nat) + "] v ["@ + decimal_text(a.away as nat)
            + "]"@,
        None => "v"@,
    }
}

/// A score pair, with the aggregate of each side in square brackets behind
/// its goals where there is an aggregate.
pub open spec fn pair_text(s: Score, aggregate: Option<Score>) -> Seq<char> {
    match aggregate {
        Some(a) => aggregate_pair(s, a, " "@),
        None => plain_pair(s),
    }
}

/// The score of a half that has ended, or three question marks where the
/// data source sent none.
pub open spec fn settled_text(resolved: ResolvedScore) -> Seq<char> {
    match resolved.current {
        ScoreReading::Confirmed(s) | ScoreReading::Unconfirmed(s) => pair_text(
            s,
            resolved.aggregate,
        ),
        _ => "???"@,
    }
}

/// The score of a match in play. An unconfirmed score ends in `(*)`; so does
/// any score that is shown with an aggregate.
pub open spec fn running_text(resolved: ResolvedScore) -> Seq<char> {
    match resolved.current {
        ScoreReading::Unconfirmed(s) => match resolved.aggregate {
            Some(a) => aggregate_pair(s, a, ""@) + " (*)"@,
            None => plain_pair(s) + " (*)"@,
        },
        ScoreReading::Confirmed(s) => match resolved.aggregate {
            Some(a) => aggregate_pair(s, a, " "@) + " (*)"@,
            None => plain_pair(s),
        },
        _ => "???"@,
    }
}

/// The middle cell of a table row: the score of the phase where the phase
/// has one, a `v` between the sides where it has none, each with the
/// aggregate where there is one, and a question mark for an unknown period
/// code.
pub open spec fn row_center_text(phase: Phase, resolved: ResolvedScore) -> Seq<char> {
    match phase {
        Phase::InPlay(_) => running_text(resolved),
        Phase::HalfTime | Phase::FullTime => settled_text(resolved),
        Phase::Pending(_) | Phase::ExtraTime | Phase::Penalties | Phase::Postponed => versus_text(
            resolved.aggregate,
        ),
        Phase::Unknown(_) => "?"@,
    }
}

/// The text of a phase, which stands in the first cell of a table row and
/// above the score on the match page: the minute in play, the kick-off clock
/// before the start, a word for every other phase, and a question mark for
/// an unknown period code and for a kick-off without a clock.
pub open spec fn row_state_text(phase: Phase, clock: Option<Seq<char>>) -> Seq<char> {
    match phase {
        Phase::InPlay(minutes) => decimal_text(minutes as nat) + "'"@,
        Phase::Pending(_) => match clock {
            Some(c) => c,
            None => "?"@,
        },
        Phase::HalfTime => "ht"@,
        Phase::FullTime => "ft"@,
        Phase::ExtraTime => "et"@,
        Phase::Penalties => "penalties"@,
        Phase::Postponed => "postponed"@,
        Phase::Unknown(_) => "?"@,
    }
}

/// The name to show for a side: its own, or `tbc` while it is unknown.
pub open spec fn team_label(team: Team) -> Seq<char> {
    match team.name {
        Some(name) => name@,
        None => "tbc"@,
    }
}

/// The two texts of a table row.
#[derive(Debug, Clone, PartialEq, Eq)]
pub struct RowText {
    pub state_text: String,
    pub center_text: String,
}

/// Writes a score pair.
pub fn plain_pair_text(s: Score) -> (text: String)
    ensures
        text@ == plain_pair(s),
{
    let mut text = String::new();
    push_goals(&mut text, s.home);
    text.append(" - ");
    push_goals(&mut text, s.away);
    assert(text@ =~= plain_pair(s));
    text
}

/// Writes a score pair with its aggregate.
pub fn aggregate_pair_text(s: Score, a: Score, gap: &str) -> (text: String)
    ensures
        text@ == aggregate_pair(s, a, gap@),
{
    let mut text = String::new();
    push_goals(&mut text, s.home);
    text.append(gap);
    text.append("[");
    push_goals(&mut text, a.home);
    text.append("] - ");
    push_goals(&mut text, s.away);
    text.append(gap);
    text.append("[");
    push_goals(&mut text, a.away);
    text.append("]");
    assert(text@ =~= aggregate_pair(s, a, gap@));
    text
}

/// Writes what stands between two sides that have not played yet.
pub fn versus(aggregate: Option<Score>) -> (text: String)
    ensures
        text@ == versus_text(aggregate),
{
    match aggregate {
        Some(a) => {
            let mut text = String::from_str("[");
            push_goals(&mut text, a.home);
            text.append("] v [");
            push_goals(&mut text, a.away);
            text.append("]");
            text
        },
        None => String::from_str("v"),
    }
}

/// Writes a score pair, with the aggregate where there is one.
pub fn pair(s: Score, aggregate: Option<Score>) -> (text: String)
    ensures
        text@ == pair_text(s, aggregate),
{
    match aggregate {
        Some(a) => aggregate_pair_text(s, a, " "),
        None => plain_pair_text(s),
    }
}

/// Writes the score of a half that has ended.
pub fn settled(resolved: ResolvedScore) -> (text: String)
    ensures
        text@ == settled_text(resolved),
{
    match resolved.current {
        ScoreReading::Confirmed(s) | ScoreReading::Unconfirmed(s) => pair(s, resolved.aggregate),
        _ => String::from_str("???"),
    }
}

/// Writes the score of a match in play.
pub fn running(resolved: ResolvedScore) -> (text: String)
    ensures
        text@ == running_text(resolved),
{
    match resolved.current {
        ScoreReading::Unconfirmed(s) => {
            let mut text = match resolved.aggregate {
                Some(a) => aggregate_pair_text(s, a, ""),
                None => plain_pair_text(s),
            };
            text.append(" (*)");
            text
        },
        ScoreReading::Confirmed(s) => match resolved.aggregate {
            Some(a) => {
                let mut text = aggregate_pair_text(s, a, " ");
                text.append(" (*)");
                text
            },
            None => plain_pair_text(s),
        },
        _ => String::from_str("???"),
    }
}

/// Writes the middle cell of a table row.
pub fn center_text(phase: Phase, resolved: ResolvedScore) -> (text: String)
    ensures
        text@ == row_center_text(phase, resolved),
{
    match phase {
        Phase::InPlay(_) => running(resolved),
        Phase::HalfTime | Phase::FullTime => settled(resolved),
        Phase::Pending(_) | Phase::ExtraTime | Phase::Penalties | Phase::Postponed => versus(
            resolved.aggregate,
        ),
        Phase::Unknown(_) => String::from_str("?"),
    }
}

/// Writes the first cell of a table row. `clock` is the kick-off as the
/// reader's clock shows it; it is used for a match that has yet to start.
pub fn state_text(phase: Phase, clock: Option<&str>) -> (text: String)
    ensures
        text@ == row_state_text(phase, str_view(clock)),
{
    match phase {
        Phase::InPlay(minutes) => {
            let mut text = String::new();
            push_decimal(&mut text, minutes);
            text.append("'");
            assert(text@ =~= decimal_text(minutes as nat) + "'"@);
            text
        },
        Phase::Pending(_) => match clock {
            Some(c) => String::from_str(c),
            None => String::from_str("?"),
        },
        Phase::HalfTime => String::from_str("ht"),
        Phase::FullTime => String::from_str("ft"),
        Phase::ExtraTime => String::from_str("et"),
        Phase::Penalties => String::from_str("penalties"),
        Phase::Postponed => String::from_str("postponed"),
        Phase::Unknown(_) => String::from_str("?"),
    }
}

/// The name to show for a side.
pub fn format_team_name(team: &Team) -> (text: String)
    ensures
        text@ == team_label(*team),
{
    match &team.name {
        Some(name) => name.clone(),
        None => String::from_str("tbc"),
    }
}

/// The texts of the table row of `fixture`, given its kick-off clock.
pub fn row_text(fixture: &Match, clock: Option<&str>) -> (row: RowText)
    ensures
        row.state_text@ == row_state_text(crate::phase::phase_of(*fixture), str_view(clock)),
        row.center_text@ == row_center_text(
            crate::phase::phase_of(*fixture),
            crate::phase::resolved_score_of(*fixture),
        ),
{
    let phase = classify(fixture);
    let resolved = resolve_score(fixture);
    RowText { state_text: state_text(phase, clock), center_text: center_text(phase, resolved) }
}

/// The kick-off as the clock on this machine shows it, hours and minutes.
///
/// Trusted: calls chrono's `DateTime::from_timestamp`, `with_timezone` for
/// `Local`, `time` and `format`. The text depends on the machine's time zone,
/// so nothing is claimed of it. It is `None` where chrono has no date for
/// `kickoff`.
#[verifier::external_body]
fn kickoff_clock(kickoff: i64) -> (clock: Option<String>) {
    match chrono::DateTime::from_timestamp(kickoff, 0) {
        Some(utc) => Some(utc.with_timezone(&chrono::Local).time().format("%H:%M").to_string()),
        None => None,
    }
}

/// The texts of the table row of `fixture`. For a match that has yet to start
/// the first cell holds the kick-off as this machine's clock shows it; every
/// other text is fixed by the match alone.
pub fn build_row(fixture: &Match) -> (row: RowText)
    ensures
        row.center_text@ == row_center_text(
            crate::phase::phase_of(*fixture),
            crate::phase::resolved_score_of(*fixture),
        ),
        crate::phase::phase_of(*fixture) !is Pending ==> row.state_text@ == row_state_text(
            crate::phase::phase_of(*fixture),
            None,
        ),
{
    match classify(fixture) {
        Phase::Pending(kickoff) => match kickoff_clock(kickoff) {
            Some(clock) => row_text(fixture, Some(clock.as_str())),
            None => row_text(fixture, None),
        },
        _ => row_text(fixture, None),
    }
}

/// What stands between two sides on the match page where the phase has no
/// score of its own: the aggregates round a `vs`, or the `vs` alone.
pub open spec fn facing_text(aggregate: Option<Score>) -> Seq<char> {
    match aggregate {
        Some(a) => "["@ + decimal_text(a.home as nat) + "] vs ["@ + decimal_text(a.away as nat)
            + "]"@,
        None => "vs"@,
    }
}

/// The score on the match page. In play it is the score of the phase, marked
/// with `(*)` while unconfirmed; at half time and full time the score of that
/// name; three question marks where the score of the phase is missing. A
/// phase without a score of its own has `vs`. The aggregate stands beside
/// each of them where there is one. An unknown period code has a question
/// mark.
pub open spec fn overview_score_text(phase: Phase, resolved: ResolvedScore) -> Seq<char> {
    match phase {
        Phase::InPlay(_) => match resolved.current {
            ScoreReading::Unconfirmed(s) => pair_text(s, resolved.aggregate) + " (*)"@,
            ScoreReading::Confirmed(s) => pair_text(s, resolved.aggregate),
            _ => "???"@,
        },
        Phase::HalfTime | Phase::FullTime => settled_text(resolved),
        Phase::Pending(_) | Phase::ExtraTime | Phase::Penalties | Phase::Postponed => facing_text(
            resolved.aggregate,
        ),
        Phase::Unknown(_) => "?"@,
    }
}

/// The texts at the head of the match page: the two sides, the text of the
/// phase and the score.
#[derive(Debug, Clone, PartialEq, Eq)]
pub struct OverviewText {
    pub home: String,
    pub away: String,
    pub status: String,
    pub score: String,
}

/// Writes what stands between two sides on the match page.
pub fn facing(aggregate: Option<Score>) -> (text: String)
    ensures
        text@ == facing_text(aggregate),
{
    match aggregate {
        Some(a) => {
            let mut text = String::from_str("[");
            push_goals(&mut text, a.home);
            text.append("] vs [");
            push_goals(&mut text, a.away);
            text.append("]");
            text
        },
        None => String::from_str("vs"),
    }
}

/// Writes the score on the match page.
pub fn overview_score(phase: Phase, resolved: ResolvedScore) -> (text: String)
    ensures
        text@ == overview_score_text(phase, resolved),
{
    match phase {
        Phase::InPlay(_) => match resolved.current {
            ScoreReading::Unconfirmed(s) => {
                let mut text = pair(s, resolved.aggregate);
                text.append(" (*)");
                text
            },
            ScoreReading::Confirmed(s) => pair(s, resolved.aggregate),
            _ => String::from_str("???"),
        },
        Phase::HalfTime | Phase::FullTime => settled(resolved),
        Phase::Pending(_) | Phase::ExtraTime | Phase::Penalties | Phase::Postponed => facing(
            resolved.aggregate,
        ),
        Phase::Unknown(_) => String::from_str("?"),
    }
}

/// The texts at the head of the page of `match_data`, given its kick-off
/// clock.
pub fn overview_text(match_data: &Match, clock: Option<&str>) -> (head: OverviewText)
    ensures
        head.home@ == team_label(match_data.home),
        head.away@ == team_label(match_data.away),
        head.status@ == row_state_text(crate::phase::phase_of(*match_data), str_view(clock)),
        head.score@ == overview_score_text(
            crate::phase::phase_of(*match_data),
            crate::phase::resolved_score_of(*match_data),
        ),
{
    let phase = classify(match_data);
    let resolved = resolve_score(match_data);
    OverviewText {
        home: format_team_name(&match_data.home),
        away: format_team_name(&match_data.away),
        status: state_text(phase, clock),
        score: overview_score(phase, resolved),
    }
}

/// The texts at the head of the page of `match_data`. Before kick-off the
/// status is the kick-off as this machine's clock shows it; every other text
/// is fixed by the match alone.
pub fn draw_overview(match_data: &Match) -> (head: OverviewText)
    ensures
        head.home@ == team_label(match_data.home),
        head.away@ == team_label(match_data.away),
        head.score@ == overview_score_text(
            crate::phase::phase_of(*match_data),
            crate::phase::resolved_score_of(*match_data),
        ),
        crate::phase::phase_of(*match_data) !is Pending ==> head.status@ == row_state_text(
            crate::phase::phase_of(*match_data),
            None,
        ),
{
    match classify(match_data) {
        Phase::Pending(kickoff) => match kickoff_clock(kickoff) {
            Some(clock) => overview_text(match_data, Some(clock.as_str())),
            None => overview_text(match_data, None),
        },
        _ => overview_text(match_data, None),
    }
}

} // verus!
