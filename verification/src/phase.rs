//! The phase a match is in and the score that counts in that phase.
use crate::types::{Match, Score, ScoreKey};
use vstd::prelude::*;

verus! {

/// Period code of the first half.
pub const FIRST_HALF: usize = 1;

/// Period code of the second half.
pub const SECOND_HALF: usize = 2;

/// Period code of the first half of extra time.
pub const EXTRA_FIRST_HALF: usize = 3;

/// Period code of the second half of extra time.
pub const EXTRA_SECOND_HALF: usize = 4;

/// Period code of the penalty shoot-out.
pub const SHOOT_OUT: usize = 5;

/// Period code of the half-time break.
pub const HALF_TIME: usize = 10;

/// Period code of a match that has ended.
pub const FULL_TIME: usize = 14;

/// Period code of a match that has yet to start.
pub const PRE_MATCH: usize = 16;

/// Where a match stands.
#[derive(Debug, Clone, Copy, PartialEq, Eq, Structural)]
pub enum Phase {
    /// Not started; holds the kick-off, in seconds since the Unix epoch.
    Pending(i64),
    /// First or second half; holds the minutes played.
    InPlay(usize),
    HalfTime,
    FullTime,
    ExtraTime,
    Penalties,
    /// Put off to another day. No period code names this phase; it is for
    /// those who know of a postponement by other means.
    Postponed,
    /// A period code this library does not know; holds the code.
    Unknown(usize),
}

/// Whether `period` is one of the codes that name a phase.
pub open spec fn known_period(period: usize) -> bool {
    ||| period == FIRST_HALF
    ||| period == SECOND_HALF
    ||| period == EXTRA_FIRST_HALF
    ||| period == EXTRA_SECOND_HALF
    ||| period == SHOOT_OUT
    ||| period == HALF_TIME
    ||| period == FULL_TIME
    ||| period == PRE_MATCH
}

/// The phase that a period code names. `minutes` is the match's minute
/// counter, read as zero where it is absent; `kickoff` its kick-off.
pub open spec fn phase_of_period(period: usize, minutes: Option<usize>, kickoff: i64) -> Phase {
    if period == FIRST_HALF || period == SECOND_HALF {
        Phase::InPlay(
            match minutes {
                Some(t) => t,
                None => 0,
            },
        )
    } else if period == EXTRA_FIRST_HALF || period == EXTRA_SECOND_HALF {
        Phase::ExtraTime
    } else if period == SHOOT_OUT {
        Phase::Penalties
    } else if period == HALF_TIME {
        Phase::HalfTime
    } else if period == FULL_TIME {
        Phase::FullTime
    } else if period == PRE_MATCH {
        Phase::Pending(kickoff)
    } else {
        Phase::Unknown(period)
    }
}

/// The phase of a match: the phase that its period code names.
pub open spec fn phase_of(m: Match) -> Phase {
    phase_of_period(m.period, m.time, m.date)
}

/// Classifies a period code. Every code has a phase: one that names none is
/// kept in `Phase::Unknown`.
pub fn classify_period(period: usize, minutes: Option<usize>, kickoff: i64) -> (phase: Phase)
    ensures
        phase == phase_of_period(period, minutes, kickoff),
        phase is Unknown <==> !known_period(period),
        phase matches Phase::Unknown(code) ==> code == period,
        phase !is Postponed,
{
    if period == FIRST_HALF || period == SECOND_HALF {
        let played: usize = match minutes {
            Some(t) => t,
            None => 0,
        };
        Phase::InPlay(played)
    } else if period == EXTRA_FIRST_HALF || period == EXTRA_SECOND_HALF {
        Phase::ExtraTime
    } else if period == SHOOT_OUT {
        Phase::Penalties
    } else if period == HALF_TIME {
        Phase::HalfTime
    } else if period == FULL_TIME {
        Phase::FullTime
    } else if period == PRE_MATCH {
        Phase::Pending(kickoff)
    } else {
        Phase::Unknown(period)
    }
}

/// Classifies a match by its period code, whatever else the match holds.
pub fn classify(m: &Match) -> (phase: Phase)
    ensures
        phase == phase_of(*m),
        phase == phase_of_period(m.period, m.time, m.date),
        phase is Unknown <==> !known_period(m.period),
        phase matches Phase::Unknown(code) ==> code == m.period,
{
    classify_period(m.period, m.time, m.date)
}

/// Every period code is classified: a code that names a phase gives that
/// phase, and any other code, however large, is kept in `Phase::Unknown`
/// together with the code. The phase rests on the period code, the minute
/// counter and the kick-off alone.
pub proof fn lemma_classification_total(m: Match, n: Match)
    ensures
        known_period(m.period) ==> phase_of(m) !is Unknown,
        !known_period(m.period) ==> phase_of(m) == Phase::Unknown(m.period),
        m.period == n.period && m.time == n.time && m.date == n.date ==> phase_of(m) == phase_of(n),
{
}

/// What is known of the score that counts in the current phase.
#[derive(Debug, Clone, Copy, PartialEq, Eq, Structural)]
pub enum ScoreReading {
    /// The score stands.
    Confirmed(Score),
    /// A goal was scored that the officials have not confirmed yet.
    Unconfirmed(Score),
    /// The phase has a score, but the data source sent none.
    Missing,
    /// The phase has no score of its own.
    NotDue,
}

/// The score to show for a match: the one of its phase and, beside it, the
/// aggregate of a two-legged tie where there is one.
#[derive(Debug, Clone, Copy, PartialEq, Eq, Structural)]
pub struct ResolvedScore {
    pub current: ScoreReading,
    pub aggregate: Option<Score>,
}

/// A confirmed reading of the pair under `key`, or `Missing`.
pub open spec fn reading_of(m: Match, key: ScoreKey) -> ScoreReading {
    match m.score_of(key) {
        Some(s) => ScoreReading::Confirmed(s),
        None => ScoreReading::Missing,
    }
}

/// The score of the phase. In play the unconfirmed total goes before the
/// total; at half time and full time the key of that name counts; the other
/// phases have none.
pub open spec fn current_score_of(m: Match) -> ScoreReading {
    match phase_of(m) {
        Phase::InPlay(_) => match m.score_of(ScoreKey::TotalUnconfirmed) {
            Some(s) => ScoreReading::Unconfirmed(s),
            None => reading_of(m, ScoreKey::Total),
        },
        Phase::HalfTime => reading_of(m, ScoreKey::Ht),
        Phase::FullTime => reading_of(m, ScoreKey::Ft),
        _ => ScoreReading::NotDue,
    }
}

/// The resolved score of a match.
pub open spec fn resolved_score_of(m: Match) -> ResolvedScore {
    ResolvedScore { current: current_score_of(m), aggregate: m.score_of(ScoreKey::Aggregate) }
}

/// Reads the pair under `key` as a confirmed score.
fn read_confirmed(m: &Match, key: ScoreKey) -> (reading: ScoreReading)
    ensures
        reading == reading_of(*m, key),
{
    match m.try_get_score(&key) {
        Some(s) => ScoreReading::Confirmed(*s),
        None => ScoreReading::Missing,
    }
}

/// Resolves the score of a match. A score that the phase should have and the
/// data lacks is reported as `Missing`; the aggregate never takes its place.
pub fn resolve_score(m: &Match) -> (resolved: ResolvedScore)
    ensures
        resolved == resolved_score_of(*m),
{
    let current = match classify(m) {
        Phase::InPlay(_) => match m.try_get_score(&ScoreKey::TotalUnconfirmed) {
            Some(s) => ScoreReading::Unconfirmed(*s),
            None => read_confirmed(m, ScoreKey::Total),
        },
        Phase::HalfTime => read_confirmed(m, ScoreKey::Ht),
        Phase::FullTime => read_confirmed(m, ScoreKey::Ft),
        _ => ScoreReading::NotDue,
    };
    let aggregate = match m.try_get_score(&ScoreKey::Aggregate) {
        Some(a) => Some(*a),
        None => None,
    };
    ResolvedScore { current, aggregate }
}

/// While a match is in play, an unconfirmed total is shown whatever the total
/// says, and is marked as unconfirmed.
pub proof fn lemma_unconfirmed_total_first(m: Match)
    requires
        phase_of(m) is InPlay,
        m.score_of(ScoreKey::TotalUnconfirmed) is Some,
    ensures
        current_score_of(m) == ScoreReading::Unconfirmed(m.score_of(ScoreKey::TotalUnconfirmed)->0),
{
}

/// While a match is in play and no unconfirmed total is there, the total is
/// shown; with neither, its score is missing.
pub proof fn lemma_total_otherwise(m: Match)
    requires
        phase_of(m) is InPlay,
        m.score_of(ScoreKey::TotalUnconfirmed) is None,
    ensures
        current_score_of(m) == reading_of(m, ScoreKey::Total),
        m.score_of(ScoreKey::Total) is None ==> current_score_of(m) == ScoreReading::Missing,
{
}

/// The aggregate is passed on as it is and changes nothing of the phase's own
/// score.
pub proof fn lemma_aggregate_alongside(m: Match, n: Match)
    requires
        phase_of(m) == phase_of(n),
        forall|k: ScoreKey| k != ScoreKey::Aggregate ==> m.score_of(k) == n.score_of(k),
    ensures
        current_score_of(m) == current_score_of(n),
        resolved_score_of(m).aggregate == m.score_of(ScoreKey::Aggregate),
{
}

} // verus!
