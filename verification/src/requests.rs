//! Requests for the fixtures of a date, passed from the pages to the
//! scheduler over a queue.
use crate::date::Date;
use crossbeam::channel::{Receiver, Sender, TryRecvError, TrySendError};
use vstd::prelude::*;

verus! {

#[verifier::external_type_specification]
#[verifier::external_body]
#[verifier::reject_recursive_types(T)]
pub struct ExSender<T>(Sender<T>);

#[verifier::external_type_specification]
#[verifier::external_body]
#[verifier::reject_recursive_types(T)]
pub struct ExReceiver<T>(Receiver<T>);

/// Why the queue did not take a request.
#[derive(Debug, Clone, Copy, PartialEq, Eq, Structural)]
pub enum SendFailure {
    /// The queue is full.
    Full,
    /// The receiving end is gone.
    Disconnected,
}

/// What became of a request for the fixtures of a date.
#[derive(Debug, Clone, Copy, PartialEq, Eq, Structural)]
pub enum RequestOutcome {
    /// The date is today, which the scheduler refreshes by itself: nothing
    /// was handed to the queue.
    Suppressed,
    /// The queue took the date.
    Sent,
    /// The queue did not take the date.
    Failed(SendFailure),
}

/// The day numbers that a sending end has handed to its queue since the
/// queue was made, in the order in which the queue took them.
pub uninterp spec fn handed_over(sender: Sender<i32>) -> Seq<i32>;

/// Makes a queue of day numbers without a bound on its length.
///
/// Trusted: calls crossbeam's `channel::unbounded`, which makes an empty
/// channel: its sending end has handed nothing over yet. Nothing is claimed
/// of the receiving end.
#[verifier::external_body]
fn new_queue() -> (ends: (Sender<i32>, Receiver<i32>))
    ensures
        handed_over(ends.0).len() == 0,
{
    crossbeam::channel::unbounded()
}

/// Offers `day` to the queue without waiting.
///
/// Trusted: calls crossbeam's `Sender::try_send`, which either puts the
/// message into the channel and answers `Ok`, or answers with an error that
/// gives the message back. Which of the two happens depends on the other
/// end of the queue, so nothing is claimed of that; what the sending end has
/// handed over grows by `day` exactly when the answer is `Ok`.
#[verifier::external_body]
fn offer(sender: &mut Sender<i32>, day: i32) -> (answer: Result<(), SendFailure>)
    ensures
        answer is Ok ==> handed_over(*final(sender)) == handed_over(*old(sender)).push(day),
        answer is Err ==> handed_over(*final(sender)) == handed_over(*old(sender)),
{
    match sender.try_send(day) {
        Ok(()) => Ok(()),
        Err(TrySendError::Full(_)) => Err(SendFailure::Full),
        Err(TrySendError::Disconnected(_)) => Err(SendFailure::Disconnected),
    }
}

/// Takes the next day from the queue without waiting, if one is there.
///
/// Trusted: calls crossbeam's `Receiver::try_recv`. What is there depends on
/// the sending ends, so nothing is claimed of the answer. An empty queue and
/// one whose senders are gone both give `None`.
#[verifier::external_body]
fn take(receiver: &Receiver<i32>) -> (answer: Option<i32>) {
    match receiver.try_recv() {
        Ok(day) => Some(day),
        Err(TryRecvError::Empty) => None,
        Err(TryRecvError::Disconnected) => None,
    }
}

/// The date to hand to the queue when the fixtures of `date` are wanted and
/// the day is `today`: none for today itself, which the scheduler refreshes
/// without being asked.
pub open spec fn request_for(date: Date, today: Date) -> Option<Date> {
    if date == today {
        None
    } else {
        Some(date)
    }
}

/// What is reported of a request, given what was to be sent and the answer of
/// the queue where something was.
pub open spec fn outcome_of(to_send: Option<Date>, answer: Result<(), SendFailure>) -> RequestOutcome {
    match to_send {
        None => RequestOutcome::Suppressed,
        Some(_) => match answer {
            Ok(_) => RequestOutcome::Sent,
            Err(failure) => RequestOutcome::Failed(failure),
        },
    }
}

/// Decides what to hand to the queue.
pub fn plan_request(date: Date, today: Date) -> (to_send: Option<Date>)
    ensures
        to_send == request_for(date, today),
{
    if date.days == today.days {
        None
    } else {
        Some(date)
    }
}

/// The sending end of the request queue.
pub struct FetchRequester {
    sender: Sender<i32>,
}

/// The receiving end of the request queue.
pub struct RequestQueue {
    receiver: Receiver<i32>,
}

/// What a sending end has handed over once a request had the outcome
/// `outcome`: one date more where the queue took the date, the same as
/// before in every other case.
pub open spec fn sent_after(before: Seq<Date>, date: Date, outcome: RequestOutcome) -> Seq<Date> {
    if outcome is Sent {
        before.push(date)
    } else {
        before
    }
}

/// Makes a request queue and returns its two ends. The sending end has handed
/// nothing over yet.
pub fn request_channel() -> (ends: (FetchRequester, RequestQueue))
    ensures
        ends.0.sent() == Seq::<Date>::empty(),
{
    let (sender, receiver) = new_queue();
    let requester = FetchRequester { sender };
    assert(requester.sent() =~= Seq::<Date>::empty());
    (requester, RequestQueue { receiver })
}

impl FetchRequester {
    /// The dates that this end has handed to the queue since the queue was
    /// made, in order.
    pub closed spec fn sent(&self) -> Seq<Date> {
        Seq::new(
            handed_over(self.sender).len(),
            |i: int| Date { days: handed_over(self.sender)[i] },
        )
    }

    /// Asks for the fixtures of `date` to be fetched. The call never waits.
    /// Nothing is handed to the queue where `date` is `today`; in every other
    /// case the date is offered to the queue once, and the outcome says
    /// whether the queue took it.
    pub fn request_fetch(&mut self, date: Date, today: Date) -> (outcome: RequestOutcome)
        ensures
            outcome is Suppressed <==> date == today,
            exists|answer: Result<(), SendFailure>|
                outcome == outcome_of(request_for(date, today), answer),
            final(self).sent() == sent_after(old(self).sent(), date, outcome),
    {
        match plan_request(date, today) {
            None => {
                assert(RequestOutcome::Suppressed == outcome_of(
                    request_for(date, today),
                    Ok::<(), SendFailure>(()),
                ));
                RequestOutcome::Suppressed
            },
            Some(wanted) => {
                let answer = offer(&mut self.sender, wanted.days);
                assert(outcome_of(Some(wanted), answer) == outcome_of(
                    request_for(date, today),
                    answer,
                ));
                match answer {
                    Ok(_) => {
                        assert(self.sent() =~= old(self).sent().push(date));
                        RequestOutcome::Sent
                    },
                    Err(failure) => {
                        assert(self.sent() =~= old(self).sent());
                        RequestOutcome::Failed(failure)
                    },
                }
            },
        }
    }
}

impl RequestQueue {
    /// The next requested date, if one is waiting. The call never waits.
    pub fn poll(&self) -> (request: Option<Date>) {
        match take(&self.receiver) {
            Some(days) => Some(Date { days }),
            None => None,
        }
    }
}

/// Asking for today's fixtures hands nothing to the queue, whatever the
/// queue would have answered: the outcome is `Suppressed`, and what the
/// sending end has handed over stays as it was.
pub proof fn lemma_today_is_never_requested(
    today: Date,
    answer: Result<(), SendFailure>,
    before: Seq<Date>,
)
    ensures
        request_for(today, today) is None,
        outcome_of(request_for(today, today), answer) == RequestOutcome::Suppressed,
        sent_after(before, today, outcome_of(request_for(today, today), answer)) == before,
{
}

/// Every date but today is handed to the queue as it is.
pub proof fn lemma_other_dates_are_requested(date: Date, today: Date)
    requires
        date != today,
    ensures
        request_for(date, today) == Some(date),
{
}

} // verus!
