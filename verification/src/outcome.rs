//! How a start-agent request ends, and the channel that carries the end to whoever waits for it.

use async_channel::Receiver;
use async_channel::Sender;
use async_channel::TrySendError;
use vstd::prelude::*;

verus! {

/// The end of one start-agent request.
#[derive(Clone, Debug)]
pub enum StartAgentOutcome {
    /// The child conversation exists and the server has assigned an agent id to it.
    Started { agent_id: String },
    /// The agent could not be started.
    Error(String),
}

/// A [`StartAgentOutcome`] with its text as a sequence of characters.
pub enum StartAgentOutcomeView {
    Started { agent_id: Seq<char> },
    Error(Seq<char>),
}

impl View for StartAgentOutcome {
    type V = StartAgentOutcomeView;

    open spec fn view(&self) -> StartAgentOutcomeView {
        match *self {
            StartAgentOutcome::Started { agent_id } => StartAgentOutcomeView::Started {
                agent_id: agent_id@,
            },
            StartAgentOutcome::Error(error) => StartAgentOutcomeView::Error(error@),
        }
    }
}

/// `async_channel::Sender`, the sending side of a channel.
#[verifier::external_type_specification]
#[verifier::external_body]
#[verifier::reject_recursive_types(T)]
pub struct ExSender<T>(async_channel::Sender<T>);

/// `async_channel::Receiver`, the receiving side of a channel.
#[verifier::external_type_specification]
#[verifier::external_body]
#[verifier::reject_recursive_types(T)]
pub struct ExReceiver<T>(async_channel::Receiver<T>);

/// The outcomes that have gone into the channel of `sender`, first to last.
pub uninterp spec fn sent_outcomes(sender: Sender<StartAgentOutcome>) -> Seq<StartAgentOutcomeView>;

/// Whether `sender` is the only sending side of its channel.
pub uninterp spec fn is_only_sender(sender: Sender<StartAgentOutcome>) -> bool;

/// How many outcomes the channel of `sender` holds at most at a time.
pub uninterp spec fn channel_capacity(sender: Sender<StartAgentOutcome>) -> nat;

/// Whether the channel of `sender` is closed. A closed channel stays closed.
pub uninterp spec fn channel_is_closed(sender: Sender<StartAgentOutcome>) -> bool;

/// The channel that `sender` sends into.
pub uninterp spec fn sender_channel(sender: Sender<StartAgentOutcome>) -> int;

/// The channel that `receiver` takes from.
pub uninterp spec fn receiver_channel(receiver: Receiver<StartAgentOutcome>) -> int;

/// Why a channel did not take an outcome; the outcome comes back.
#[derive(Clone, Debug)]
pub enum SendRefusal {
    /// The channel holds as much as it can.
    Full(StartAgentOutcome),
    /// The channel is closed: its receiving side is gone.
    Closed(StartAgentOutcome),
}

/// Calls `async_channel::bounded`: makes a channel and returns its two sides.
///
/// Claimed of it: the two sides belong to one channel of that capacity, nothing has gone into that
/// channel, and the sender is its only one. `async_channel::bounded` panics on a capacity of zero and
/// allocates the whole capacity otherwise, so the call is limited to a single slot.
#[verifier::external_body]
pub(crate) fn outcome_channel(capacity: usize) -> (r: (
    Sender<StartAgentOutcome>,
    Receiver<StartAgentOutcome>,
))
    requires
        capacity == 1,
    ensures
        sent_outcomes(r.0) == Seq::<StartAgentOutcomeView>::empty(),
        is_only_sender(r.0),
        channel_capacity(r.0) == capacity,
        sender_channel(r.0) == receiver_channel(r.1),
{
    async_channel::bounded(capacity)
}

/// Calls `async_channel::Sender::try_send`: puts `outcome` into the channel, without waiting.
///
/// Claimed of it, for a channel with this one sender: on success `outcome` is the last thing that
/// went into the channel; on a refusal nothing went into it and `outcome` comes back; the refusal
/// of a full channel comes only once as much has gone into it as it can hold; and the refusal of a
/// closed channel comes only from a channel that is closed. Not claimed: when a channel is closed,
/// which is up to the receiving side.
#[verifier::external_body]
pub(crate) fn try_send_outcome(
    sender: &mut Sender<StartAgentOutcome>,
    outcome: StartAgentOutcome,
) -> (r: Result<(), SendRefusal>)
    requires
        is_only_sender(*old(sender)),
    ensures
        is_only_sender(*final(sender)),
        sender_channel(*final(sender)) == sender_channel(*old(sender)),
        channel_capacity(*final(sender)) == channel_capacity(*old(sender)),
        match r {
            Ok(_) => sent_outcomes(*final(sender)) == sent_outcomes(*old(sender)).push(outcome@),
            Err(SendRefusal::Full(refused)) => {
                &&& refused == outcome
                &&& sent_outcomes(*final(sender)) == sent_outcomes(*old(sender))
                &&& sent_outcomes(*old(sender)).len() >= channel_capacity(*old(sender))
            },
            Err(SendRefusal::Closed(refused)) => {
                &&& refused == outcome
                &&& sent_outcomes(*final(sender)) == sent_outcomes(*old(sender))
                &&& channel_is_closed(*final(sender))
            },
        },
{
    match sender.try_send(outcome) {
        Ok(()) => Ok(()),
        Err(TrySendError::Full(refused)) => Err(SendRefusal::Full(refused)),
        Err(TrySendError::Closed(refused)) => Err(SendRefusal::Closed(refused)),
    }
}

} // verus!
