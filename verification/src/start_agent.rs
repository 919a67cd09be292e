//! Starts child agents on behalf of a conversation and follows each request to its end.

use std::collections::HashMap;

use async_channel::Receiver;
use async_channel::Sender;
use vstd::prelude::*;

use crate::agent::AIAgentActionType;
use crate::agent::AIConversation;
use crate::agent::AIConversationId;
use crate::agent::BlocklistAIHistoryEvent;
use crate::agent::BlocklistAIHistoryModel;
use crate::agent::LifecycleEventType;
use crate::agent::StartAgentExecutionMode;
use crate::agent::StartAgentResult;
use crate::agent::StartAgentResultView;
use crate::agent::StartAgentVersion;
use crate::launch::launch_of;
use crate::launch::resolve_launch;
use crate::launch::run_id_in;
use crate::launch::HarnessReadings;
use crate::outcome::channel_capacity;
use crate::outcome::channel_is_closed;
use crate::outcome::is_only_sender;
use crate::outcome::outcome_channel;
use crate::outcome::receiver_channel;
use crate::outcome::sender_channel;
use crate::outcome::sent_outcomes;
use crate::outcome::try_send_outcome;
use crate::outcome::SendRefusal;
use crate::outcome::StartAgentOutcome;
use crate::outcome::StartAgentOutcomeView;
use crate::startup::conversation_decided_by;
use crate::startup::decide_startup;
use crate::startup::decided_conversation;
use crate::startup::notice_of_event;
use crate::startup::notice_view;
use crate::startup::outcome_of_event;
use crate::startup::StartupNotice;

verus! {

/// Identifies one in-flight start-agent request.
///
/// Several requests of one parent conversation can be in flight at a time; whoever creates the
/// child conversation hands the id back through
/// [`StartAgentExecutor::record_child_conversation`].
#[derive(Clone, Copy, Debug, PartialEq, Eq, Hash, Structural)]
pub struct StartAgentRequestId(u64);

impl View for StartAgentRequestId {
    type V = u64;

    closed spec fn view(&self) -> u64 {
        self.0
    }
}

/// The id with the given number.
pub closed spec fn request_id_of(number: u64) -> StartAgentRequestId {
    StartAgentRequestId(number)
}

/// An id is nothing but its number: every number has one id, and ids with equal numbers are equal.
pub proof fn law_ids_are_their_numbers(a: u64, b: u64, id: StartAgentRequestId)
    ensures
        request_id_of(a) == request_id_of(b) <==> a == b,
        request_id_of(a)@ == a,
        id == request_id_of(id@),
{
}

impl Default for StartAgentRequestId {
    fn default() -> (r: Self)
        ensures
            r == request_id_of(0),
            r@ == 0,
    {
        StartAgentRequestId(0)
    }
}

impl StartAgentRequestId {
    /// The id with the given number, for callers that need one outside the executor's counter.
    pub fn from_raw_for_test(value: u64) -> (r: Self)
        ensures
            r == request_id_of(value),
            r@ == value,
    {
        StartAgentRequestId(value)
    }
}

/// The data of one start-agent request, as whoever creates the agent gets it.
#[derive(Clone)]
pub struct StartAgentRequest {
    pub id: StartAgentRequestId,
    pub name: String,
    pub prompt: String,
    pub execution_mode: StartAgentExecutionMode,
    pub lifecycle_subscription: Option<Vec<LifecycleEventType>>,
    pub parent_conversation_id: AIConversationId,
    pub parent_run_id: Option<String>,
}

/// What the executor asks its observers for.
pub enum StartAgentExecutorEvent {
    /// Create the child agent of this request.
    CreateAgent(StartAgentRequest),
}

/// One in-flight request.
struct PendingStartAgent {
    parent_conversation_id: AIConversationId,
    /// Unknown until the child conversation has been created.
    child_conversation_id: Option<AIConversationId>,
    sender: Sender<StartAgentOutcome>,
}

/// One in-flight request: whose child it starts, which conversation that child has, and the
/// channel on which its outcome is awaited: what has gone into that channel, how much it holds, and
/// whether the request alone sends into it.
pub struct PendingStartAgentView {
    pub parent_conversation_id: AIConversationId,
    pub child_conversation_id: Option<AIConversationId>,
    pub channel: int,
    pub sent: Seq<StartAgentOutcomeView>,
    pub capacity: nat,
    pub is_only_sender: bool,
}

/// A request of `parent` that has just been put in flight: its child is not known, and the channel
/// on which its outcome is awaited is empty and has room for that one outcome.
pub open spec fn new_request(parent: AIConversationId, channel: int) -> PendingStartAgentView {
    PendingStartAgentView {
        parent_conversation_id: parent,
        child_conversation_id: None,
        channel,
        sent: Seq::empty(),
        capacity: 1,
        is_only_sender: true,
    }
}

impl View for PendingStartAgent {
    type V = PendingStartAgentView;

    closed spec fn view(&self) -> PendingStartAgentView {
        PendingStartAgentView {
            parent_conversation_id: self.parent_conversation_id,
            child_conversation_id: self.child_conversation_id,
            channel: sender_channel(self.sender),
            sent: sent_outcomes(self.sender),
            capacity: channel_capacity(self.sender),
            is_only_sender: is_only_sender(self.sender),
        }
    }
}

impl PendingStartAgent {
    /// Nothing has been sent yet: whoever waits for this request is still owed its outcome.
    #[verifier::type_invariant]
    spec fn outcome_is_owed(self) -> bool {
        &&& is_only_sender(self.sender)
        &&& channel_capacity(self.sender) == 1
        &&& sent_outcomes(self.sender).len() == 0
    }
}

/// Keeps the in-flight start-agent requests.
pub struct StartAgentExecutor {
    pending: HashMap<u64, PendingStartAgent>,
    next_request_id: u64,
}

/// The in-flight requests by their ids, and the id that the next request gets.
pub struct StartAgentExecutorView {
    pub pending: Map<u64, PendingStartAgentView>,
    pub next_request_id: u64,
}

/// The request id after `id`; the ids start over after the largest one.
pub open spec fn request_id_after(id: u64) -> u64 {
    if id == u64::MAX {
        0
    } else {
        (id + 1) as u64
    }
}

/// Whether the executor, going from the state `before` to the state `after`, has given out `id` as
/// the id of a new request.
pub open spec fn mints(
    before: StartAgentExecutorView,
    id: StartAgentRequestId,
    after: StartAgentExecutorView,
) -> bool {
    &&& id == request_id_of(before.next_request_id)
    &&& id@ == before.next_request_id
    &&& after.next_request_id == request_id_after(before.next_request_id)
}

/// Whether `event` asks for the agent of a request with this id and these data.
pub open spec fn asks_for_agent(
    event: StartAgentExecutorEvent,
    id: u64,
    name: String,
    prompt: String,
    execution_mode: StartAgentExecutionMode,
    lifecycle_subscription: Option<Vec<LifecycleEventType>>,
    parent_conversation_id: AIConversationId,
    parent_run_id: Option<String>,
) -> bool {
    match event {
        StartAgentExecutorEvent::CreateAgent(request) => {
            &&& request.id == request_id_of(id)
            &&& request.id@ == id
            &&& request.name == name
            &&& request.prompt == prompt
            &&& request.execution_mode == execution_mode
            &&& request.lifecycle_subscription == lifecycle_subscription
            &&& request.parent_conversation_id == parent_conversation_id
            &&& request.parent_run_id == parent_run_id
        },
    }
}

impl StartAgentExecutorView {
    /// Whether the request `id` is in flight and `child` is the conversation of its child.
    pub open spec fn starts_child(self, id: u64, child: AIConversationId) -> bool {
        &&& self.pending.contains_key(id)
        &&& self.pending[id].child_conversation_id == Some(child)
    }

    /// Whether some request in flight starts the conversation `child`.
    pub open spec fn is_starting(self, child: AIConversationId) -> bool {
        exists|id: u64| #[trigger] self.starts_child(id, child)
    }

    /// The state once `child` is known to be the conversation of the request `id`.
    pub open spec fn after_record(self, id: u64, child: AIConversationId) -> Self {
        if self.pending.contains_key(id) {
            StartAgentExecutorView {
                pending: self.pending.insert(
                    id,
                    PendingStartAgentView {
                        child_conversation_id: Some(child),
                        ..self.pending[id]
                    },
                ),
                ..self
            }
        } else {
            self
        }
    }

    /// The state once the request `id` has ended.
    pub open spec fn after_completion(self, id: u64) -> Self {
        StartAgentExecutorView { pending: self.pending.remove(id), ..self }
    }

    /// The state after a request of `parent` whose outcome is awaited on `channel`.
    pub open spec fn after_dispatch(self, parent: AIConversationId, channel: int) -> Self {
        StartAgentExecutorView {
            pending: self.pending.insert(
                self.next_request_id,
                new_request(parent, channel),
            ),
            next_request_id: request_id_after(self.next_request_id),
        }
    }
}

impl View for StartAgentExecutor {
    type V = StartAgentExecutorView;

    closed spec fn view(&self) -> StartAgentExecutorView {
        StartAgentExecutorView {
            pending: self.pending@.map_values(|p: PendingStartAgent| p@),
            next_request_id: self.next_request_id,
        }
    }
}

/// An action to carry out, and the conversation that asks for it.
#[derive(Clone, Debug)]
pub struct ExecuteActionInput {
    pub action: AIAgentActionType,
    pub conversation_id: AIConversationId,
}

/// How an action is carried out.
pub enum StartAgentExecution {
    /// The action does not start an agent.
    InvalidAction,
    /// The call is answered at once.
    Sync(StartAgentResult),
    /// The agent is to be created; the call is answered with [`start_agent_result`] once the
    /// receiver yields the outcome or is closed.
    Async {
        receiver: Receiver<StartAgentOutcome>,
        event: StartAgentExecutorEvent,
        version: StartAgentVersion,
    },
}

/// The answer to a start-agent call whose receiver yielded `received`; `None` stands for a
/// request that was dropped before it had an outcome.
pub open spec fn answer_to_call(
    received: Option<StartAgentOutcomeView>,
    version: StartAgentVersion,
) -> StartAgentResultView {
    match received {
        Some(StartAgentOutcomeView::Started { agent_id }) => StartAgentResultView::Success {
            agent_id,
            version,
        },
        Some(StartAgentOutcomeView::Error(error)) => StartAgentResultView::Error { error, version },
        None => StartAgentResultView::Cancelled { version },
    }
}

/// The answer to a start-agent call whose receiver yielded `received`; `None` stands for a
/// request that was dropped before it had an outcome.
pub fn start_agent_result(received: Option<StartAgentOutcome>, version: StartAgentVersion) -> (r:
    StartAgentResult)
    ensures
        r@ == answer_to_call(
            match received {
                Some(outcome) => Some(outcome@),
                None => None,
            },
            version,
        ),
{
    match received {
        Some(StartAgentOutcome::Started { agent_id }) => StartAgentResult::Success {
            agent_id,
            version,
        },
        Some(StartAgentOutcome::Error(error)) => StartAgentResult::Error { error, version },
        None => StartAgentResult::Cancelled { version },
    }
}

/// The sending side of the channel of a request that has ended. Dropping it closes the channel.
pub struct SpentChannel {
    pub sender: Sender<StartAgentOutcome>,
}

impl SpentChannel {
    /// The channel on which the outcome was awaited.
    pub open spec fn channel(self) -> int {
        sender_channel(self.sender)
    }

    /// What has gone into that channel.
    pub open spec fn sent(self) -> Seq<StartAgentOutcomeView> {
        sent_outcomes(self.sender)
    }

    /// Whether that channel was closed already when the outcome was due.
    pub open spec fn is_closed(self) -> bool {
        channel_is_closed(self.sender)
    }
}

/// A request that has ended.
pub struct StartAgentCompletion {
    pub request_id: StartAgentRequestId,
    /// Whom to tell of the end.
    pub notice: Option<StartupNotice>,
    /// The outcome, where nobody takes it any more.
    pub refused: Option<SendRefusal>,
    pub spent: SpentChannel,
}

/// Whether `completion` is the end of the request `id` with `outcome`: the outcome has gone into
/// the channel of the request, and nothing else ever has; or it was refused there, because that
/// channel was closed.
pub open spec fn delivers(
    completion: StartAgentCompletion,
    id: u64,
    pending: PendingStartAgentView,
    outcome: StartAgentOutcomeView,
) -> bool {
    &&& completion.request_id@ == id
    &&& completion.spent.channel() == pending.channel
    &&& match completion.refused {
        None => completion.spent.sent() == seq![outcome],
        Some(SendRefusal::Closed(refused)) => {
            &&& refused@ == outcome
            &&& completion.spent.is_closed()
            &&& completion.spent.sent() == Seq::<StartAgentOutcomeView>::empty()
        },
        Some(SendRefusal::Full(_)) => false,
    }
}

/// Whether the executor, told of `event` in the state `before`, may answer `r` and go to the state
/// `after`. An event that decides the start of a child that some request in flight starts ends one
/// such request; every other event changes nothing.
pub open spec fn handles_event(
    before: StartAgentExecutorView,
    event: BlocklistAIHistoryEvent,
    history: Map<AIConversationId, AIConversation>,
    orchestration_v2: bool,
    r: Option<StartAgentCompletion>,
    after: StartAgentExecutorView,
) -> bool {
    match (conversation_decided_by(event), outcome_of_event(event, history)) {
        (Some(child), Some(outcome)) if before.is_starting(child) => {
            &&& r matches Some(completion)
            &&& before.starts_child(completion.request_id@, child)
            &&& after == before.after_completion(completion.request_id@)
            &&& delivers(
                completion,
                completion.request_id@,
                before.pending[completion.request_id@],
                outcome,
            )
            &&& notice_view(completion.notice) == notice_of_event(
                event,
                history,
                orchestration_v2,
                before.pending[completion.request_id@].parent_conversation_id,
            )
        },
        _ => r is None && after == before,
    }
}

impl StartAgentExecutor {
    /// An executor without requests in flight.
    pub fn new() -> (r: Self)
        ensures
            r@.pending == Map::<u64, PendingStartAgentView>::empty(),
            r@.next_request_id == 0,
    {
        let r = StartAgentExecutor { pending: HashMap::new(), next_request_id: 0 };
        assert(r@.pending =~= Map::<u64, PendingStartAgentView>::empty());
        r
    }

    /// The id for the next request; the ids start over after the largest one.
    pub fn next_request_id(&mut self) -> (r: StartAgentRequestId)
        ensures
            mints(old(self)@, r, final(self)@),
            final(self)@.pending == old(self)@.pending,
    {
        let id: u64 = self.next_request_id;
        self.next_request_id = self.next_request_id.wrapping_add(1);
        StartAgentRequestId(id)
    }

    /// Remembers that `child_conversation_id` is the conversation of the request `request_id`. A
    /// request that is not in flight is left alone.
    pub fn record_child_conversation(
        &mut self,
        request_id: StartAgentRequestId,
        child_conversation_id: AIConversationId,
    )
        ensures
            final(self)@ == old(self)@.after_record(request_id@, child_conversation_id),
    {
        match self.pending.remove(&request_id.0) {
            Some(pending) => {
                proof {
                    use_type_invariant(&pending);
                }
                let PendingStartAgent { parent_conversation_id, sender, .. } = pending;
                self.pending.insert(
                    request_id.0,
                    PendingStartAgent {
                        parent_conversation_id,
                        child_conversation_id: Some(child_conversation_id),
                        sender,
                    },
                );
            },
            None => {},
        }
        assert(self@.pending =~= old(self)@.after_record(
            request_id@,
            child_conversation_id,
        ).pending);
    }

    /// A request in flight that starts the conversation `child_conversation_id`.
    pub fn find_pending_by_child(&self, child_conversation_id: &AIConversationId) -> (r: Option<
        StartAgentRequestId,
    >)
        ensures
            match r {
                Some(id) => self@.starts_child(id@, *child_conversation_id),
                None => !self@.is_starting(*child_conversation_id),
            },
    {
        for entry in it: self.pending.iter()
            invariant
                forall|i: int|
                    0 <= i < it.index() ==> (#[trigger] it.seq()[i]).1.child_conversation_id
                        != Some(*child_conversation_id),
        {
            let (id, pending) = entry;
            if let Some(child) = pending.child_conversation_id {
                if child == *child_conversation_id {
                    return Some(StartAgentRequestId(*id));
                }
            }
        }
        None
    }

    /// Ends the request whose child `event` is about, if `event` decides its start: takes it out
    /// of the requests in flight and hands its outcome to whoever waits for it.
    pub fn handle_history_event(
        &mut self,
        event: &BlocklistAIHistoryEvent,
        history: &BlocklistAIHistoryModel,
        orchestration_v2: bool,
    ) -> (r: Option<StartAgentCompletion>)
        ensures
            handles_event(
                old(self)@,
                *event,
                history@,
                orchestration_v2,
                r,
                final(self)@,
            ),
    {
        let child = match decided_conversation(event) {
            Some(child) => child,
            None => return None,
        };
        let request_id = match self.find_pending_by_child(&child) {
            Some(request_id) => request_id,
            None => return None,
        };
        assert(self@.starts_child(request_id@, child));
        let parent_conversation_id = match self.pending.get(&request_id.0) {
            Some(pending) => pending.parent_conversation_id,
            None => return None,
        };
        let (outcome, notice) = match decide_startup(
            event,
            history,
            orchestration_v2,
            parent_conversation_id,
        ) {
            Some(decision) => decision,
            None => return None,
        };
        match self.pending.remove(&request_id.0) {
            Some(pending) => {
                proof {
                    use_type_invariant(&pending);
                }
                let mut sender = pending.sender;
                let ghost sent = outcome@;
                let refused = match try_send_outcome(&mut sender, outcome) {
                    Ok(()) => None,
                    Err(refusal) => Some(refusal),
                };
                assert(match refused {
                    None => sent_outcomes(sender) =~= seq![sent],
                    Some(_) => sent_outcomes(sender) =~= Seq::<StartAgentOutcomeView>::empty(),
                });
                assert(self@.pending =~= old(self)@.after_completion(request_id@).pending);
                Some(
                    StartAgentCompletion {
                        request_id,
                        notice,
                        refused,
                        spent: SpentChannel { sender },
                    },
                )
            },
            None => None,
        }
    }

    /// Start-agent actions run without asking the user.
    pub fn should_autoexecute(&self) -> (r: bool)
        ensures
            r,
    {
        true
    }

    /// Carries out a start-agent action. A call that is refused is answered at once and leaves
    /// the executor as it was.
    pub fn execute(
        &mut self,
        input: ExecuteActionInput,
        readings: HarnessReadings,
        orchestration_v2: bool,
        history: &BlocklistAIHistoryModel,
    ) -> (r: StartAgentExecution)
        ensures
            match input.action {
                AIAgentActionType::Other => {
                    &&& r is InvalidAction
                    &&& final(self)@ == old(self)@
                },
                AIAgentActionType::StartAgent {
                    version,
                    name,
                    prompt,
                    execution_mode,
                    lifecycle_subscription,
                } => match launch_of(
                    execution_mode,
                    readings,
                    orchestration_v2,
                    run_id_in(history@, input.conversation_id),
                ) {
                    Err(error) => {
                        &&& r matches StartAgentExecution::Sync(result)
                        &&& result@ == (StartAgentResultView::Error { error, version })
                        &&& final(self)@ == old(self)@
                    },
                    Ok((mode, parent_run_id)) => {
                        &&& r matches StartAgentExecution::Async {
                            receiver,
                            event,
                            version: answered,
                        }
                        &&& answered == version
                        &&& asks_for_agent(
                            event,
                            old(self)@.next_request_id,
                            name,
                            prompt,
                            mode,
                            lifecycle_subscription,
                            input.conversation_id,
                            parent_run_id,
                        )
                        &&& event matches StartAgentExecutorEvent::CreateAgent(request)
                        &&& request.id@ == old(self)@.next_request_id
                        &&& request.name == name
                        &&& request.prompt == prompt
                        &&& request.execution_mode == mode
                        &&& request.lifecycle_subscription == lifecycle_subscription
                        &&& request.parent_conversation_id == input.conversation_id
                        &&& request.parent_run_id == parent_run_id
                        &&& final(self)@ == old(self)@.after_dispatch(
                            input.conversation_id,
                            receiver_channel(receiver),
                        )
                    },
                },
            },
    {
        match input.action {
            AIAgentActionType::Other => StartAgentExecution::InvalidAction,
            AIAgentActionType::StartAgent {
                version,
                name,
                prompt,
                execution_mode,
                lifecycle_subscription,
            } => {
                match resolve_launch(
                    execution_mode,
                    readings,
                    orchestration_v2,
                    history,
                    &input.conversation_id,
                ) {
                    Ok((mode, parent_run_id)) => {
                        let (receiver, event) = self.dispatch(
                            name,
                            prompt,
                            mode,
                            lifecycle_subscription,
                            input.conversation_id,
                            parent_run_id,
                        );
                        StartAgentExecution::Async { receiver, event, version }
                    },
                    Err(error) => StartAgentExecution::Sync(
                        StartAgentResult::Error { error, version },
                    ),
                }
            },
        }
    }

    /// Puts a request in flight whose data its caller has checked already. Returns the receiver
    /// that yields its outcome, and what to tell the observers.
    pub fn dispatch(
        &mut self,
        name: String,
        prompt: String,
        execution_mode: StartAgentExecutionMode,
        lifecycle_subscription: Option<Vec<LifecycleEventType>>,
        parent_conversation_id: AIConversationId,
        parent_run_id: Option<String>,
    ) -> (r: (Receiver<StartAgentOutcome>, StartAgentExecutorEvent))
        ensures
            final(self)@ == old(self)@.after_dispatch(
                parent_conversation_id,
                receiver_channel(r.0),
            ),
            asks_for_agent(
                r.1,
                old(self)@.next_request_id,
                name,
                prompt,
                execution_mode,
                lifecycle_subscription,
                parent_conversation_id,
                parent_run_id,
            ),
            match r.1 {
                StartAgentExecutorEvent::CreateAgent(request) => {
                    &&& request.id@ == old(self)@.next_request_id
                    &&& request.name == name
                    &&& request.prompt == prompt
                    &&& request.execution_mode == execution_mode
                    &&& request.lifecycle_subscription == lifecycle_subscription
                    &&& request.parent_conversation_id == parent_conversation_id
                    &&& request.parent_run_id == parent_run_id
                },
            },
    {
        let (sender, receiver) = outcome_channel(1);
        let request_id = self.next_request_id();
        self.pending.insert(
            request_id.0,
            PendingStartAgent { parent_conversation_id, child_conversation_id: None, sender },
        );
        assert(self@.pending =~= old(self)@.after_dispatch(
            parent_conversation_id,
            receiver_channel(receiver),
        ).pending);
        (
            receiver,
            StartAgentExecutorEvent::CreateAgent(
                StartAgentRequest {
                    id: request_id,
                    name,
                    prompt,
                    execution_mode,
                    lifecycle_subscription,
                    parent_conversation_id,
                    parent_run_id,
                },
            ),
        )
    }
}

} // verus!
