//! What holds of starting agents across calls.

use vstd::prelude::*;

use crate::agent::AIConversation;
use crate::agent::AIConversationId;
use crate::agent::BlocklistAIHistoryEvent;
use crate::agent::ConversationStatus;
use crate::agent::LifecycleEventType;
use crate::agent::StartAgentResultView;
use crate::agent::StartAgentVersion;
use crate::agent::StartAgentExecutionMode;
use crate::launch::launch_of;
use crate::launch::HarnessReadings;
use crate::outcome::channel_is_closed;
use crate::outcome::sender_channel;
use crate::outcome::sent_outcomes;
use crate::outcome::SendRefusal;
use crate::outcome::StartAgentOutcomeView;
use crate::start_agent::answer_to_call;
use crate::start_agent::asks_for_agent;
use crate::start_agent::delivers;
use crate::start_agent::handles_event;
use crate::start_agent::mints;
use crate::start_agent::new_request;
use crate::start_agent::request_id_after;
use crate::start_agent::request_id_of;
use crate::start_agent::PendingStartAgentView;
use crate::start_agent::StartAgentCompletion;
use crate::start_agent::StartAgentExecutorEvent;
use crate::start_agent::StartAgentExecutorView;
use crate::start_agent::StartAgentRequestId;
use crate::startup::conversation_decided_by;
use crate::startup::error_message_for_status;
use crate::startup::notice_of_event;
use crate::startup::notice_view;
use crate::startup::outcome_of_event;
use crate::startup::StartupNoticeView;
use crate::text::is_blank;
use crate::text::is_white_space;
use crate::text::lemma_trimmed_is_empty_iff_blank;
use crate::text::lemma_trimmed_ends;
use crate::text::trimmed;

verus! {

/// The state after the requests in `requests`, each given by its parent and its channel, have been
/// put in flight one after the other.
pub open spec fn after_fan_out(
    state: StartAgentExecutorView,
    requests: Seq<(AIConversationId, int)>,
) -> StartAgentExecutorView
    decreases requests.len(),
{
    if requests.len() == 0 {
        state
    } else {
        after_fan_out(state, requests.drop_last()).after_dispatch(
            requests.last().0,
            requests.last().1,
        )
    }
}

/// The number that is `n` after `start`, for `n` up to the number of ids; the numbers start over
/// after the largest one.
pub open spec fn wrapped_number(start: u64, n: int) -> u64
    recommends
        0 <= n <= 0x1_0000_0000_0000_0000,
{
    if start + n < 0x1_0000_0000_0000_0000 {
        (start + n) as u64
    } else {
        (start + n - 0x1_0000_0000_0000_0000) as u64
    }
}

/// The id of the request that is put in flight after `n` others, for `n` up to the number of ids.
pub open spec fn fan_out_id(state: StartAgentExecutorView, n: int) -> u64
    recommends
        0 <= n <= 0x1_0000_0000_0000_0000,
{
    wrapped_number(state.next_request_id, n)
}

/// In a run of new ids, each given out in the state that the one before it has left, the `k`-th id
/// counted from zero is the counter of the first state plus `k`, starting over after the largest
/// one. The ids of a run are different, as long as there are so many of them, and each is larger
/// than all before it until they start over. Where giving out an id leaves the requests in flight
/// alone, so does the run.
pub proof fn law_run_of_ids(states: Seq<StartAgentExecutorView>, ids: Seq<StartAgentRequestId>)
    requires
        ids.len() <= 0x1_0000_0000_0000_0000,
        states.len() == ids.len() + 1,
        forall|k: int|
            0 <= k < ids.len() ==> mints(#[trigger] states[k], ids[k], states[k + 1]),
    ensures
        forall|k: int|
            0 <= k < ids.len() ==> (#[trigger] ids[k]) == request_id_of(
                wrapped_number(states[0].next_request_id, k),
            ) && ids[k]@ == wrapped_number(states[0].next_request_id, k) && ids[k]@
                == states[0].next_request_id.wrapping_add(k as u64),
        states.last().next_request_id == wrapped_number(
            states[0].next_request_id,
            ids.len() as int,
        ),
        forall|i: int, k: int|
            0 <= i < k < ids.len() ==> #[trigger] ids[i] != #[trigger] ids[k],
        forall|i: int, k: int|
            0 <= i < k < ids.len() && states[0].next_request_id + k <= u64::MAX ==> (
            #[trigger] ids[i])@ < (#[trigger] ids[k])@,
        (forall|k: int|
            0 <= k < ids.len() ==> (#[trigger] states[k]).pending == states[k + 1].pending)
            ==> states.last().pending == states[0].pending,
    decreases ids.len(),
{
    if ids.len() > 0 {
        let n = ids.len() - 1;
        let start = states[0].next_request_id;
        let earlier_states = states.drop_last();
        let earlier_ids = ids.drop_last();
        assert forall|k: int| 0 <= k < earlier_ids.len() implies mints(
            #[trigger] earlier_states[k],
            earlier_ids[k],
            earlier_states[k + 1],
        ) by {
            assert(mints(states[k], ids[k], states[k + 1]));
        }
        law_run_of_ids(earlier_states, earlier_ids);
        assert(earlier_states.last() == states[n]);
        assert(mints(states[n], ids[n], states[n + 1]));
        assert forall|k: int| 0 <= k < ids.len() implies (#[trigger] ids[k]) == request_id_of(
            wrapped_number(start, k),
        ) && ids[k]@ == wrapped_number(start, k) && ids[k]@ == start.wrapping_add(k as u64) by {
            if k < n {
                assert(earlier_ids[k] == ids[k]);
            }
        }
        if forall|k: int|
            0 <= k < ids.len() ==> (#[trigger] states[k]).pending == states[k + 1].pending {
            assert forall|k: int| 0 <= k < earlier_ids.len() implies (
            #[trigger] earlier_states[k]).pending == earlier_states[k + 1].pending by {
                assert(states[k].pending == states[k + 1].pending);
            }
            assert(states[n].pending == states[n + 1].pending);
        }
    }
}

/// A new request takes the next id: the id that its event asks for the agent with is the one whose
/// number the counter had, and the counter goes on to the next.
pub proof fn law_new_request_takes_next_id(
    state: StartAgentExecutorView,
    parent: AIConversationId,
    channel: int,
    event: StartAgentExecutorEvent,
    name: String,
    prompt: String,
    execution_mode: StartAgentExecutionMode,
    lifecycle_subscription: Option<Vec<LifecycleEventType>>,
    parent_run_id: Option<String>,
)
    requires
        asks_for_agent(
            event,
            state.next_request_id,
            name,
            prompt,
            execution_mode,
            lifecycle_subscription,
            parent,
            parent_run_id,
        ),
    ensures
        event matches StartAgentExecutorEvent::CreateAgent(request) && request.id == request_id_of(
            state.next_request_id,
        ) && mints(state, request.id, state.after_dispatch(parent, channel)),
{
}

/// The agent that is asked for is exactly the one of the request: the event carries every datum of
/// its request as it was given.
pub proof fn law_event_carries_the_request(
    event: StartAgentExecutorEvent,
    id: u64,
    name: String,
    prompt: String,
    execution_mode: StartAgentExecutionMode,
    lifecycle_subscription: Option<Vec<LifecycleEventType>>,
    parent_conversation_id: AIConversationId,
    parent_run_id: Option<String>,
)
    requires
        asks_for_agent(
            event,
            id,
            name,
            prompt,
            execution_mode,
            lifecycle_subscription,
            parent_conversation_id,
            parent_run_id,
        ),
    ensures
        ({
            let StartAgentExecutorEvent::CreateAgent(request) = event;
            &&& request.id@ == id
            &&& request.name == name
            &&& request.prompt == prompt
            &&& request.execution_mode == execution_mode
            &&& request.lifecycle_subscription == lifecycle_subscription
            &&& request.parent_conversation_id == parent_conversation_id
            &&& request.parent_run_id == parent_run_id
        }),
{
}

/// A new request is in flight under the id that the counter had, for its parent, without a child,
/// with the channel that was made for it, into which nothing has gone, with room for one outcome
/// and no other sender. No other id is taken or given up, and no other request changes.
pub proof fn law_new_request_in_flight(
    state: StartAgentExecutorView,
    parent: AIConversationId,
    channel: int,
    other: u64,
)
    ensures
        ({
            let after = state.after_dispatch(parent, channel);
            let id = state.next_request_id;
            &&& after.pending.contains_key(id)
            &&& after.pending[id].parent_conversation_id == parent
            &&& after.pending[id].child_conversation_id is None
            &&& after.pending[id].channel == channel
            &&& after.pending[id].sent.len() == 0
            &&& after.pending[id].capacity == 1
            &&& after.pending[id].is_only_sender
            &&& after.next_request_id == id.wrapping_add(1)
            &&& other != id ==> {
                &&& after.pending.contains_key(other) == state.pending.contains_key(other)
                &&& after.pending[other] == state.pending[other]
            }
        }),
{
}

/// Recording a child changes the child of that one request and nothing else: no request comes or
/// goes, the counter stays, and a request that is not in flight is not recorded.
pub proof fn law_recording_changes_one_child(
    state: StartAgentExecutorView,
    recorded: u64,
    child: AIConversationId,
    id: u64,
)
    ensures
        ({
            let after = state.after_record(recorded, child);
            &&& after.pending.contains_key(id) == state.pending.contains_key(id)
            &&& after.next_request_id == state.next_request_id
            &&& id != recorded || !state.pending.contains_key(id) ==> after.pending[id]
                == state.pending[id]
            &&& id == recorded && state.pending.contains_key(id) ==> {
                &&& after.pending[id].child_conversation_id == Some(child)
                &&& after.pending[id].parent_conversation_id
                    == state.pending[id].parent_conversation_id
                &&& after.pending[id].channel == state.pending[id].channel
                &&& after.pending[id].sent == state.pending[id].sent
                &&& after.pending[id].capacity == state.pending[id].capacity
                &&& after.pending[id].is_only_sender == state.pending[id].is_only_sender
            }
        }),
{
}

/// A request that ends goes, and it alone; the counter stays.
pub proof fn law_ending_removes_one_request(state: StartAgentExecutorView, ended: u64, id: u64)
    ensures
        ({
            let after = state.after_completion(ended);
            &&& !after.pending.contains_key(ended)
            &&& after.next_request_id == state.next_request_id
            &&& id != ended ==> {
                &&& after.pending.contains_key(id) == state.pending.contains_key(id)
                &&& after.pending[id] == state.pending[id]
            }
        }),
{
}

/// A request starts the child that was recorded for it and no other; a request without a child
/// starts none.
pub proof fn law_request_starts_its_recorded_child(
    state: StartAgentExecutorView,
    id: u64,
    child: AIConversationId,
)
    ensures
        state.starts_child(id, child) <==> state.pending.contains_key(id)
            && state.pending[id].child_conversation_id == Some(child),
        state.pending.contains_key(id) && state.pending[id].child_conversation_id == Some(child)
            ==> state.is_starting(child),
        state.is_starting(child) ==> exists|k: u64| #[trigger]
            state.pending.contains_key(k) && state.pending[k].child_conversation_id == Some(child),
{
    if state.pending.contains_key(id) && state.pending[id].child_conversation_id == Some(child) {
        assert(state.starts_child(id, child));
    }
    if state.is_starting(child) {
        let k = choose|k: u64| #[trigger] state.starts_child(k, child);
        assert(state.pending.contains_key(k) && state.pending[k].child_conversation_id == Some(
            child,
        ));
    }
}

/// What a delivery comes to: into the channel of the request has gone the outcome, once and alone,
/// and nobody gets it back; or that channel is closed, nothing has gone into it, and the outcome
/// comes back as it was.
pub proof fn law_delivery_is_once_or_returned(
    completion: StartAgentCompletion,
    id: u64,
    pending: PendingStartAgentView,
    outcome: StartAgentOutcomeView,
)
    requires
        delivers(completion, id, pending, outcome),
    ensures
        completion.request_id@ == id,
        sender_channel(completion.spent.sender) == pending.channel,
        completion.refused is None ==> {
            &&& sent_outcomes(completion.spent.sender).len() == 1
            &&& sent_outcomes(completion.spent.sender)[0] == outcome
        },
        completion.refused is Some ==> {
            &&& channel_is_closed(completion.spent.sender)
            &&& sent_outcomes(completion.spent.sender).len() == 0
            &&& completion.refused->0 matches SendRefusal::Closed(refused)
            &&& refused@ == outcome
        },
{
}

/// An executor ends a request exactly when it is told of a token or a status of a child that some
/// request in flight starts, and that event decides the start; the request that ends is one that
/// starts this child.
pub proof fn law_when_a_request_ends(
    before: StartAgentExecutorView,
    event: BlocklistAIHistoryEvent,
    history: Map<AIConversationId, AIConversation>,
    orchestration_v2: bool,
    r: Option<StartAgentCompletion>,
    after: StartAgentExecutorView,
)
    requires
        handles_event(before, event, history, orchestration_v2, r, after),
    ensures
        r is Some <==> conversation_decided_by(event) is Some && outcome_of_event(
            event,
            history,
        ) is Some && before.is_starting(conversation_decided_by(event)->0),
        r matches Some(completion) ==> {
            let id = completion.request_id@;
            &&& before.pending.contains_key(id)
            &&& before.pending[id].child_conversation_id == conversation_decided_by(event)
            &&& !after.pending.contains_key(id)
            &&& sender_channel(completion.spent.sender) == before.pending[id].channel
            &&& notice_view(completion.notice) == notice_of_event(
                event,
                history,
                orchestration_v2,
                before.pending[id].parent_conversation_id,
            )
        },
{
}

/// A request is put in flight and its child is recorded. When the server assigns a token to that
/// child, whoever waits for the request gets the agent id that the history has for the child, and
/// the call is answered with it, unless the channel was closed.
pub proof fn law_started_child_answers_its_call(
    state: StartAgentExecutorView,
    parent: AIConversationId,
    channel: int,
    child: AIConversationId,
    history: Map<AIConversationId, AIConversation>,
    agent_id: String,
    orchestration_v2: bool,
    r: Option<StartAgentCompletion>,
    after: StartAgentExecutorView,
    version: StartAgentVersion,
)
    requires
        !state.is_starting(child),
        history.contains_key(child),
        history[child].orchestration_agent_id == Some(agent_id),
        handles_event(
            state.after_dispatch(parent, channel).after_record(state.next_request_id, child),
            BlocklistAIHistoryEvent::ConversationServerTokenAssigned { conversation_id: child },
            history,
            orchestration_v2,
            r,
            after,
        ),
    ensures
        r is Some,
        sender_channel(r->0.spent.sender) == channel,
        !channel_is_closed(r->0.spent.sender) ==> {
            &&& sent_outcomes(r->0.spent.sender).len() == 1
            &&& sent_outcomes(r->0.spent.sender)[0] == (StartAgentOutcomeView::Started {
                agent_id: agent_id@,
            })
            &&& answer_to_call(Some(sent_outcomes(r->0.spent.sender)[0]), version) == (
            StartAgentResultView::Success { agent_id: agent_id@, version })
        },
        !after.pending.contains_key(state.next_request_id),
{
    law_outcome_reaches_its_request(
        state,
        parent,
        channel,
        child,
        BlocklistAIHistoryEvent::ConversationServerTokenAssigned { conversation_id: child },
        history,
        orchestration_v2,
        r,
        after,
    );
}

/// A request is put in flight and its child is recorded. When the child fails, is cancelled or is
/// blocked, whoever waits for the request gets the message for that status, and the call is
/// answered with it as an error, unless the channel was closed.
pub proof fn law_failed_child_answers_its_call(
    state: StartAgentExecutorView,
    parent: AIConversationId,
    channel: int,
    child: AIConversationId,
    history: Map<AIConversationId, AIConversation>,
    message: Seq<char>,
    orchestration_v2: bool,
    r: Option<StartAgentCompletion>,
    after: StartAgentExecutorView,
    version: StartAgentVersion,
)
    requires
        !state.is_starting(child),
        history.contains_key(child),
        error_message_for_status(
            history[child].status,
            match history[child].status_error_message {
                Some(reported) => Some(reported@),
                None => None,
            },
        ) == Some(message),
        handles_event(
            state.after_dispatch(parent, channel).after_record(state.next_request_id, child),
            BlocklistAIHistoryEvent::UpdatedConversationStatus { conversation_id: child },
            history,
            orchestration_v2,
            r,
            after,
        ),
    ensures
        r is Some,
        sender_channel(r->0.spent.sender) == channel,
        !channel_is_closed(r->0.spent.sender) ==> {
            &&& sent_outcomes(r->0.spent.sender).len() == 1
            &&& sent_outcomes(r->0.spent.sender)[0] == StartAgentOutcomeView::Error(message)
            &&& answer_to_call(Some(sent_outcomes(r->0.spent.sender)[0]), version) == (
            StartAgentResultView::Error { error: message, version })
        },
        !after.pending.contains_key(state.next_request_id),
{
    law_outcome_reaches_its_request(
        state,
        parent,
        channel,
        child,
        BlocklistAIHistoryEvent::UpdatedConversationStatus { conversation_id: child },
        history,
        orchestration_v2,
        r,
        after,
    );
}

/// Whether everybody who waits for a request in flight is still owed its outcome: nothing has gone
/// into the channel of the request, the channel has room for one outcome, and the request alone
/// sends into it.
pub open spec fn outcomes_are_owed(state: StartAgentExecutorView) -> bool {
    forall|id: u64| #[trigger]
        state.pending.contains_key(id) ==> {
            &&& state.pending[id].sent == Seq::<StartAgentOutcomeView>::empty()
            &&& state.pending[id].capacity == 1
            &&& state.pending[id].is_only_sender
        }
}

/// Nothing is sent to anybody who waits for a request before the request ends: that holds of an
/// executor without requests, and whatever the executor does keeps it so.
pub proof fn law_outcomes_are_owed(
    state: StartAgentExecutorView,
    parent: AIConversationId,
    channel: int,
    id: u64,
    child: AIConversationId,
    event: BlocklistAIHistoryEvent,
    history: Map<AIConversationId, AIConversation>,
    orchestration_v2: bool,
    r: Option<StartAgentCompletion>,
    after: StartAgentExecutorView,
)
    ensures
        state.pending == Map::<u64, PendingStartAgentView>::empty() ==> outcomes_are_owed(state),
        outcomes_are_owed(state) ==> {
            &&& outcomes_are_owed(state.after_dispatch(parent, channel))
            &&& outcomes_are_owed(state.after_record(id, child))
            &&& outcomes_are_owed(state.after_completion(id))
            &&& handles_event(state, event, history, orchestration_v2, r, after)
                ==> outcomes_are_owed(after)
        },
{
}

/// Requests that are put in flight one after the other get different ids, and each is kept under
/// its own id with its own parent and channel, whatever the others are; so is every request whose
/// id was not reached.
pub proof fn law_fan_out_keeps_every_request(
    state: StartAgentExecutorView,
    requests: Seq<(AIConversationId, int)>,
)
    requires
        requests.len() <= 0x1_0000_0000_0000_0000,
    ensures
        after_fan_out(state, requests).next_request_id == fan_out_id(state, requests.len() as int),
        forall|i: int, j: int|
            0 <= i < j < requests.len() ==> #[trigger] fan_out_id(state, i)
                != #[trigger] fan_out_id(state, j),
        forall|i: int|
            0 <= i < requests.len() ==> {
                &&& after_fan_out(state, requests).pending.contains_key(
                    #[trigger] fan_out_id(state, i),
                )
                &&& after_fan_out(state, requests).pending[fan_out_id(state, i)] == new_request(
                    requests[i].0,
                    requests[i].1,
                )
            },
        forall|id: u64|
            #![trigger after_fan_out(state, requests).pending.contains_key(id)]
            #![trigger state.pending.contains_key(id)]
            (forall|i: int| 0 <= i < requests.len() ==> id != #[trigger] fan_out_id(state, i))
                ==> {
                &&& after_fan_out(state, requests).pending.contains_key(id)
                    == state.pending.contains_key(id)
                &&& after_fan_out(state, requests).pending[id] == state.pending[id]
            },
    decreases requests.len(),
{
    if requests.len() > 0 {
        let n = requests.len() - 1;
        let earlier = requests.drop_last();
        law_fan_out_keeps_every_request(state, earlier);
        let middle = after_fan_out(state, earlier);
        let end = after_fan_out(state, requests);
        assert(middle.next_request_id == fan_out_id(state, n));
        assert forall|i: int, j: int| 0 <= i < j < requests.len() implies #[trigger] fan_out_id(
            state,
            i,
        ) != #[trigger] fan_out_id(state, j) by {}
        assert forall|i: int| 0 <= i < requests.len() implies {
            &&& end.pending.contains_key(#[trigger] fan_out_id(state, i))
            &&& end.pending[fan_out_id(state, i)] == new_request(requests[i].0, requests[i].1)
        } by {
            if i < n {
                assert(earlier[i] == requests[i]);
                assert(fan_out_id(state, i) != fan_out_id(state, n));
            }
        }
        assert forall|id: u64|
            (forall|i: int| 0 <= i < requests.len() ==> id != #[trigger] fan_out_id(
                state,
                i,
            )) implies {
            &&& #[trigger] end.pending.contains_key(id) == state.pending.contains_key(id)
            &&& end.pending[id] == state.pending[id]
        } by {
            assert(id != fan_out_id(state, n));
        }
    }
}

/// Whether every request in flight has an id below the counter, which holds until the ids start
/// over.
pub open spec fn ids_are_below_counter(state: StartAgentExecutorView) -> bool {
    forall|id: u64| #[trigger] state.pending.contains_key(id) ==> id < state.next_request_id
}

/// While the ids have not started over, a new request takes no id that is in use: it displaces no
/// request in flight. Recording a child and ending a request keep that so.
pub proof fn law_new_request_displaces_none(
    state: StartAgentExecutorView,
    parent: AIConversationId,
    channel: int,
    id: u64,
    child: AIConversationId,
)
    requires
        ids_are_below_counter(state),
    ensures
        !state.pending.contains_key(state.next_request_id),
        state.pending.submap_of(state.after_dispatch(parent, channel).pending),
        state.next_request_id < u64::MAX ==> ids_are_below_counter(
            state.after_dispatch(parent, channel),
        ),
        ids_are_below_counter(state.after_record(id, child)),
        ids_are_below_counter(state.after_completion(id)),
{
    let next = state.after_dispatch(parent, channel);
    assert forall|k: u64| #[trigger] state.pending.contains_key(k) implies next.pending.contains_key(
        k,
    ) && state.pending[k] == next.pending[k] by {}
}

/// The ids grow from one request to the next until they start over.
pub proof fn law_ids_increase(state: StartAgentExecutorView, parent: AIConversationId, channel: int)
    ensures
        state.next_request_id < u64::MAX ==> state.next_request_id < state.after_dispatch(
            parent,
            channel,
        ).next_request_id,
        state.next_request_id == u64::MAX ==> state.after_dispatch(parent, channel).next_request_id
            == 0,
{
}

/// An executor that has just been made has no request in flight, so its ids are below its counter.
pub proof fn law_ids_start_below_counter(state: StartAgentExecutorView)
    requires
        state.pending == Map::<u64, PendingStartAgentView>::empty(),
    ensures
        ids_are_below_counter(state),
{
}

/// A request in flight keeps its parent and its channel until it ends, whatever happens to the
/// others: through a new request that takes another id, through the recording of any child, and
/// through the end of another request.
pub proof fn law_request_keeps_its_channel(
    state: StartAgentExecutorView,
    id: u64,
    parent: AIConversationId,
    channel: int,
    recorded: u64,
    child: AIConversationId,
    ended: u64,
)
    requires
        state.pending.contains_key(id),
    ensures
        id != state.next_request_id ==> {
            &&& state.after_dispatch(parent, channel).pending.contains_key(id)
            &&& state.after_dispatch(parent, channel).pending[id] == state.pending[id]
        },
        ({
            let after = state.after_record(recorded, child);
            &&& after.pending.contains_key(id)
            &&& after.pending[id].parent_conversation_id == state.pending[id].parent_conversation_id
            &&& after.pending[id].channel == state.pending[id].channel
            &&& after.pending[id].child_conversation_id == if recorded == id {
                Some(child)
            } else {
                state.pending[id].child_conversation_id
            }
        }),
        id != ended ==> {
            &&& state.after_completion(ended).pending.contains_key(id)
            &&& state.after_completion(ended).pending[id] == state.pending[id]
        },
{
}

/// Where a request in flight is the only one that starts a child, an event that decides the start
/// of that child ends this very request, and the outcome goes into the channel that the request
/// has had since it was put in flight, unless that channel was closed.
pub proof fn law_only_request_for_a_child_ends(
    before: StartAgentExecutorView,
    id: u64,
    child: AIConversationId,
    event: BlocklistAIHistoryEvent,
    history: Map<AIConversationId, AIConversation>,
    orchestration_v2: bool,
    r: Option<StartAgentCompletion>,
    after: StartAgentExecutorView,
)
    requires
        before.starts_child(id, child),
        forall|other: u64| #[trigger] before.starts_child(other, child) ==> other == id,
        conversation_decided_by(event) == Some(child),
        outcome_of_event(event, history) is Some,
        handles_event(before, event, history, orchestration_v2, r, after),
    ensures
        r matches Some(completion) && delivers(
            completion,
            id,
            before.pending[id],
            outcome_of_event(event, history)->0,
        ),
        !r->0.spent.is_closed() ==> r->0.spent.sent() == seq![outcome_of_event(event, history)->0],
        after == before.after_completion(id),
{
}

/// A request is put in flight, its child is recorded, and an event decides the start of that
/// child: then this very request ends, and its outcome goes into the channel whose receiver was
/// handed out for it, unless that channel was closed. No other request changes.
pub proof fn law_outcome_reaches_its_request(
    state: StartAgentExecutorView,
    parent: AIConversationId,
    channel: int,
    child: AIConversationId,
    event: BlocklistAIHistoryEvent,
    history: Map<AIConversationId, AIConversation>,
    orchestration_v2: bool,
    r: Option<StartAgentCompletion>,
    after: StartAgentExecutorView,
)
    requires
        !state.is_starting(child),
        conversation_decided_by(event) == Some(child),
        outcome_of_event(event, history) is Some,
        handles_event(
            state.after_dispatch(parent, channel).after_record(state.next_request_id, child),
            event,
            history,
            orchestration_v2,
            r,
            after,
        ),
    ensures
        r matches Some(completion) && delivers(
            completion,
            state.next_request_id,
            PendingStartAgentView {
                child_conversation_id: Some(child),
                ..new_request(parent, channel)
            },
            outcome_of_event(event, history)->0,
        ) && notice_view(completion.notice) == notice_of_event(
            event,
            history,
            orchestration_v2,
            parent,
        ),
        !r->0.spent.is_closed() ==> r->0.spent.sent() == seq![outcome_of_event(event, history)->0],
        after.pending == state.pending.remove(state.next_request_id),
        after.next_request_id == request_id_after(state.next_request_id),
{
    let id = state.next_request_id;
    let recorded = state.after_dispatch(parent, channel).after_record(id, child);
    assert(recorded.starts_child(id, child));
    assert forall|other: u64| #[trigger] recorded.starts_child(other, child) implies other == id by {
        if other != id {
            assert(state.starts_child(other, child));
        }
    }
    assert(after.pending =~= state.pending.remove(id));
}

/// Two requests are put in flight, the child of each is recorded, and an event decides the start of
/// the second child: then the second request ends, and its outcome goes into the channel that was
/// made for it, unless that channel was closed. The first stays in flight as it was, with nothing
/// sent to whoever waits for it, though both may have the same parent.
pub proof fn law_siblings_are_told_apart(
    state: StartAgentExecutorView,
    first_parent: AIConversationId,
    first_channel: int,
    first_child: AIConversationId,
    parent: AIConversationId,
    channel: int,
    child: AIConversationId,
    event: BlocklistAIHistoryEvent,
    history: Map<AIConversationId, AIConversation>,
    orchestration_v2: bool,
    r: Option<StartAgentCompletion>,
    after: StartAgentExecutorView,
)
    requires
        !state.is_starting(child),
        first_child != child,
        conversation_decided_by(event) == Some(child),
        outcome_of_event(event, history) is Some,
        handles_event(
            state.after_dispatch(first_parent, first_channel).after_dispatch(
                parent,
                channel,
            ).after_record(state.next_request_id, first_child).after_record(
                request_id_after(state.next_request_id),
                child,
            ),
            event,
            history,
            orchestration_v2,
            r,
            after,
        ),
    ensures
        r matches Some(completion) && delivers(
            completion,
            request_id_after(state.next_request_id),
            PendingStartAgentView {
                child_conversation_id: Some(child),
                ..new_request(parent, channel)
            },
            outcome_of_event(event, history)->0,
        ),
        !r->0.spent.is_closed() ==> r->0.spent.sent() == seq![outcome_of_event(event, history)->0],
        after.pending.contains_key(state.next_request_id),
        after.pending[state.next_request_id] == (PendingStartAgentView {
            child_conversation_id: Some(first_child),
            ..new_request(first_parent, first_channel)
        }),
        !after.pending.contains_key(request_id_after(state.next_request_id)),
{
    let first = state.next_request_id;
    let second = request_id_after(first);
    let recorded = state.after_dispatch(first_parent, first_channel).after_dispatch(
        parent,
        channel,
    ).after_record(first, first_child).after_record(second, child);
    assert(recorded.starts_child(second, child));
    assert forall|other: u64| #[trigger] recorded.starts_child(other, child) implies other
        == second by {
        if other != first && other != second {
            assert(state.starts_child(other, child));
        }
    }
}

/// A history event about a conversation that no request in flight is known to start is ignored. A
/// request whose child has not been recorded is therefore left alone.
pub proof fn law_unrecorded_child_is_ignored(
    state: StartAgentExecutorView,
    child: AIConversationId,
    event: BlocklistAIHistoryEvent,
    history: Map<AIConversationId, AIConversation>,
    orchestration_v2: bool,
    r: Option<StartAgentCompletion>,
    after: StartAgentExecutorView,
)
    requires
        conversation_decided_by(event) == Some(child),
        forall|id: u64| #[trigger]
            state.pending.contains_key(id) ==> state.pending[id].child_conversation_id != Some(
                child,
            ),
        handles_event(state, event, history, orchestration_v2, r, after),
    ensures
        r is None,
        after == state,
{
    assert forall|id: u64| !(#[trigger] state.starts_child(id, child)) by {
        assert(state.pending.contains_key(id) ==> state.pending[id].child_conversation_id != Some(
            child,
        ));
    }
}

/// An event ends at most one request; that request is no longer in flight afterwards, and all the
/// others are as they were.
pub proof fn law_one_request_ends_at_a_time(
    before: StartAgentExecutorView,
    event: BlocklistAIHistoryEvent,
    history: Map<AIConversationId, AIConversation>,
    orchestration_v2: bool,
    r: Option<StartAgentCompletion>,
    after: StartAgentExecutorView,
)
    requires
        handles_event(before, event, history, orchestration_v2, r, after),
    ensures
        after.next_request_id == before.next_request_id,
        r is None ==> after == before,
        r matches Some(completion) ==> {
            &&& before.pending.contains_key(completion.request_id@)
            &&& !after.pending.contains_key(completion.request_id@)
        },
        forall|id: u64|
            r is None || id != r->0.request_id@ ==> {
                &&& #[trigger] after.pending.contains_key(id) == before.pending.contains_key(id)
                &&& after.pending[id] == before.pending[id]
            },
{
}

/// Where one request alone starts a child, the event that ends it is handled once: told of the
/// same event again, or of any other about that child, the executor does nothing.
pub proof fn law_a_request_ends_once(
    before: StartAgentExecutorView,
    id: u64,
    child: AIConversationId,
    first: BlocklistAIHistoryEvent,
    history: Map<AIConversationId, AIConversation>,
    orchestration_v2: bool,
    r: Option<StartAgentCompletion>,
    between: StartAgentExecutorView,
    second: BlocklistAIHistoryEvent,
    later_history: Map<AIConversationId, AIConversation>,
    later_orchestration_v2: bool,
    later_r: Option<StartAgentCompletion>,
    after: StartAgentExecutorView,
)
    requires
        before.starts_child(id, child),
        forall|other: u64| #[trigger] before.starts_child(other, child) ==> other == id,
        conversation_decided_by(first) == Some(child),
        conversation_decided_by(second) == Some(child),
        outcome_of_event(first, history) is Some,
        handles_event(before, first, history, orchestration_v2, r, between),
        handles_event(between, second, later_history, later_orchestration_v2, later_r, after),
    ensures
        r is Some,
        later_r is None,
        after == between,
{
    assert forall|other: u64| !(#[trigger] between.starts_child(other, child)) by {
        if between.starts_child(other, child) {
            assert(before.starts_child(other, child));
        }
    }
}

/// A token for a child ends its start, one way or the other; a status ends it only as a failure,
/// and only where the child has failed, was cancelled or is blocked.
pub proof fn law_what_ends_a_start(
    child: AIConversationId,
    history: Map<AIConversationId, AIConversation>,
)
    ensures
        outcome_of_event(
            BlocklistAIHistoryEvent::ConversationServerTokenAssigned { conversation_id: child },
            history,
        ) is Some,
        ({
            let outcome = outcome_of_event(
                BlocklistAIHistoryEvent::UpdatedConversationStatus { conversation_id: child },
                history,
            );
            &&& outcome !is Some || outcome->0 is Error
            &&& outcome is Some <==> history.contains_key(child) && (history[child].status is Error
                || history[child].status is Cancelled || history[child].status is Blocked)
        }),
{
}

/// With orchestration v2 the only notice is to watch the run of a child that has started; without
/// it the parent is told of every end, with the message that the call is answered.
pub proof fn law_notices(
    event: BlocklistAIHistoryEvent,
    history: Map<AIConversationId, AIConversation>,
    parent: AIConversationId,
)
    requires
        outcome_of_event(event, history) is Some,
    ensures
        match outcome_of_event(event, history)->0 {
            StartAgentOutcomeView::Started { agent_id } => {
                &&& notice_of_event(event, history, true, parent) == Some(
                    StartupNoticeView::RegisterWatchedRunId {
                        parent_conversation_id: parent,
                        run_id: agent_id,
                    },
                )
                &&& notice_of_event(event, history, false, parent) == Some(
                    StartupNoticeView::ChildStartupStarted {
                        conversation_id: conversation_decided_by(event)->0,
                    },
                )
            },
            StartAgentOutcomeView::Error(error) => {
                &&& notice_of_event(event, history, true, parent) is None
                &&& notice_of_event(event, history, false, parent) matches Some(
                    StartupNoticeView::ChildStartupErrored { conversation_id, message, .. },
                ) && conversation_id == conversation_decided_by(event)->0 && message == error
            },
        },
{
}

proof fn lemma_not_blank(s: Seq<char>)
    requires
        s.len() > 0,
        !is_white_space(s[0]),
    ensures
        trimmed(s).len() > 0,
{
    lemma_trimmed_is_empty_iff_blank(s);
    assert(!is_blank(s));
}

/// A child that failed to start is never reported with a blank message.
pub proof fn law_failures_are_explained(
    status: ConversationStatus,
    error_message: Option<Seq<char>>,
)
    ensures
        error_message_for_status(status, error_message) matches Some(message) ==> !is_blank(
            message,
        ),
{
    reveal_strlit("Child agent failed to initialize");
    reveal_strlit("Child agent was cancelled before initialization");
    reveal_strlit("Child agent startup was blocked before initialization");
    lemma_not_blank("Child agent failed to initialize"@);
    lemma_not_blank("Child agent was cancelled before initialization"@);
    lemma_not_blank("Child agent startup was blocked before initialization"@);
    match error_message_for_status(status, error_message) {
        Some(message) => {
            if let ConversationStatus::Blocked { blocked_action } = status {
                lemma_trimmed_ends(blocked_action@);
                if trimmed(blocked_action@).len() > 0 {
                    lemma_not_blank(message);
                }
            }
            lemma_trimmed_is_empty_iff_blank(message);
        },
        None => {},
    }
}

/// A local child of the built-in agent is always accepted as it is: it needs neither orchestration
/// v2 nor the run of its parent.
pub proof fn law_built_in_local_child_is_accepted(
    mode: StartAgentExecutionMode,
    readings: HarnessReadings,
    orchestration_v2: bool,
    parent_run_id: Option<String>,
)
    requires
        mode matches StartAgentExecutionMode::Local { harness_type: None, .. },
    ensures
        launch_of(mode, readings, orchestration_v2, parent_run_id) == Ok::<
            (StartAgentExecutionMode, Option<String>),
            Seq<char>,
        >((mode, None)),
{
}

/// Every other child is accepted only under orchestration v2 and only with the run of its parent,
/// which it is given.
pub proof fn law_other_children_need_v2_and_a_run(
    mode: StartAgentExecutionMode,
    readings: HarnessReadings,
    orchestration_v2: bool,
    parent_run_id: Option<String>,
)
    requires
        !(mode matches StartAgentExecutionMode::Local { harness_type: None, .. }),
    ensures
        launch_of(mode, readings, orchestration_v2, parent_run_id) matches Ok((_, run_id)) ==> {
            &&& orchestration_v2
            &&& parent_run_id is Some
            &&& run_id == parent_run_id
        },
{
}

/// A remote child is accepted or refused whatever its environment id is, a blank one too, and an
/// accepted one keeps it.
pub proof fn law_environment_is_not_checked(
    environment_id: String,
    other_environment_id: String,
    skill_references: Vec<String>,
    model_id: String,
    computer_use_enabled: bool,
    worker_host: String,
    harness_type: String,
    title: String,
    readings: HarnessReadings,
    orchestration_v2: bool,
    parent_run_id: Option<String>,
)
    ensures
        ({
            let launch = launch_of(
                StartAgentExecutionMode::Remote {
                    environment_id,
                    skill_references,
                    model_id,
                    computer_use_enabled,
                    worker_host,
                    harness_type,
                    title,
                },
                readings,
                orchestration_v2,
                parent_run_id,
            );
            let other = launch_of(
                StartAgentExecutionMode::Remote {
                    environment_id: other_environment_id,
                    skill_references,
                    model_id,
                    computer_use_enabled,
                    worker_host,
                    harness_type,
                    title,
                },
                readings,
                orchestration_v2,
                parent_run_id,
            );
            &&& launch is Ok == other is Ok
            &&& launch is Err ==> launch->Err_0 == other->Err_0
            &&& launch matches Ok((
                StartAgentExecutionMode::Remote { environment_id: kept, .. },
                _,
            )) ==> kept == environment_id
        }),
{
}

/// A remote child never runs with the opencode harness.
pub proof fn law_remote_open_code_is_refused(
    mode: StartAgentExecutionMode,
    readings: HarnessReadings,
    orchestration_v2: bool,
    parent_run_id: Option<String>,
)
    requires
        mode is Remote,
        readings.canonical_is_open_code,
    ensures
        launch_of(mode, readings, orchestration_v2, parent_run_id) is Err,
{
}

} // verus!
