//! What the history says of a child that is starting, in terms of what was recorded of it.

use vstd::prelude::*;

use crate::agent::AIConversation;
use crate::agent::AIConversationId;
use crate::agent::BlocklistAIHistoryEvent;
use crate::agent::ConversationStatus;
use crate::agent::StartAgentResult;
use crate::agent::StartAgentResultView;
use crate::agent::StartAgentVersion;
use crate::outcome::StartAgentOutcome;
use crate::outcome::StartAgentOutcomeView;
use crate::start_agent::answer_to_call;
use crate::startup::conversation_decided_by;
use crate::startup::error_message_for_status;
use crate::startup::notice_of_event;
use crate::startup::notice_view;
use crate::startup::outcome_of_event;
use crate::startup::StartupNotice;
use crate::startup::StartupNoticeView;
use crate::text::is_blank;
use crate::text::is_white_space;
use crate::text::law_trim;
use crate::text::lemma_trimmed_is_empty_iff_blank;

verus! {

/// A token for a child starts it with the agent id that the history has for it, whatever else the
/// history has: its run, its status, what it reports, and all other conversations.
pub proof fn law_token_starts_with_the_agent_id(
    child: AIConversationId,
    history: Map<AIConversationId, AIConversation>,
    agent_id: String,
    run_id: Option<String>,
    status: ConversationStatus,
    status_error_message: Option<String>,
)
    ensures
        outcome_of_event(
            BlocklistAIHistoryEvent::ConversationServerTokenAssigned { conversation_id: child },
            history.insert(
                child,
                AIConversation {
                    orchestration_agent_id: Some(agent_id),
                    run_id,
                    status,
                    status_error_message,
                },
            ),
        ) == Some(StartAgentOutcomeView::Started { agent_id: agent_id@ }),
{
}

/// A token for a child without an agent id, or for one that the history does not know, is an error.
pub proof fn law_token_without_agent_id_is_an_error(
    child: AIConversationId,
    history: Map<AIConversationId, AIConversation>,
)
    requires
        history.contains_key(child) ==> history[child].orchestration_agent_id is None,
    ensures
        outcome_of_event(
            BlocklistAIHistoryEvent::ConversationServerTokenAssigned { conversation_id: child },
            history,
        ) == Some(
            StartAgentOutcomeView::Error("Server did not assign an agent identifier"@),
        ),
{
}

/// A status ends the start of a child with the message for the status that the history has for that
/// very child, with what the child reports of it; agent id and run do not matter, nor do other
/// conversations. A child that the history does not know goes on starting.
pub proof fn law_status_ends_with_its_message(
    child: AIConversationId,
    history: Map<AIConversationId, AIConversation>,
    conversation: AIConversation,
)
    ensures
        ({
            let event = BlocklistAIHistoryEvent::UpdatedConversationStatus {
                conversation_id: child,
            };
            let outcome = outcome_of_event(event, history.insert(child, conversation));
            let expected = error_message_for_status(
                conversation.status,
                match conversation.status_error_message {
                    Some(message) => Some(message@),
                    None => None,
                },
            );
            &&& outcome is Some <==> expected is Some
            &&& outcome is Some ==> outcome->0 == StartAgentOutcomeView::Error(expected->0)
            &&& outcome_of_event(event, history.remove(child)) is None
        }),
{
}

/// A failed child is reported with what it reports itself, word for word, unless that is blank.
pub proof fn law_failure_is_reported_verbatim(message: Seq<char>)
    ensures
        !is_blank(message) ==> error_message_for_status(ConversationStatus::Error, Some(message))
            == Some(message),
        is_blank(message) ==> error_message_for_status(ConversationStatus::Error, Some(message))
            == Some("Child agent failed to initialize"@),
        error_message_for_status(ConversationStatus::Error, None) == Some(
            "Child agent failed to initialize"@,
        ),
{
    lemma_trimmed_is_empty_iff_blank(message);
}

/// A blocked child is reported with the action that blocks it, without the white space around it.
pub proof fn law_blocked_child_names_the_action(
    status: ConversationStatus,
    lead: Seq<char>,
    action: Seq<char>,
    trail: Seq<char>,
    reported: Option<Seq<char>>,
)
    requires
        status matches ConversationStatus::Blocked { blocked_action } && blocked_action@ == lead
            + action + trail,
        is_blank(lead),
        is_blank(trail),
        action.len() > 0 ==> !is_white_space(action[0]) && !is_white_space(action.last()),
    ensures
        action.len() > 0 ==> error_message_for_status(status, reported) == Some(action),
        action.len() == 0 ==> error_message_for_status(status, reported) == Some(
            "Child agent startup was blocked before initialization"@,
        ),
{
    law_trim(lead, action, trail);
}

/// A cancelled child is reported as cancelled; one that is on its way or done has not failed.
pub proof fn law_other_statuses(reported: Option<Seq<char>>)
    ensures
        error_message_for_status(ConversationStatus::Cancelled, reported) == Some(
            "Child agent was cancelled before initialization"@,
        ),
        error_message_for_status(ConversationStatus::InProgress, reported) is None,
        error_message_for_status(ConversationStatus::Success, reported) is None,
{
}

/// Tokens and statuses are about the conversation that they name; no other event decides anything.
pub proof fn law_which_events_decide(
    event: BlocklistAIHistoryEvent,
    child: AIConversationId,
    history: Map<AIConversationId, AIConversation>,
    orchestration_v2: bool,
    parent: AIConversationId,
)
    ensures
        event == (BlocklistAIHistoryEvent::ConversationServerTokenAssigned {
            conversation_id: child,
        }) || event == (BlocklistAIHistoryEvent::UpdatedConversationStatus {
            conversation_id: child,
        }) <==> conversation_decided_by(event) == Some(child),
        !(event is ConversationServerTokenAssigned) && !(event is UpdatedConversationStatus) ==> {
            &&& conversation_decided_by(event) is None
            &&& outcome_of_event(event, history) is None
            &&& notice_of_event(event, history, orchestration_v2, parent) is None
        },
{
}

/// Who is told of a child that has started: with orchestration v2 its agent id is watched as a run
/// on behalf of its parent; without it the start of the child is announced.
pub proof fn law_notice_of_a_start(
    child: AIConversationId,
    parent: AIConversationId,
    history: Map<AIConversationId, AIConversation>,
    agent_id: String,
)
    requires
        history.contains_key(child),
        history[child].orchestration_agent_id == Some(agent_id),
    ensures
        ({
            let event = BlocklistAIHistoryEvent::ConversationServerTokenAssigned {
                conversation_id: child,
            };
            &&& notice_of_event(event, history, true, parent) == Some(
                StartupNoticeView::RegisterWatchedRunId {
                    parent_conversation_id: parent,
                    run_id: agent_id@,
                },
            )
            &&& notice_of_event(event, history, false, parent) == Some(
                StartupNoticeView::ChildStartupStarted { conversation_id: child },
            )
        }),
{
}

/// Who is told of a child that did not start: without orchestration v2 its failure is announced,
/// with where it came from and the very message that the caller gets; with it nobody is told. While
/// the child goes on starting nobody is told either.
pub proof fn law_notice_of_a_failure(
    event: BlocklistAIHistoryEvent,
    child: AIConversationId,
    parent: AIConversationId,
    history: Map<AIConversationId, AIConversation>,
    message: Seq<char>,
    orchestration_v2: bool,
)
    ensures
        event == (BlocklistAIHistoryEvent::ConversationServerTokenAssigned {
            conversation_id: child,
        }) && outcome_of_event(event, history) == Some(StartAgentOutcomeView::Error(message)) ==> {
            &&& notice_of_event(event, history, false, parent) == Some(
                StartupNoticeView::ChildStartupErrored {
                    conversation_id: child,
                    reason: "missing_agent_id"@,
                    message,
                },
            )
            &&& notice_of_event(event, history, true, parent) is None
        },
        event == (BlocklistAIHistoryEvent::UpdatedConversationStatus { conversation_id: child })
            && outcome_of_event(event, history) == Some(StartAgentOutcomeView::Error(message)) ==> {
            &&& notice_of_event(event, history, false, parent) == Some(
                StartupNoticeView::ChildStartupErrored {
                    conversation_id: child,
                    reason: "conversation_status"@,
                    message,
                },
            )
            &&& notice_of_event(event, history, true, parent) is None
        },
        outcome_of_event(event, history) is None ==> notice_of_event(
            event,
            history,
            orchestration_v2,
            parent,
        ) is None,
{
}

/// A call is answered what its request came to: the agent id of a child that started, the error of
/// one that did not, and a cancellation where nothing came; always with the version of the call.
pub proof fn law_answers(text: Seq<char>, version: StartAgentVersion)
    ensures
        answer_to_call(Some(StartAgentOutcomeView::Started { agent_id: text }), version) == (
        StartAgentResultView::Success { agent_id: text, version }),
        answer_to_call(Some(StartAgentOutcomeView::Error(text)), version) == (
        StartAgentResultView::Error { error: text, version }),
        answer_to_call(None, version) == (StartAgentResultView::Cancelled { version }),
{
}

/// The views of outcomes, answers and notices keep everything that is in them.
pub proof fn law_startup_views(
    text: String,
    other: String,
    version: StartAgentVersion,
    id: AIConversationId,
    notice: StartupNotice,
)
    ensures
        (StartAgentOutcome::Started { agent_id: text })@ == (StartAgentOutcomeView::Started {
            agent_id: text@,
        }),
        StartAgentOutcome::Error(text)@ == StartAgentOutcomeView::Error(text@),
        (StartAgentResult::Success { agent_id: text, version })@ == (
        StartAgentResultView::Success { agent_id: text@, version }),
        (StartAgentResult::Error { error: text, version })@ == (StartAgentResultView::Error {
            error: text@,
            version,
        }),
        (StartAgentResult::Cancelled { version })@ == (StartAgentResultView::Cancelled { version }),
        (StartupNotice::RegisterWatchedRunId { parent_conversation_id: id, run_id: text })@ == (
        StartupNoticeView::RegisterWatchedRunId { parent_conversation_id: id, run_id: text@ }),
        (StartupNotice::ChildStartupStarted { conversation_id: id })@ == (
        StartupNoticeView::ChildStartupStarted { conversation_id: id }),
        (StartupNotice::ChildStartupErrored { conversation_id: id, reason: text, message: other })@
            == (StartupNoticeView::ChildStartupErrored {
            conversation_id: id,
            reason: text@,
            message: other@,
        }),
        notice_view(Some(notice)) == Some(notice@),
        notice_view(None) == None::<StartupNoticeView>,
{
}

} // verus!
