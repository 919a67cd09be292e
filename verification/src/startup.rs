//! What a change in the history means for a child agent that is starting.

use vstd::prelude::*;

use crate::agent::AIConversation;
use crate::agent::AIConversationId;
use crate::agent::BlocklistAIHistoryEvent;
use crate::agent::BlocklistAIHistoryModel;
use crate::agent::ConversationStatus;
use crate::outcome::StartAgentOutcome;
use crate::outcome::StartAgentOutcomeView;
use crate::text::blank;
use crate::text::str_view;
use crate::text::text_view;
use crate::text::trim;
use crate::text::trimmed;

verus! {

/// Why a child with this status did not start; `None` while it still may.
pub open spec fn error_message_for_status(
    status: ConversationStatus,
    error_message: Option<Seq<char>>,
) -> Option<Seq<char>> {
    match status {
        ConversationStatus::Error => Some(
            match error_message {
                Some(message) if trimmed(message).len() > 0 => message,
                _ => "Child agent failed to initialize"@,
            },
        ),
        ConversationStatus::Cancelled => Some("Child agent was cancelled before initialization"@),
        ConversationStatus::Blocked { blocked_action } => Some(
            if trimmed(blocked_action@).len() > 0 {
                trimmed(blocked_action@)
            } else {
                "Child agent startup was blocked before initialization"@
            },
        ),
        ConversationStatus::InProgress | ConversationStatus::Success => None,
    }
}

/// Why a child with this status did not start; `None` while it still may.
pub fn start_agent_error_message_for_status(
    status: &ConversationStatus,
    error_message: Option<&str>,
) -> (r: Option<String>)
    ensures
        text_view(r) == error_message_for_status(*status, str_view(error_message)),
{
    match status {
        ConversationStatus::Error => {
            match error_message {
                Some(message) => {
                    if !blank(message) {
                        return Some(message.to_string());
                    }
                },
                None => {},
            }
            Some("Child agent failed to initialize".to_string())
        },
        ConversationStatus::Cancelled => Some(
            "Child agent was cancelled before initialization".to_string(),
        ),
        ConversationStatus::Blocked { blocked_action } => {
            let blocked_action = trim(blocked_action.as_str());
            if blocked_action.is_empty() {
                Some("Child agent startup was blocked before initialization".to_string())
            } else {
                Some(blocked_action.to_string())
            }
        },
        ConversationStatus::InProgress | ConversationStatus::Success => None,
    }
}

/// What the rest of the application is told when a child has started or failed to.
#[derive(Clone, Debug)]
pub enum StartupNotice {
    /// Watch the run of the child on behalf of its parent.
    RegisterWatchedRunId { parent_conversation_id: AIConversationId, run_id: String },
    /// The child has started.
    ChildStartupStarted { conversation_id: AIConversationId },
    /// The child has failed to start.
    ChildStartupErrored { conversation_id: AIConversationId, reason: String, message: String },
}

/// A [`StartupNotice`] with its texts as sequences of characters.
pub enum StartupNoticeView {
    RegisterWatchedRunId { parent_conversation_id: AIConversationId, run_id: Seq<char> },
    ChildStartupStarted { conversation_id: AIConversationId },
    ChildStartupErrored {
        conversation_id: AIConversationId,
        reason: Seq<char>,
        message: Seq<char>,
    },
}

impl View for StartupNotice {
    type V = StartupNoticeView;

    open spec fn view(&self) -> StartupNoticeView {
        match *self {
            StartupNotice::RegisterWatchedRunId { parent_conversation_id, run_id } =>
                StartupNoticeView::RegisterWatchedRunId { parent_conversation_id, run_id: run_id@ },
            StartupNotice::ChildStartupStarted { conversation_id } =>
                StartupNoticeView::ChildStartupStarted { conversation_id },
            StartupNotice::ChildStartupErrored { conversation_id, reason, message } =>
                StartupNoticeView::ChildStartupErrored {
                    conversation_id,
                    reason: reason@,
                    message: message@,
                },
        }
    }
}

/// The conversation that `event` is about, where it can decide a start.
pub open spec fn conversation_decided_by(event: BlocklistAIHistoryEvent) -> Option<
    AIConversationId,
> {
    match event {
        BlocklistAIHistoryEvent::ConversationServerTokenAssigned { conversation_id } => Some(
            conversation_id,
        ),
        BlocklistAIHistoryEvent::UpdatedConversationStatus { conversation_id } => Some(
            conversation_id,
        ),
        _ => None,
    }
}

/// The agent id that the server assigned to the conversation `id`, as far as the history knows.
pub open spec fn agent_id_in(
    history: Map<AIConversationId, AIConversation>,
    id: AIConversationId,
) -> Option<Seq<char>> {
    if history.contains_key(id) {
        text_view(history[id].orchestration_agent_id)
    } else {
        None
    }
}

/// Why the conversation `id` failed to start, as far as the history knows.
pub open spec fn failure_in(
    history: Map<AIConversationId, AIConversation>,
    id: AIConversationId,
) -> Option<Seq<char>> {
    if history.contains_key(id) {
        error_message_for_status(
            history[id].status,
            text_view(history[id].status_error_message),
        )
    } else {
        None
    }
}

/// How `event` ends the start of the child that it is about; `None` where the start goes on.
pub open spec fn outcome_of_event(
    event: BlocklistAIHistoryEvent,
    history: Map<AIConversationId, AIConversation>,
) -> Option<StartAgentOutcomeView> {
    match event {
        BlocklistAIHistoryEvent::ConversationServerTokenAssigned { conversation_id } => Some(
            match agent_id_in(history, conversation_id) {
                Some(agent_id) => StartAgentOutcomeView::Started { agent_id },
                None => StartAgentOutcomeView::Error("Server did not assign an agent identifier"@),
            },
        ),
        BlocklistAIHistoryEvent::UpdatedConversationStatus { conversation_id } => match failure_in(
            history,
            conversation_id,
        ) {
            Some(message) => Some(StartAgentOutcomeView::Error(message)),
            None => None,
        },
        _ => None,
    }
}

/// Whom to tell that `event` ended the start of a child of `parent`.
pub open spec fn notice_of_event(
    event: BlocklistAIHistoryEvent,
    history: Map<AIConversationId, AIConversation>,
    orchestration_v2: bool,
    parent: AIConversationId,
) -> Option<StartupNoticeView> {
    match (outcome_of_event(event, history), conversation_decided_by(event)) {
        (Some(StartAgentOutcomeView::Started { agent_id }), Some(child)) => Some(
            if orchestration_v2 {
                StartupNoticeView::RegisterWatchedRunId {
                    parent_conversation_id: parent,
                    run_id: agent_id,
                }
            } else {
                StartupNoticeView::ChildStartupStarted { conversation_id: child }
            },
        ),
        (Some(StartAgentOutcomeView::Error(message)), Some(child)) => if orchestration_v2 {
            None
        } else {
            Some(
                StartupNoticeView::ChildStartupErrored {
                    conversation_id: child,
                    reason: if event is ConversationServerTokenAssigned {
                        "missing_agent_id"@
                    } else {
                        "conversation_status"@
                    },
                    message,
                },
            )
        },
        _ => None,
    }
}

/// A [`StartupNotice`] that may be absent, with its texts as sequences of characters.
pub open spec fn notice_view(notice: Option<StartupNotice>) -> Option<StartupNoticeView> {
    match notice {
        Some(notice) => Some(notice@),
        None => None,
    }
}

/// The conversation that `event` is about, where it can decide a start.
pub fn decided_conversation(event: &BlocklistAIHistoryEvent) -> (r: Option<AIConversationId>)
    ensures
        r == conversation_decided_by(*event),
{
    match event {
        BlocklistAIHistoryEvent::ConversationServerTokenAssigned { conversation_id } => Some(
            *conversation_id,
        ),
        BlocklistAIHistoryEvent::UpdatedConversationStatus { conversation_id } => Some(
            *conversation_id,
        ),
        _ => None,
    }
}

/// How `event` ends the start of a child of `parent`, and whom to tell; `None` where the start
/// goes on.
pub fn decide_startup(
    event: &BlocklistAIHistoryEvent,
    history: &BlocklistAIHistoryModel,
    orchestration_v2: bool,
    parent: AIConversationId,
) -> (r: Option<(StartAgentOutcome, Option<StartupNotice>)>)
    ensures
        match outcome_of_event(*event, history@) {
            Some(outcome) => {
                &&& r matches Some((sent, notice))
                &&& sent@ == outcome
                &&& notice_view(notice) == notice_of_event(
                    *event,
                    history@,
                    orchestration_v2,
                    parent,
                )
            },
            None => r is None,
        },
{
    match event {
        BlocklistAIHistoryEvent::ConversationServerTokenAssigned { conversation_id } => {
            let agent_id: Option<String> = match history.conversation(conversation_id) {
                Some(conversation) => match &conversation.orchestration_agent_id {
                    Some(agent_id) => Some(agent_id.clone()),
                    None => None,
                },
                None => None,
            };
            match agent_id {
                Some(agent_id) => {
                    let notice = if orchestration_v2 {
                        StartupNotice::RegisterWatchedRunId {
                            parent_conversation_id: parent,
                            run_id: agent_id.clone(),
                        }
                    } else {
                        StartupNotice::ChildStartupStarted { conversation_id: *conversation_id }
                    };
                    Some((StartAgentOutcome::Started { agent_id }, Some(notice)))
                },
                None => {
                    let notice = if orchestration_v2 {
                        None
                    } else {
                        Some(
                            StartupNotice::ChildStartupErrored {
                                conversation_id: *conversation_id,
                                reason: "missing_agent_id".to_string(),
                                message: "Server did not assign an agent identifier".to_string(),
                            },
                        )
                    };
                    Some(
                        (
                            StartAgentOutcome::Error(
                                "Server did not assign an agent identifier".to_string(),
                            ),
                            notice,
                        ),
                    )
                },
            }
        },
        BlocklistAIHistoryEvent::UpdatedConversationStatus { conversation_id } => {
            let conversation = match history.conversation(conversation_id) {
                Some(conversation) => conversation,
                None => return None,
            };
            let reported: Option<&str> = match &conversation.status_error_message {
                Some(message) => Some(message.as_str()),
                None => None,
            };
            match start_agent_error_message_for_status(&conversation.status, reported) {
                Some(message) => {
                    let notice = if orchestration_v2 {
                        None
                    } else {
                        Some(
                            StartupNotice::ChildStartupErrored {
                                conversation_id: *conversation_id,
                                reason: "conversation_status".to_string(),
                                message: message.clone(),
                            },
                        )
                    };
                    Some((StartAgentOutcome::Error(message), notice))
                },
                None => None,
            }
        },
        _ => None,
    }
}

} // verus!
