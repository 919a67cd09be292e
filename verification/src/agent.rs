//! Conversations and agent actions, as far as starting a child agent depends on them.

use std::collections::HashMap;

use vstd::prelude::*;

verus! {

/// Identifies a conversation: the 128 bits of its UUID.
#[derive(Clone, Copy, Debug, PartialEq, Eq, Hash, Structural)]
pub struct AIConversationId(pub u128);

/// How far a conversation has come.
#[derive(Clone, Debug)]
pub enum ConversationStatus {
    InProgress,
    Success,
    Error,
    Cancelled,
    Blocked { blocked_action: String },
}

/// What is known of one conversation.
#[derive(Clone, Debug)]
pub struct AIConversation {
    /// The identifier that the server assigned to the agent behind the conversation.
    pub orchestration_agent_id: Option<String>,
    /// The run that the conversation belongs to.
    pub run_id: Option<String>,
    pub status: ConversationStatus,
    /// What the conversation reports about its status when it has failed.
    pub status_error_message: Option<String>,
}

/// The conversations of the blocklist, by their ids.
pub struct BlocklistAIHistoryModel {
    conversations: HashMap<u128, AIConversation>,
}

impl View for BlocklistAIHistoryModel {
    type V = Map<AIConversationId, AIConversation>;

    closed spec fn view(&self) -> Map<AIConversationId, AIConversation> {
        Map::new(
            |id: AIConversationId| self.conversations@.contains_key(id.0),
            |id: AIConversationId| self.conversations@[id.0],
        )
    }
}

impl BlocklistAIHistoryModel {
    /// A history without conversations.
    pub fn new() -> (r: Self)
        ensures
            r@ == Map::<AIConversationId, AIConversation>::empty(),
    {
        let r = BlocklistAIHistoryModel { conversations: HashMap::new() };
        assert(r@ =~= Map::<AIConversationId, AIConversation>::empty());
        r
    }

    /// Records `conversation` under `id`, in place of what was known of it before.
    pub fn set_conversation(&mut self, id: AIConversationId, conversation: AIConversation)
        ensures
            final(self)@ == old(self)@.insert(id, conversation),
    {
        self.conversations.insert(id.0, conversation);
        assert(self@ =~= old(self)@.insert(id, conversation));
    }

    /// What is known of the conversation `id`.
    pub fn conversation(&self, id: &AIConversationId) -> (r: Option<&AIConversation>)
        ensures
            match r {
                Some(conversation) => self@.contains_key(*id) && *conversation == self@[*id],
                None => !self@.contains_key(*id),
            },
    {
        self.conversations.get(&id.0)
    }
}

/// A change in the history that its observers are told of.
#[derive(Clone, Copy, Debug, PartialEq, Eq, Structural)]
pub enum BlocklistAIHistoryEvent {
    /// The server has assigned a token to the conversation.
    ConversationServerTokenAssigned { conversation_id: AIConversationId },
    /// The status of the conversation has changed.
    UpdatedConversationStatus { conversation_id: AIConversationId },
    StartedNewConversation,
    CreatedSubtask,
    UpgradedTask,
    AppendedExchange,
    ReassignedExchange,
    UpdatedStreamingExchange,
    SetActiveConversation,
    ClearedActiveConversation,
    ClearedConversationsInTerminalView,
    UpdatedTodoList,
    UpdatedAutoexecuteOverride,
    SplitConversation,
    RemoveConversation,
    DeletedConversation,
    RestoredConversations,
    UpdatedConversationMetadata,
    UpdatedConversationArtifacts,
}

/// A kind of lifecycle event, by its name.
#[derive(Clone, Debug)]
pub struct LifecycleEventType(pub String);

/// The version of the start-agent tool that a call was made with.
#[derive(Clone, Copy, Debug, PartialEq, Eq, Structural)]
pub struct StartAgentVersion(pub u32);

/// Where a child agent runs, and with what.
#[allow(inconsistent_fields)]
#[derive(Clone, Debug)]
pub enum StartAgentExecutionMode {
    /// On this machine: the built-in agent, or the third-party harness that is named.
    Local { harness_type: Option<String>, model_id: Option<String> },
    /// On a remote worker.
    Remote {
        environment_id: String,
        skill_references: Vec<String>,
        model_id: String,
        computer_use_enabled: bool,
        worker_host: String,
        harness_type: String,
        title: String,
    },
}

/// An action that an agent asks for.
#[derive(Clone, Debug)]
pub enum AIAgentActionType {
    StartAgent {
        version: StartAgentVersion,
        name: String,
        prompt: String,
        execution_mode: StartAgentExecutionMode,
        lifecycle_subscription: Option<Vec<LifecycleEventType>>,
    },
    /// Any action that does not start an agent.
    Other,
}

/// What a start-agent call is answered.
#[derive(Clone, Debug)]
pub enum StartAgentResult {
    Success { agent_id: String, version: StartAgentVersion },
    Error { error: String, version: StartAgentVersion },
    Cancelled { version: StartAgentVersion },
}

/// A [`StartAgentResult`] with its texts as sequences of characters.
pub enum StartAgentResultView {
    Success { agent_id: Seq<char>, version: StartAgentVersion },
    Error { error: Seq<char>, version: StartAgentVersion },
    Cancelled { version: StartAgentVersion },
}

impl View for StartAgentResult {
    type V = StartAgentResultView;

    open spec fn view(&self) -> StartAgentResultView {
        match *self {
            StartAgentResult::Success { agent_id, version } => StartAgentResultView::Success {
                agent_id: agent_id@,
                version,
            },
            StartAgentResult::Error { error, version } => StartAgentResultView::Error {
                error: error@,
                version,
            },
            StartAgentResult::Cancelled { version } => StartAgentResultView::Cancelled { version },
        }
    }
}

} // verus!
