//! Which start-agent calls are accepted, and what an accepted call runs as.

use vstd::prelude::*;

use crate::agent::AIAgentActionType;
use crate::agent::AIConversation;
use crate::agent::AIConversationId;
use crate::agent::BlocklistAIHistoryModel;
use crate::agent::StartAgentExecutionMode;
use crate::text::blank;
use crate::text::is_blank;
use crate::text::join3;
use crate::text::trim;
use crate::text::trimmed;

verus! {

/// How the harness parsers read the harness type of a start-agent call.
#[derive(Clone, Debug)]
pub struct HarnessReadings {
    /// The name of the harness that the parser for local children reads in the harness type;
    /// `None` where it knows no such harness.
    pub local_child: Option<String>,
    /// The same for the parser of orchestrated agents.
    pub orchestration: Option<String>,
    /// Whether the parser of orchestrated agents reads the canonical harness type (see
    /// [`canonical_harness_type`]) as opencode.
    pub canonical_is_open_code: bool,
}

/// The refusal of a local child whose harness type is `harness_type`.
pub open spec fn invalid_local_child_harness_message(harness_type: Seq<char>) -> Seq<char> {
    if trimmed(harness_type).len() == 0 {
        "Local child harness type is missing."@
    } else {
        "Unsupported local child harness '"@ + trimmed(harness_type) + "'."@
    }
}

/// The refusal of a local child whose harness type no parser knows.
pub fn invalid_local_child_harness_error(harness_type: &str) -> (r: String)
    ensures
        r@ == invalid_local_child_harness_message(harness_type@),
{
    let harness_name = trim(harness_type);
    if harness_name.is_empty() {
        "Local child harness type is missing.".to_string()
    } else {
        join3("Unsupported local child harness '", harness_name, "'.")
    }
}

/// The harness type that a remote child runs with: the name of the harness that was read, or
/// the harness type as it was given.
pub open spec fn spec_canonical_harness_type(
    harness_type: String,
    orchestration: Option<String>,
) -> String {
    match orchestration {
        Some(name) => name,
        None => harness_type,
    }
}

/// The harness type that a remote child runs with: the name of the harness that was read, or
/// the harness type as it was given.
pub fn canonical_harness_type(harness_type: String, orchestration: Option<String>) -> (r: String)
    ensures
        r == spec_canonical_harness_type(harness_type, orchestration),
{
    match orchestration {
        Some(name) => name,
        None => harness_type,
    }
}

/// The run that the conversation `id` belongs to, as far as the history knows.
pub open spec fn run_id_in(
    history: Map<AIConversationId, AIConversation>,
    id: AIConversationId,
) -> Option<String> {
    if history.contains_key(id) {
        history[id].run_id
    } else {
        None
    }
}

/// The run that the conversation `id` belongs to, as far as the history knows.
pub fn conversation_run_id(history: &BlocklistAIHistoryModel, id: &AIConversationId) -> (r: Option<
    String,
>)
    ensures
        r == run_id_in(history@, *id),
{
    match history.conversation(id) {
        Some(conversation) => match &conversation.run_id {
            Some(run_id) => Some(run_id.clone()),
            None => None,
        },
        None => None,
    }
}

/// What a start-agent call runs as: its execution mode and the run of its parent, where the
/// child needs it; or why the call is refused.
///
/// A local child of the built-in agent is linked to its parent by its first request, so it needs
/// no run. Every other child is spawned before that request exists.
pub open spec fn launch_of(
    mode: StartAgentExecutionMode,
    readings: HarnessReadings,
    orchestration_v2: bool,
    parent_run_id: Option<String>,
) -> Result<(StartAgentExecutionMode, Option<String>), Seq<char>> {
    match mode {
        StartAgentExecutionMode::Local { harness_type: None, .. } => Ok((mode, None)),
        StartAgentExecutionMode::Local { harness_type: Some(harness_type), model_id } => {
            if readings.local_child is None {
                Err(invalid_local_child_harness_message(harness_type@))
            } else if !orchestration_v2 {
                Err("Local harness child agents require orchestration v2."@)
            } else if parent_run_id is None {
                Err("Local harness child agents require the parent run_id to be available."@)
            } else {
                Ok(
                    (
                        StartAgentExecutionMode::Local {
                            harness_type: readings.local_child,
                            model_id,
                        },
                        parent_run_id,
                    ),
                )
            }
        },
        StartAgentExecutionMode::Remote {
            environment_id,
            skill_references,
            model_id,
            computer_use_enabled,
            worker_host,
            harness_type,
            title,
        } => {
            if !orchestration_v2 {
                Err("Remote child agents require orchestration v2."@)
            } else if readings.canonical_is_open_code {
                Err("Remote child agents do not support the opencode harness yet."@)
            } else if parent_run_id is None {
                Err("Remote child agents require the parent run_id to be available."@)
            } else {
                Ok(
                    (
                        StartAgentExecutionMode::Remote {
                            environment_id,
                            skill_references,
                            model_id,
                            computer_use_enabled,
                            worker_host,
                            harness_type: spec_canonical_harness_type(
                                harness_type,
                                readings.orchestration,
                            ),
                            title,
                        },
                        parent_run_id,
                    ),
                )
            }
        },
    }
}

/// Whether `action` starts a remote child without an environment, and neither the version of the
/// orchestration nor the harness speaks against it.
pub open spec fn has_empty_environment(
    action: AIAgentActionType,
    readings: HarnessReadings,
    orchestration_v2: bool,
) -> bool {
    &&& orchestration_v2
    &&& !readings.canonical_is_open_code
    &&& action matches AIAgentActionType::StartAgent {
        execution_mode: StartAgentExecutionMode::Remote { environment_id, .. },
        ..
    }
    &&& is_blank(environment_id@)
}

/// Whether `action` starts a remote child that will run in an empty environment, which is worth a
/// warning. A call that is refused for the version of the orchestration or for its harness is not.
pub fn runs_in_empty_environment(
    action: &AIAgentActionType,
    readings: &HarnessReadings,
    orchestration_v2: bool,
) -> (r: bool)
    ensures
        r == has_empty_environment(*action, *readings, orchestration_v2),
{
    match action {
        AIAgentActionType::StartAgent {
            execution_mode: StartAgentExecutionMode::Remote { environment_id, .. },
            ..
        } => orchestration_v2 && !readings.canonical_is_open_code && blank(
            environment_id.as_str(),
        ),
        _ => false,
    }
}

/// Decides what a start-agent call of the conversation `parent_conversation_id` runs as, or why
/// it is refused.
pub fn resolve_launch(
    mode: StartAgentExecutionMode,
    readings: HarnessReadings,
    orchestration_v2: bool,
    history: &BlocklistAIHistoryModel,
    parent_conversation_id: &AIConversationId,
) -> (r: Result<(StartAgentExecutionMode, Option<String>), String>)
    ensures
        match launch_of(
            mode,
            readings,
            orchestration_v2,
            run_id_in(history@, *parent_conversation_id),
        ) {
            Ok(launch) => r == Ok::<(StartAgentExecutionMode, Option<String>), String>(launch),
            Err(refusal) => r is Err && r->Err_0@ == refusal,
        },
{
    match mode {
        StartAgentExecutionMode::Local { harness_type: None, model_id } => Ok(
            (StartAgentExecutionMode::Local { harness_type: None, model_id }, None),
        ),
        StartAgentExecutionMode::Local { harness_type: Some(harness_type), model_id } => {
            let harness = match readings.local_child {
                Some(harness) => harness,
                None => return Err(invalid_local_child_harness_error(harness_type.as_str())),
            };
            if !orchestration_v2 {
                return Err("Local harness child agents require orchestration v2.".to_string());
            }
            match conversation_run_id(history, parent_conversation_id) {
                Some(parent_run_id) => Ok(
                    (
                        StartAgentExecutionMode::Local { harness_type: Some(harness), model_id },
                        Some(parent_run_id),
                    ),
                ),
                None => Err(
                    "Local harness child agents require the parent run_id to be available.".to_string(),
                ),
            }
        },
        StartAgentExecutionMode::Remote {
            environment_id,
            skill_references,
            model_id,
            computer_use_enabled,
            worker_host,
            harness_type,
            title,
        } => {
            if !orchestration_v2 {
                return Err("Remote child agents require orchestration v2.".to_string());
            }
            let harness_type = canonical_harness_type(harness_type, readings.orchestration);
            if readings.canonical_is_open_code {
                return Err(
                    "Remote child agents do not support the opencode harness yet.".to_string(),
                );
            }
            // A blank environment id is accepted: the child then runs in an empty environment.
            match conversation_run_id(history, parent_conversation_id) {
                Some(parent_run_id) => Ok(
                    (
                        StartAgentExecutionMode::Remote {
                            environment_id,
                            skill_references,
                            model_id,
                            computer_use_enabled,
                            worker_host,
                            harness_type,
                            title,
                        },
                        Some(parent_run_id),
                    ),
                ),
                None => Err(
                    "Remote child agents require the parent run_id to be available.".to_string(),
                ),
            }
        },
    }
}

} // verus!
