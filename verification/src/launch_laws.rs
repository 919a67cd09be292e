//! What becomes of a start-agent call, in terms of what was asked for.

use vstd::prelude::*;

use crate::agent::AIAgentActionType;
use crate::agent::AIConversation;
use crate::agent::AIConversationId;
use crate::agent::LifecycleEventType;
use crate::agent::StartAgentExecutionMode;
use crate::agent::StartAgentVersion;
use crate::launch::has_empty_environment;
use crate::launch::invalid_local_child_harness_message;
use crate::launch::launch_of;
use crate::launch::run_id_in;
use crate::launch::spec_canonical_harness_type;
use crate::launch::HarnessReadings;
use crate::text::is_blank;
use crate::text::is_white_space;
use crate::text::law_trim;

verus! {

/// An accepted remote child runs as it was asked for: remotely, with every datum as it was given,
/// but for the harness, which has the name that was read where one was read.
pub proof fn law_accepted_remote_child_runs_as_asked(
    asked: StartAgentExecutionMode,
    readings: HarnessReadings,
    orchestration_v2: bool,
    parent_run_id: Option<String>,
)
    requires
        asked is Remote,
    ensures
        launch_of(asked, readings, orchestration_v2, parent_run_id) matches Ok((mode, run_id)) ==> {
            &&& mode is Remote
            &&& mode->environment_id == asked->environment_id
            &&& mode->skill_references == asked->skill_references
            &&& mode->Remote_model_id == asked->Remote_model_id
            &&& mode->computer_use_enabled == asked->computer_use_enabled
            &&& mode->worker_host == asked->worker_host
            &&& mode->title == asked->title
            &&& readings.orchestration is Some ==> mode->Remote_harness_type
                == readings.orchestration->0
            &&& readings.orchestration is None ==> mode->Remote_harness_type
                == asked->Remote_harness_type
            &&& run_id is Some
            &&& run_id == parent_run_id
        },
{
}

/// An accepted local child runs locally with the model that was asked for. Its harness has the name
/// that was read; the built-in agent stays the built-in agent.
pub proof fn law_accepted_local_child_runs_as_asked(
    asked: StartAgentExecutionMode,
    readings: HarnessReadings,
    orchestration_v2: bool,
    parent_run_id: Option<String>,
)
    requires
        asked is Local,
    ensures
        launch_of(asked, readings, orchestration_v2, parent_run_id) matches Ok((mode, run_id)) ==> {
            &&& mode is Local
            &&& mode->Local_model_id == asked->Local_model_id
            &&& mode->Local_harness_type is Some <==> asked->Local_harness_type is Some
            &&& asked->Local_harness_type is Some ==> {
                &&& readings.local_child is Some
                &&& mode->Local_harness_type->0 == readings.local_child->0
                &&& run_id is Some
                &&& run_id == parent_run_id
            }
            &&& asked->Local_harness_type is None ==> run_id is None
        },
{
}

/// When a child is accepted: the built-in agent always; another local harness where it was read,
/// under orchestration v2 and with the run of its parent; a remote child under orchestration v2,
/// with the run of its parent, unless its harness is opencode.
pub proof fn law_when_a_child_is_accepted(
    asked: StartAgentExecutionMode,
    readings: HarnessReadings,
    orchestration_v2: bool,
    parent_run_id: Option<String>,
)
    ensures
        ({
            let accepted = launch_of(asked, readings, orchestration_v2, parent_run_id) is Ok;
            &&& asked is Local && asked->Local_harness_type is None ==> accepted
            &&& asked is Local && asked->Local_harness_type is Some ==> (accepted <==> {
                &&& readings.local_child is Some
                &&& orchestration_v2
                &&& parent_run_id is Some
            })
            &&& asked is Remote ==> (accepted <==> {
                &&& orchestration_v2
                &&& !readings.canonical_is_open_code
                &&& parent_run_id is Some
            })
        }),
{
}

/// A refused call is told the first thing that is wrong with it.
pub proof fn law_refusals_name_the_first_obstacle(
    asked: StartAgentExecutionMode,
    readings: HarnessReadings,
    orchestration_v2: bool,
    parent_run_id: Option<String>,
)
    ensures
        launch_of(asked, readings, orchestration_v2, parent_run_id) matches Err(refusal) ==> {
            &&& asked is Remote && !orchestration_v2 ==> refusal
                == "Remote child agents require orchestration v2."@
            &&& asked is Remote && orchestration_v2 && readings.canonical_is_open_code ==> refusal
                == "Remote child agents do not support the opencode harness yet."@
            &&& asked is Remote && orchestration_v2 && !readings.canonical_is_open_code ==> refusal
                == "Remote child agents require the parent run_id to be available."@
            &&& asked is Local ==> asked->Local_harness_type is Some
            &&& asked is Local && readings.local_child is None ==> refusal
                == invalid_local_child_harness_message(asked->Local_harness_type->0@)
            &&& asked is Local && readings.local_child is Some && !orchestration_v2 ==> refusal
                == "Local harness child agents require orchestration v2."@
            &&& asked is Local && readings.local_child is Some && orchestration_v2 ==> refusal
                == "Local harness child agents require the parent run_id to be available."@
        },
{
}

/// A local harness that nobody knows is named in the refusal as it was given, without the white
/// space around it; a blank one is reported as missing.
pub proof fn law_unknown_harness_is_named(lead: Seq<char>, name: Seq<char>, trail: Seq<char>)
    requires
        is_blank(lead),
        is_blank(trail),
        name.len() > 0 ==> !is_white_space(name[0]) && !is_white_space(name.last()),
    ensures
        name.len() > 0 ==> invalid_local_child_harness_message(lead + name + trail)
            == "Unsupported local child harness '"@ + name + "'."@,
        name.len() == 0 ==> invalid_local_child_harness_message(lead + name + trail)
            == "Local child harness type is missing."@,
{
    law_trim(lead, name, trail);
}

/// The harness type of a remote child is the name that was read, and else what was given.
pub proof fn law_canonical_harness_type(given: String, read: String)
    ensures
        spec_canonical_harness_type(given, Some(read)) == read,
        spec_canonical_harness_type(given, None) == given,
{
}

/// The run of a conversation is what the history last recorded of that very conversation; other
/// conversations do not matter, and a conversation that is not in the history has none.
pub proof fn law_run_is_that_of_the_conversation(
    history: Map<AIConversationId, AIConversation>,
    id: AIConversationId,
    conversation: AIConversation,
    other: AIConversationId,
)
    ensures
        run_id_in(history.insert(id, conversation), id) == conversation.run_id,
        run_id_in(history.remove(id), id) is None,
        other != id ==> run_id_in(history.insert(other, conversation), id) == run_id_in(
            history,
            id,
        ),
{
}

/// An empty environment is noticed in remote calls alone: where the environment id is blank and
/// neither the version nor the harness stands in the way.
pub proof fn law_empty_environment_is_noticed(
    version: StartAgentVersion,
    name: String,
    prompt: String,
    execution_mode: StartAgentExecutionMode,
    lifecycle_subscription: Option<Vec<LifecycleEventType>>,
    readings: HarnessReadings,
    orchestration_v2: bool,
)
    ensures
        ({
            let action = AIAgentActionType::StartAgent {
                version,
                name,
                prompt,
                execution_mode,
                lifecycle_subscription,
            };
            let noticed = has_empty_environment(action, readings, orchestration_v2);
            &&& execution_mode is Local ==> !noticed
            &&& execution_mode is Remote ==> (noticed <==> {
                &&& orchestration_v2
                &&& !readings.canonical_is_open_code
                &&& is_blank(execution_mode->environment_id@)
            })
        }),
        !has_empty_environment(AIAgentActionType::Other, readings, orchestration_v2),
{
}

} // verus!
