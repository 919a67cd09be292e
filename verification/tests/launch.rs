use agent_orchestration::agent::AIAgentActionType;
use agent_orchestration::agent::AIConversation;
use agent_orchestration::agent::AIConversationId;
use agent_orchestration::agent::BlocklistAIHistoryModel;
use agent_orchestration::agent::ConversationStatus;
use agent_orchestration::agent::StartAgentExecutionMode;
use agent_orchestration::agent::StartAgentVersion;
use agent_orchestration::launch::canonical_harness_type;
use agent_orchestration::launch::conversation_run_id;
use agent_orchestration::launch::invalid_local_child_harness_error;
use agent_orchestration::launch::resolve_launch;
use agent_orchestration::launch::runs_in_empty_environment;
use agent_orchestration::launch::HarnessReadings;
use agent_orchestration::startup::start_agent_error_message_for_status;

const PARENT: AIConversationId = AIConversationId(u128::MAX);

fn history(run_id: Option<&str>) -> BlocklistAIHistoryModel {
    let mut history = BlocklistAIHistoryModel::new();
    history.set_conversation(
        PARENT,
        AIConversation {
            orchestration_agent_id: None,
            run_id: run_id.map(str::to_string),
            status: ConversationStatus::InProgress,
            status_error_message: None,
        },
    );
    history
}

fn readings() -> HarnessReadings {
    HarnessReadings {
        local_child: Some("gemini".to_string()),
        orchestration: Some("codex".to_string()),
        canonical_is_open_code: false,
    }
}

fn local(harness_type: Option<&str>) -> StartAgentExecutionMode {
    StartAgentExecutionMode::Local {
        harness_type: harness_type.map(str::to_string),
        model_id: Some("model".to_string()),
    }
}

fn remote(environment_id: &str) -> StartAgentExecutionMode {
    StartAgentExecutionMode::Remote {
        environment_id: environment_id.to_string(),
        skill_references: vec!["skill".to_string()],
        model_id: "model".to_string(),
        computer_use_enabled: true,
        worker_host: "host".to_string(),
        harness_type: "Codex ".to_string(),
        title: "title".to_string(),
    }
}

fn refusal(
    mode: StartAgentExecutionMode,
    readings: HarnessReadings,
    v2: bool,
    run_id: Option<&str>,
) -> String {
    resolve_launch(mode, readings, v2, &history(run_id), &PARENT).expect_err("refused")
}

#[test]
fn unknown_harnesses_are_named() {
    assert_eq!(
        invalid_local_child_harness_error(""),
        "Local child harness type is missing.",
    );
    assert_eq!(
        invalid_local_child_harness_error(" \t\n"),
        "Local child harness type is missing.",
    );
    assert_eq!(
        invalid_local_child_harness_error("  emacs doctor "),
        "Unsupported local child harness 'emacs doctor'.",
    );
}

#[test]
fn built_in_local_child_needs_nothing() {
    for v2 in [false, true] {
        for run_id in [None, Some("run")] {
            let nothing_read = HarnessReadings {
                local_child: None,
                orchestration: None,
                canonical_is_open_code: true,
            };
            let launch = resolve_launch(local(None), nothing_read, v2, &history(run_id), &PARENT);
            match launch {
                Ok((StartAgentExecutionMode::Local { harness_type, model_id }, parent_run_id)) => {
                    assert_eq!(harness_type, None);
                    assert_eq!(model_id, Some("model".to_string()));
                    assert_eq!(parent_run_id, None);
                }
                other => panic!("{other:?}"),
            }
        }
    }
}

#[test]
fn local_harness_child_runs_with_the_name_that_was_read() {
    let launch = resolve_launch(
        local(Some(" Gemini")),
        readings(),
        true,
        &history(Some("run")),
        &PARENT,
    );
    match launch {
        Ok((StartAgentExecutionMode::Local { harness_type, model_id }, parent_run_id)) => {
            assert_eq!(harness_type, Some("gemini".to_string()));
            assert_eq!(model_id, Some("model".to_string()));
            assert_eq!(parent_run_id, Some("run".to_string()));
        }
        other => panic!("{other:?}"),
    }
}

#[test]
fn local_harness_child_is_refused_in_this_order() {
    let unread = HarnessReadings {
        local_child: None,
        ..readings()
    };
    assert_eq!(
        refusal(local(Some(" vim ")), unread.clone(), false, None),
        "Unsupported local child harness 'vim'.",
    );
    assert_eq!(
        refusal(local(Some(" ")), unread, true, Some("run")),
        "Local child harness type is missing.",
    );
    assert_eq!(
        refusal(local(Some("gemini")), readings(), false, None),
        "Local harness child agents require orchestration v2.",
    );
    assert_eq!(
        refusal(local(Some("gemini")), readings(), true, None),
        "Local harness child agents require the parent run_id to be available.",
    );
}

#[test]
fn remote_child_keeps_its_data() {
    for environment_id in ["env", "", "  "] {
        let launch = resolve_launch(
            remote(environment_id),
            readings(),
            true,
            &history(Some("run")),
            &PARENT,
        );
        match launch {
            Ok((
                StartAgentExecutionMode::Remote {
                    environment_id: kept,
                    skill_references,
                    model_id,
                    computer_use_enabled,
                    worker_host,
                    harness_type,
                    title,
                },
                parent_run_id,
            )) => {
                assert_eq!(kept, environment_id);
                assert_eq!(skill_references, vec!["skill".to_string()]);
                assert_eq!(model_id, "model");
                assert!(computer_use_enabled);
                assert_eq!(worker_host, "host");
                assert_eq!(harness_type, "codex");
                assert_eq!(title, "title");
                assert_eq!(parent_run_id, Some("run".to_string()));
            }
            other => panic!("{other:?}"),
        }
    }
}

#[test]
fn remote_child_is_refused_in_this_order() {
    let open_code = HarnessReadings {
        canonical_is_open_code: true,
        ..readings()
    };
    assert_eq!(
        refusal(remote("env"), open_code.clone(), false, None),
        "Remote child agents require orchestration v2.",
    );
    assert_eq!(
        refusal(remote("env"), open_code, true, None),
        "Remote child agents do not support the opencode harness yet.",
    );
    assert_eq!(
        refusal(remote(""), readings(), true, None),
        "Remote child agents require the parent run_id to be available.",
    );
}

#[test]
fn empty_environments_are_noticed_in_calls_that_get_so_far() {
    let action = |execution_mode: StartAgentExecutionMode| AIAgentActionType::StartAgent {
        version: StartAgentVersion(1),
        name: "child".to_string(),
        prompt: "do it".to_string(),
        execution_mode,
        lifecycle_subscription: None,
    };
    let open_code = HarnessReadings {
        canonical_is_open_code: true,
        ..readings()
    };
    for blank in ["", " \t\u{a0}"] {
        assert!(runs_in_empty_environment(&action(remote(blank)), &readings(), true));
        assert!(!runs_in_empty_environment(&action(remote(blank)), &readings(), false));
        assert!(!runs_in_empty_environment(&action(remote(blank)), &open_code, true));
    }
    assert!(!runs_in_empty_environment(&action(remote(" env ")), &readings(), true));
    assert!(!runs_in_empty_environment(&action(local(None)), &readings(), true));
    assert!(!runs_in_empty_environment(&AIAgentActionType::Other, &readings(), true));
}

#[test]
fn unread_remote_harness_type_is_kept() {
    assert_eq!(canonical_harness_type(" New ".to_string(), None), " New ");
    assert_eq!(
        canonical_harness_type("Codex".to_string(), Some("codex".to_string())),
        "codex",
    );
}

#[test]
fn run_of_an_unknown_conversation_is_unknown() {
    assert_eq!(
        conversation_run_id(&history(Some("run")), &PARENT),
        Some("run".to_string()),
    );
    assert_eq!(
        conversation_run_id(&history(Some("run")), &AIConversationId(0)),
        None,
    );
    assert_eq!(conversation_run_id(&history(None), &PARENT), None);
}

#[test]
fn statuses_are_explained() {
    let message = |status: ConversationStatus, error: Option<&str>| {
        start_agent_error_message_for_status(&status, error)
    };
    let blocked = |action: &str| ConversationStatus::Blocked {
        blocked_action: action.to_string(),
    };
    assert_eq!(
        message(ConversationStatus::Error, Some(" no quota ")),
        Some(" no quota ".to_string()),
    );
    for absent in [None, Some(""), Some(" \n")] {
        assert_eq!(
            message(ConversationStatus::Error, absent),
            Some("Child agent failed to initialize".to_string()),
        );
    }
    assert_eq!(
        message(ConversationStatus::Cancelled, Some("ignored")),
        Some("Child agent was cancelled before initialization".to_string()),
    );
    assert_eq!(
        message(blocked(" approve `ls` "), Some("ignored")),
        Some("approve `ls`".to_string()),
    );
    assert_eq!(
        message(blocked(" "), None),
        Some("Child agent startup was blocked before initialization".to_string()),
    );
    assert_eq!(message(ConversationStatus::InProgress, Some("x")), None);
    assert_eq!(message(ConversationStatus::Success, Some("x")), None);
}
