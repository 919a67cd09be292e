use agent_orchestration::agent::AIAgentActionType;
use agent_orchestration::agent::AIConversation;
use agent_orchestration::agent::AIConversationId;
use agent_orchestration::agent::BlocklistAIHistoryEvent;
use agent_orchestration::agent::BlocklistAIHistoryModel;
use agent_orchestration::agent::ConversationStatus;
use agent_orchestration::agent::LifecycleEventType;
use agent_orchestration::agent::StartAgentExecutionMode;
use agent_orchestration::agent::StartAgentResult;
use agent_orchestration::agent::StartAgentVersion;
use agent_orchestration::launch::HarnessReadings;
use agent_orchestration::outcome::SendRefusal;
use agent_orchestration::outcome::StartAgentOutcome;
use agent_orchestration::start_agent::start_agent_result;
use agent_orchestration::start_agent::ExecuteActionInput;
use agent_orchestration::start_agent::StartAgentExecution;
use agent_orchestration::start_agent::StartAgentExecutor;
use agent_orchestration::start_agent::StartAgentExecutorEvent;
use agent_orchestration::start_agent::StartAgentRequest;
use agent_orchestration::start_agent::StartAgentRequestId;
use agent_orchestration::startup::StartupNotice;
use async_channel::Receiver;
use async_channel::TryRecvError;

const PARENT: AIConversationId = AIConversationId(1);

fn conversation(agent_id: Option<&str>, status: ConversationStatus) -> AIConversation {
    AIConversation {
        orchestration_agent_id: agent_id.map(str::to_string),
        run_id: None,
        status,
        status_error_message: None,
    }
}

fn history(entries: Vec<(u128, AIConversation)>) -> BlocklistAIHistoryModel {
    let mut history = BlocklistAIHistoryModel::new();
    for (id, conversation) in entries {
        history.set_conversation(AIConversationId(id), conversation);
    }
    history
}

fn token(id: u128) -> BlocklistAIHistoryEvent {
    BlocklistAIHistoryEvent::ConversationServerTokenAssigned {
        conversation_id: AIConversationId(id),
    }
}

fn status(id: u128) -> BlocklistAIHistoryEvent {
    BlocklistAIHistoryEvent::UpdatedConversationStatus {
        conversation_id: AIConversationId(id),
    }
}

fn local() -> StartAgentExecutionMode {
    StartAgentExecutionMode::Local {
        harness_type: None,
        model_id: None,
    }
}

fn dispatch(
    executor: &mut StartAgentExecutor,
    name: &str,
) -> (Receiver<StartAgentOutcome>, StartAgentRequest) {
    let (receiver, event) = executor.dispatch(
        name.to_string(),
        "do it".to_string(),
        local(),
        Some(vec![LifecycleEventType("done".to_string())]),
        PARENT,
        Some("run".to_string()),
    );
    let StartAgentExecutorEvent::CreateAgent(request) = event;
    (receiver, request)
}

fn started(receiver: &Receiver<StartAgentOutcome>) -> String {
    match receiver.try_recv() {
        Ok(StartAgentOutcome::Started { agent_id }) => agent_id,
        other => panic!("{other:?}"),
    }
}

fn failed(receiver: &Receiver<StartAgentOutcome>) -> String {
    match receiver.try_recv() {
        Ok(StartAgentOutcome::Error(error)) => error,
        other => panic!("{other:?}"),
    }
}

#[test]
fn ids_count_up_from_zero() {
    let mut executor = StartAgentExecutor::new();
    for n in 0..4u64 {
        let (_receiver, request) = dispatch(&mut executor, "child");
        assert_eq!(request.id, StartAgentRequestId::from_raw_for_test(n));
    }
    assert_eq!(
        StartAgentRequestId::default(),
        StartAgentRequestId::from_raw_for_test(0),
    );
}

#[test]
fn minting_ids_goes_on_with_the_same_counter() {
    let mut executor = StartAgentExecutor::new();
    let (_receiver, request) = dispatch(&mut executor, "child");
    executor.record_child_conversation(request.id, AIConversationId(7));
    for n in 1..4u64 {
        assert_eq!(
            executor.next_request_id(),
            StartAgentRequestId::from_raw_for_test(n),
        );
    }
    let (_other_receiver, other) = dispatch(&mut executor, "other");
    assert_eq!(other.id, StartAgentRequestId::from_raw_for_test(4));
    assert_eq!(
        executor.find_pending_by_child(&AIConversationId(7)),
        Some(request.id),
    );
}

#[test]
fn dispatch_asks_for_the_agent_with_its_data() {
    let mut executor = StartAgentExecutor::new();
    let (receiver, request) = dispatch(&mut executor, "child");
    assert_eq!(request.name, "child");
    assert_eq!(request.prompt, "do it");
    assert!(matches!(
        request.execution_mode,
        StartAgentExecutionMode::Local { harness_type: None, model_id: None },
    ));
    assert_eq!(request.lifecycle_subscription.unwrap()[0].0, "done");
    assert_eq!(request.parent_conversation_id, PARENT);
    assert_eq!(request.parent_run_id, Some("run".to_string()));
    assert_eq!(receiver.capacity(), Some(1));
    assert_eq!(receiver.try_recv().unwrap_err(), TryRecvError::Empty);
}

#[test]
fn assigned_token_starts_the_child_once() {
    let mut executor = StartAgentExecutor::new();
    let (receiver, request) = dispatch(&mut executor, "child");
    executor.record_child_conversation(request.id, AIConversationId(7));
    assert_eq!(
        executor.find_pending_by_child(&AIConversationId(7)),
        Some(request.id),
    );
    let history = history(vec![(
        7,
        conversation(Some("agent-7"), ConversationStatus::InProgress),
    )]);
    let completion = executor
        .handle_history_event(&token(7), &history, true)
        .expect("the request ends");
    assert_eq!(completion.request_id, request.id);
    assert!(completion.refused.is_none());
    match &completion.notice {
        Some(StartupNotice::RegisterWatchedRunId { parent_conversation_id, run_id }) => {
            assert_eq!(*parent_conversation_id, PARENT);
            assert_eq!(run_id, "agent-7");
        }
        other => panic!("{other:?}"),
    }
    assert_eq!(started(&receiver), "agent-7");
    assert_eq!(receiver.try_recv().unwrap_err(), TryRecvError::Empty);
    drop(completion);
    assert_eq!(receiver.try_recv().unwrap_err(), TryRecvError::Closed);
    assert_eq!(executor.find_pending_by_child(&AIConversationId(7)), None);
    assert!(executor.handle_history_event(&token(7), &history, true).is_none());
    assert!(executor.handle_history_event(&status(7), &history, true).is_none());
}

#[test]
fn without_v2_the_parent_is_told_of_the_start() {
    let mut executor = StartAgentExecutor::new();
    let (receiver, request) = dispatch(&mut executor, "child");
    executor.record_child_conversation(request.id, AIConversationId(7));
    let history = history(vec![(
        7,
        conversation(Some("agent-7"), ConversationStatus::InProgress),
    )]);
    let completion = executor
        .handle_history_event(&token(7), &history, false)
        .expect("the request ends");
    match &completion.notice {
        Some(StartupNotice::ChildStartupStarted { conversation_id }) => {
            assert_eq!(*conversation_id, AIConversationId(7));
        }
        other => panic!("{other:?}"),
    }
    assert_eq!(started(&receiver), "agent-7");
}

#[test]
fn token_without_agent_id_is_an_error() {
    for orchestration_v2 in [false, true] {
        for known in [false, true] {
            let mut executor = StartAgentExecutor::new();
            let (receiver, request) = dispatch(&mut executor, "child");
            executor.record_child_conversation(request.id, AIConversationId(7));
            let history = if known {
                history(vec![(7, conversation(None, ConversationStatus::InProgress))])
            } else {
                history(vec![])
            };
            let completion = executor
                .handle_history_event(&token(7), &history, orchestration_v2)
                .expect("the request ends");
            assert_eq!(failed(&receiver), "Server did not assign an agent identifier");
            match completion.notice {
                None => assert!(orchestration_v2),
                Some(StartupNotice::ChildStartupErrored { conversation_id, reason, message }) => {
                    assert!(!orchestration_v2);
                    assert_eq!(conversation_id, AIConversationId(7));
                    assert_eq!(reason, "missing_agent_id");
                    assert_eq!(message, "Server did not assign an agent identifier");
                }
                other => panic!("{other:?}"),
            }
        }
    }
}

#[test]
fn failed_status_ends_the_start() {
    for orchestration_v2 in [false, true] {
        let mut executor = StartAgentExecutor::new();
        let (receiver, request) = dispatch(&mut executor, "child");
        executor.record_child_conversation(request.id, AIConversationId(7));
        let mut child = conversation(None, ConversationStatus::Error);
        child.status_error_message = Some(" out of credits ".to_string());
        let completion = executor
            .handle_history_event(&status(7), &history(vec![(7, child)]), orchestration_v2)
            .expect("the request ends");
        assert_eq!(failed(&receiver), " out of credits ");
        match completion.notice {
            None => assert!(orchestration_v2),
            Some(StartupNotice::ChildStartupErrored { conversation_id, reason, message }) => {
                assert!(!orchestration_v2);
                assert_eq!(conversation_id, AIConversationId(7));
                assert_eq!(reason, "conversation_status");
                assert_eq!(message, " out of credits ");
            }
            other => panic!("{other:?}"),
        }
    }
}

#[test]
fn harmless_status_leaves_the_request_in_flight() {
    let mut executor = StartAgentExecutor::new();
    let (receiver, request) = dispatch(&mut executor, "child");
    executor.record_child_conversation(request.id, AIConversationId(7));
    for harmless in [ConversationStatus::InProgress, ConversationStatus::Success] {
        let history = history(vec![(7, conversation(Some("agent-7"), harmless))]);
        assert!(executor.handle_history_event(&status(7), &history, true).is_none());
    }
    let unknown = history(vec![]);
    assert!(executor.handle_history_event(&status(7), &unknown, true).is_none());
    assert_eq!(receiver.try_recv().unwrap_err(), TryRecvError::Empty);
    assert_eq!(
        executor.find_pending_by_child(&AIConversationId(7)),
        Some(request.id),
    );
}

#[test]
fn child_that_is_not_recorded_is_ignored() {
    let mut executor = StartAgentExecutor::new();
    let (receiver, request) = dispatch(&mut executor, "child");
    let history = history(vec![(
        7,
        conversation(Some("agent-7"), ConversationStatus::Error),
    )]);
    assert!(executor.handle_history_event(&token(7), &history, true).is_none());
    assert!(executor.handle_history_event(&status(7), &history, true).is_none());
    let stranger = StartAgentRequestId::from_raw_for_test(99);
    executor.record_child_conversation(stranger, AIConversationId(7));
    assert_eq!(executor.find_pending_by_child(&AIConversationId(7)), None);
    executor.record_child_conversation(request.id, AIConversationId(8));
    assert!(executor.handle_history_event(&token(7), &history, true).is_none());
    assert_eq!(receiver.try_recv().unwrap_err(), TryRecvError::Empty);
}

#[test]
fn other_history_events_change_nothing() {
    let mut executor = StartAgentExecutor::new();
    let (receiver, request) = dispatch(&mut executor, "child");
    executor.record_child_conversation(request.id, AIConversationId(7));
    let history = history(vec![(
        7,
        conversation(Some("agent-7"), ConversationStatus::Error),
    )]);
    for event in [
        BlocklistAIHistoryEvent::StartedNewConversation,
        BlocklistAIHistoryEvent::CreatedSubtask,
        BlocklistAIHistoryEvent::UpgradedTask,
        BlocklistAIHistoryEvent::AppendedExchange,
        BlocklistAIHistoryEvent::ReassignedExchange,
        BlocklistAIHistoryEvent::UpdatedStreamingExchange,
        BlocklistAIHistoryEvent::SetActiveConversation,
        BlocklistAIHistoryEvent::ClearedActiveConversation,
        BlocklistAIHistoryEvent::ClearedConversationsInTerminalView,
        BlocklistAIHistoryEvent::UpdatedTodoList,
        BlocklistAIHistoryEvent::UpdatedAutoexecuteOverride,
        BlocklistAIHistoryEvent::SplitConversation,
        BlocklistAIHistoryEvent::RemoveConversation,
        BlocklistAIHistoryEvent::DeletedConversation,
        BlocklistAIHistoryEvent::RestoredConversations,
        BlocklistAIHistoryEvent::UpdatedConversationMetadata,
        BlocklistAIHistoryEvent::UpdatedConversationArtifacts,
    ] {
        assert!(executor.handle_history_event(&event, &history, false).is_none());
    }
    assert_eq!(receiver.try_recv().unwrap_err(), TryRecvError::Empty);
    assert_eq!(
        executor.find_pending_by_child(&AIConversationId(7)),
        Some(request.id),
    );
}

#[test]
fn fan_out_gives_each_caller_its_own_outcome() {
    let mut executor = StartAgentExecutor::new();
    let requests: Vec<_> = (0..5u128)
        .map(|n| dispatch(&mut executor, &format!("child {n}")))
        .collect();
    for (n, (_, request)) in requests.iter().enumerate() {
        executor.record_child_conversation(request.id, AIConversationId(100 + n as u128));
    }
    let history = history(
        (0..5u128)
            .map(|n| {
                let agent_id = format!("agent-{n}");
                (
                    100 + n,
                    conversation(Some(agent_id.as_str()), ConversationStatus::Cancelled),
                )
            })
            .collect(),
    );
    for n in [3usize, 0, 4] {
        let event = token(100 + n as u128);
        let completion = executor.handle_history_event(&event, &history, true);
        assert_eq!(completion.expect("the request ends").request_id, requests[n].1.id);
        assert_eq!(started(&requests[n].0), format!("agent-{n}"));
    }
    for n in [1usize, 2] {
        assert_eq!(requests[n].0.try_recv().unwrap_err(), TryRecvError::Empty);
        let event = status(100 + n as u128);
        let completion = executor.handle_history_event(&event, &history, true);
        assert_eq!(completion.expect("the request ends").request_id, requests[n].1.id);
        assert_eq!(
            failed(&requests[n].0),
            "Child agent was cancelled before initialization",
        );
    }
}

#[test]
fn outcome_comes_back_when_nobody_waits() {
    let mut executor = StartAgentExecutor::new();
    let (receiver, request) = dispatch(&mut executor, "child");
    executor.record_child_conversation(request.id, AIConversationId(7));
    drop(receiver);
    let history = history(vec![(
        7,
        conversation(Some("agent-7"), ConversationStatus::InProgress),
    )]);
    let completion = executor
        .handle_history_event(&token(7), &history, false)
        .expect("the request ends");
    match completion.refused {
        Some(SendRefusal::Closed(StartAgentOutcome::Started { agent_id })) => {
            assert_eq!(agent_id, "agent-7");
        }
        other => panic!("{other:?}"),
    }
    assert!(matches!(
        completion.notice,
        Some(StartupNotice::ChildStartupStarted { .. }),
    ));
    assert_eq!(executor.find_pending_by_child(&AIConversationId(7)), None);
}

#[test]
fn outcome_comes_back_from_a_closed_receiver() {
    let mut executor = StartAgentExecutor::new();
    let (receiver, request) = dispatch(&mut executor, "child");
    executor.record_child_conversation(request.id, AIConversationId(7));
    assert!(receiver.close());
    let completion = executor
        .handle_history_event(&token(7), &history(vec![]), true)
        .expect("the request ends");
    match completion.refused {
        Some(SendRefusal::Closed(StartAgentOutcome::Error(error))) => {
            assert_eq!(error, "Server did not assign an agent identifier");
        }
        other => panic!("{other:?}"),
    }
    assert_eq!(receiver.try_recv().unwrap_err(), TryRecvError::Closed);
}

#[test]
fn siblings_of_one_parent_are_told_apart() {
    let mut executor = StartAgentExecutor::new();
    let (first_receiver, first) = dispatch(&mut executor, "first");
    let (second_receiver, second) = dispatch(&mut executor, "second");
    executor.record_child_conversation(first.id, AIConversationId(7));
    executor.record_child_conversation(second.id, AIConversationId(8));
    let history = history(vec![(
        8,
        conversation(Some("a2"), ConversationStatus::InProgress),
    )]);
    let completion = executor
        .handle_history_event(&token(8), &history, true)
        .expect("the request ends");
    assert_eq!(completion.request_id, second.id);
    assert!(completion.refused.is_none());
    assert_eq!(started(&second_receiver), "a2");
    assert_eq!(first_receiver.try_recv().unwrap_err(), TryRecvError::Empty);
    assert!(!first_receiver.is_closed());
    assert_eq!(
        executor.find_pending_by_child(&AIConversationId(7)),
        Some(first.id),
    );
    assert_eq!(executor.find_pending_by_child(&AIConversationId(8)), None);
}

#[test]
fn ids_are_equal_exactly_when_their_numbers_are() {
    for a in [0, 1, 2, u64::MAX] {
        for b in [0, 1, 2, u64::MAX] {
            let ids_are_equal = StartAgentRequestId::from_raw_for_test(a)
                == StartAgentRequestId::from_raw_for_test(b);
            assert_eq!(ids_are_equal, a == b);
        }
    }
}

#[test]
fn dropped_executor_cancels_the_call() {
    let mut executor = StartAgentExecutor::new();
    let (receiver, _) = dispatch(&mut executor, "child");
    drop(executor);
    let received = match receiver.try_recv() {
        Ok(outcome) => Some(outcome),
        Err(error) => {
            assert_eq!(error, TryRecvError::Closed);
            None
        }
    };
    match start_agent_result(received, StartAgentVersion(2)) {
        StartAgentResult::Cancelled { version } => assert_eq!(version, StartAgentVersion(2)),
        other => panic!("{other:?}"),
    }
}

#[test]
fn outcomes_become_answers_with_the_version() {
    let outcome = StartAgentOutcome::Started {
        agent_id: "a".to_string(),
    };
    match start_agent_result(Some(outcome), StartAgentVersion(1)) {
        StartAgentResult::Success { agent_id, version } => {
            assert_eq!(agent_id, "a");
            assert_eq!(version, StartAgentVersion(1));
        }
        other => panic!("{other:?}"),
    }
    let outcome = StartAgentOutcome::Error("e".to_string());
    match start_agent_result(Some(outcome), StartAgentVersion(3)) {
        StartAgentResult::Error { error, version } => {
            assert_eq!(error, "e");
            assert_eq!(version, StartAgentVersion(3));
        }
        other => panic!("{other:?}"),
    }
}

fn readings() -> HarnessReadings {
    HarnessReadings {
        local_child: Some("gemini".to_string()),
        orchestration: Some("codex".to_string()),
        canonical_is_open_code: false,
    }
}

fn input(execution_mode: StartAgentExecutionMode) -> ExecuteActionInput {
    ExecuteActionInput {
        action: AIAgentActionType::StartAgent {
            version: StartAgentVersion(5),
            name: "child".to_string(),
            prompt: "do it".to_string(),
            execution_mode,
            lifecycle_subscription: None,
        },
        conversation_id: PARENT,
    }
}

#[test]
fn execute_puts_an_accepted_call_in_flight() {
    let mut executor = StartAgentExecutor::new();
    assert!(executor.should_autoexecute());
    let history = history(vec![(
        7,
        conversation(Some("agent-7"), ConversationStatus::InProgress),
    )]);
    match executor.execute(input(local()), readings(), false, &history) {
        StartAgentExecution::Async { receiver, event, version } => {
            assert_eq!(version, StartAgentVersion(5));
            let StartAgentExecutorEvent::CreateAgent(request) = event;
            assert_eq!(request.id, StartAgentRequestId::from_raw_for_test(0));
            assert_eq!(request.name, "child");
            assert_eq!(request.prompt, "do it");
            assert_eq!(request.parent_conversation_id, PARENT);
            assert_eq!(request.parent_run_id, None);
            assert!(request.lifecycle_subscription.is_none());
            executor.record_child_conversation(request.id, AIConversationId(7));
            assert!(executor.handle_history_event(&token(7), &history, true).is_some());
            assert_eq!(started(&receiver), "agent-7");
        }
        _ => panic!("the call is accepted"),
    }
}

#[test]
fn execute_answers_a_refused_call_at_once() {
    let mut executor = StartAgentExecutor::new();
    let mode = StartAgentExecutionMode::Local {
        harness_type: Some("codex".to_string()),
        model_id: None,
    };
    match executor.execute(input(mode), readings(), false, &history(vec![])) {
        StartAgentExecution::Sync(StartAgentResult::Error { error, version }) => {
            assert_eq!(error, "Local harness child agents require orchestration v2.");
            assert_eq!(version, StartAgentVersion(5));
        }
        _ => panic!("the call is refused"),
    }
    let (_receiver, request) = dispatch(&mut executor, "child");
    assert_eq!(request.id, StartAgentRequestId::from_raw_for_test(0));
}

#[test]
fn other_actions_are_invalid() {
    let mut executor = StartAgentExecutor::new();
    let other = ExecuteActionInput {
        action: AIAgentActionType::Other,
        conversation_id: PARENT,
    };
    assert!(matches!(
        executor.execute(other, readings(), true, &history(vec![])),
        StartAgentExecution::InvalidAction,
    ));
}
