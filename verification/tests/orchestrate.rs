use agent_orchestration::by_action::AIAgentActionId;
use agent_orchestration::by_action::ByAction;
use agent_orchestration::card::AIBlockAction;
use agent_orchestration::card::ActionButtons;
use agent_orchestration::card::Border;
use agent_orchestration::card::ColumnWidth;
use agent_orchestration::card::ConfirmationCard;
use agent_orchestration::card::CornerRadius;
use agent_orchestration::card::CrossAxisAlignment;
use agent_orchestration::card::Cursor;
use agent_orchestration::card::Fill;
use agent_orchestration::card::FontSize;
use agent_orchestration::card::Icon;
use agent_orchestration::card::ItemSpacing;
use agent_orchestration::card::MainAxisAlignment;
use agent_orchestration::card::MainAxisSize;
use agent_orchestration::card::MouseStateId;
use agent_orchestration::card::OrchestrateElement;
use agent_orchestration::card::Part;
use agent_orchestration::card::RowColumn;
use agent_orchestration::card::SizeSwitchThreshold;
use agent_orchestration::card::StatusCard;
use agent_orchestration::card::TextColor;
use agent_orchestration::card::ViewId;
use agent_orchestration::orchestrate::render_agents_section;
use agent_orchestration::orchestrate::render_body;
use agent_orchestration::orchestrate::render_confirmation_card;
use agent_orchestration::orchestrate::render_editor;
use agent_orchestration::orchestrate::render_header;
use agent_orchestration::orchestrate::render_mode_toggle;
use agent_orchestration::orchestrate::render_orchestrate;
use agent_orchestration::orchestrate::render_picker_column;
use agent_orchestration::orchestrate::render_picker_row_quad;
use agent_orchestration::orchestrate::render_segment_button;
use agent_orchestration::orchestrate::render_status_only_card;
use agent_orchestration::orchestrate::render_summary_with_edit_chip;
use agent_orchestration::orchestrate::render_terminal_state;
use agent_orchestration::orchestrate::render_validation_error;
use agent_orchestration::orchestrate::AIActionStatus;
use agent_orchestration::orchestrate::AIAgentActionResultType;
use agent_orchestration::orchestrate::AgentRunConfig;
use agent_orchestration::orchestrate::OrchestrateAgentOutcome;
use agent_orchestration::orchestrate::OrchestrateAgentOutcomeKind;
use agent_orchestration::orchestrate::OrchestrateCardHandles;
use agent_orchestration::orchestrate::OrchestrateEditState;
use agent_orchestration::orchestrate::OrchestrateExecutionMode;
use agent_orchestration::orchestrate::OrchestrateResult;
use agent_orchestration::orchestrate::Props;
use agent_orchestration::orchestrate::StatusKind;

fn id(name: &str) -> AIAgentActionId {
    AIAgentActionId(name.to_string())
}

fn state(summary: &str, names: &[&str]) -> OrchestrateEditState {
    OrchestrateEditState {
        summary: summary.to_string(),
        agent_run_configs: names
            .iter()
            .map(|name| AgentRunConfig {
                name: name.to_string(),
            })
            .collect(),
        execution_mode: OrchestrateExecutionMode::Local,
        is_editor_open: false,
        accept_disabled_reason: None,
    }
}

fn handles() -> OrchestrateCardHandles {
    OrchestrateCardHandles {
        reject_button: Some(ViewId(1)),
        edit_button: Some(ViewId(2)),
        accept_button: Some(ViewId(3)),
        harness_picker: Some(ViewId(4)),
        host_picker: Some(ViewId(5)),
        environment_picker: Some(ViewId(6)),
        model_picker: Some(ViewId(7)),
        local_toggle: Some(MouseStateId(8)),
        cloud_toggle: Some(MouseStateId(9)),
    }
}

fn props(action_status: Option<AIActionStatus>) -> Props {
    Props {
        action_status,
        is_restored: false,
        orchestrate_edit_states: ByAction::new(),
        orchestrate_card_handles: ByAction::new(),
    }
}

fn agent(launched: bool) -> OrchestrateAgentOutcome {
    OrchestrateAgentOutcome {
        name: "agent".to_string(),
        kind: if launched {
            OrchestrateAgentOutcomeKind::Launched {
                agent_id: "id".to_string(),
            }
        } else {
            OrchestrateAgentOutcomeKind::Failed {
                error: "error".to_string(),
            }
        },
    }
}

fn launched(agents: &[bool]) -> StatusCard<String> {
    render_terminal_state(&OrchestrateResult::Launched {
        agents: agents.iter().map(|launched| agent(*launched)).collect(),
    })
}

fn confirmation(
    element: OrchestrateElement<String, Vec<String>, Vec<RowColumn<String>>, Vec<Part>>,
) -> ConfirmationCard<String, Vec<String>, Vec<RowColumn<String>>, Vec<Part>> {
    match element {
        OrchestrateElement::Confirmation(card) => card,
        other => panic!("{other:?}"),
    }
}

fn status_card(
    element: OrchestrateElement<String, Vec<String>, Vec<RowColumn<String>>, Vec<Part>>,
) -> StatusCard<String> {
    match element {
        OrchestrateElement::Status(card) => card,
        other => panic!("{other:?}"),
    }
}

#[test]
fn full_launches_are_counted_in_the_right_number() {
    assert_eq!(launched(&[]).label, "Spawned 0 agents");
    assert_eq!(launched(&[true]).label, "Spawned 1 agent");
    assert_eq!(launched(&[true, true]).label, "Spawned 2 agents");
    assert_eq!(launched(&[true; 12]).label, "Spawned 12 agents");
    assert_eq!(launched(&[true, true]).icon, Icon::GreenCheck);
    assert_eq!(launched(&[]).icon, Icon::GreenCheck);
}

#[test]
fn partial_launches_say_how_many_of_how_many() {
    assert_eq!(launched(&[false]).label, "Spawned 0 of 1 agents");
    assert_eq!(launched(&[true, false, true]).label, "Spawned 2 of 3 agents");
    assert_eq!(launched(&[false, true, false]).label, "Spawned 1 of 3 agents");
    assert_eq!(launched(&[false]).icon, Icon::YellowRunning);
}

#[test]
fn denied_launches_give_the_reason() {
    let denied = |reason: &str| {
        render_terminal_state(&OrchestrateResult::LaunchDenied {
            reason: reason.to_string(),
        })
    };
    assert_eq!(
        denied("").label,
        "Orchestration is currently disabled. Re-enable on the plan card to launch.",
    );
    assert_eq!(
        denied("off").label,
        "Orchestration is currently disabled. Re-enable on the plan card to launch. (off)",
    );
    assert_eq!(
        denied(" ").label,
        "Orchestration is currently disabled. Re-enable on the plan card to launch. ( )",
    );
    assert_eq!(denied("off").icon, Icon::Cancelled);
}

#[test]
fn failures_give_the_error() {
    let failure = |error: &str| {
        render_terminal_state(&OrchestrateResult::Failure {
            error: error.to_string(),
        })
    };
    assert_eq!(failure("").label, "Failed to start orchestration");
    assert_eq!(failure("boom").label, "Failed to start orchestration: boom");
    assert_eq!(failure("boom").icon, Icon::RedX);
}

#[test]
fn cancellations_are_reported() {
    let card = render_terminal_state(&OrchestrateResult::Cancelled);
    assert_eq!(card.label, "Spawn agents cancelled");
    assert_eq!(card.icon, Icon::Cancelled);
}

#[test]
fn status_cards_are_indented() {
    for (kind, icon) in [
        (StatusKind::Success, Icon::GreenCheck),
        (StatusKind::Mixed, Icon::YellowRunning),
        (StatusKind::Failure, Icon::RedX),
        (StatusKind::Cancelled, Icon::Cancelled),
    ] {
        let card = render_status_only_card("label".to_string(), kind);
        assert_eq!(card.label, "label");
        assert_eq!(card.icon, icon);
        assert_eq!(card.background, Fill::Neutral2);
        assert_eq!(card.corner_radius, CornerRadius::All(8));
        assert_eq!((card.margin_left, card.margin_right), (16, 16));
        assert_eq!(card.spacing, ItemSpacing::AgentOutput);
    }
}

#[test]
fn buttons_are_shown_together_or_not_at_all() {
    let header = render_header(&handles());
    assert_eq!(header.title, "Can I add additional agents to this \
         task?");
    assert_eq!(header.title.split(' ').last(), Some("task?"));
    assert_eq!(header.title.split(' ').count(), 8);
    assert_eq!(header.icon, Icon::OrchestrateStop);
    assert_eq!(header.corner_radius, CornerRadius::Top(8));
    assert_eq!(
        header.action_buttons,
        Some(ActionButtons {
            reject: ViewId(1),
            edit: ViewId(2),
            accept: ViewId(3),
            size_switch_threshold: SizeSwitchThreshold::Medium,
        }),
    );
    let mut partial = handles();
    partial.edit_button = None;
    assert_eq!(render_header(&partial).action_buttons, None);
    assert_eq!(
        render_header(&OrchestrateCardHandles::default()).action_buttons,
        None,
    );
}

#[test]
fn blank_summaries_are_replaced() {
    let text = render_summary_with_edit_chip(&state(" Fix it ", &["a"]));
    assert_eq!(text.text.content, " Fix it ");
    assert_eq!(text.text.size, FontSize::Monospace);
    assert_eq!(text.text.color, TextColor::Main(Fill::Background));
    assert!(text.text.selectable);
    assert_eq!(text.margin_bottom, 8);
    let text = render_summary_with_edit_chip(&state(" \n", &["a", "b"]));
    assert_eq!(text.text.content, "Spawn 2 agent(s) to address this \
         task.");
}

#[test]
fn agents_are_counted_and_named() {
    let section = render_agents_section(&state("s", &["a", "b", "c"]));
    assert_eq!(section.label.text.content, "Agents (3)");
    assert_eq!(section.label.text.size, FontSize::MonospaceMinusOne);
    assert_eq!(section.label.text.color, TextColor::Disabled(Fill::Background));
    assert_eq!(section.label.margin_bottom, 6);
    assert_eq!(section.pills, vec!["a", "b", "c"]);
    assert_eq!(section.pill_spacing, 4);
    assert_eq!(section.pill_alignment, CrossAxisAlignment::Center);
    assert_eq!(section.pill_row_size, MainAxisSize::Min);
    assert_eq!(section.alignment, CrossAxisAlignment::Stretch);
    assert_eq!(
        render_agents_section(&state("s", &[])).label.text.content,
        "Agents (0)",
    );
}

#[test]
fn body_holds_summary_and_agents() {
    let body = render_body(&state("s", &["a"]));
    assert_eq!(body.summary.text.content, "s");
    assert_eq!(body.agents.pills, vec!["a"]);
    assert_eq!((body.horizontal_padding, body.vertical_padding), (16, 12));
    assert_eq!(body.background, Fill::Background);
    assert_eq!(body.corner_radius, CornerRadius::Bottom(8));
    assert_eq!(body.parts, vec![Part::Summary, Part::Agents]);
    assert_eq!(body.alignment, CrossAxisAlignment::Stretch);
}

#[test]
fn active_segment_stands_out() {
    let click = AIBlockAction::OrchestrateExecutionModeToggled {
        action_id: "x".to_string(),
        is_remote: true,
    };
    let active = render_segment_button("Cloud", true, click.clone(), Some(MouseStateId(1)));
    let inactive = render_segment_button("Cloud", false, click, None);
    assert_eq!(active.text.content, "Cloud");
    assert_eq!(active.text.size, FontSize::MonospacePlusOne);
    assert_eq!(active.text.color, TextColor::Main(Fill::Surface1));
    assert_eq!(
        active.background,
        Some(Fill::Rgba {
            r: 250,
            g: 249,
            b: 246,
            a: 51,
        }),
    );
    assert_eq!(inactive.text.color, TextColor::Disabled(Fill::Surface1));
    assert_eq!(inactive.background, None);
    assert_eq!((active.horizontal_padding, active.vertical_padding), (20, 6));
    assert_eq!(active.corner_radius, CornerRadius::All(4));
    assert_eq!(active.mouse_state, Some(MouseStateId(1)));
    assert_eq!(active.cursor, Cursor::PointingHand);
}

#[test]
fn location_toggle_marks_the_current_location() {
    for mode in [OrchestrateExecutionMode::Local, OrchestrateExecutionMode::Remote] {
        let mut state = state("s", &["a"]);
        state.execution_mode = mode;
        let toggle = render_mode_toggle(&id("x"), &state, &handles());
        assert_eq!(toggle.label.text.content, "Agent location");
        assert_eq!(toggle.label.margin_bottom, 4);
        assert_eq!(toggle.local.text.content, "Local");
        assert_eq!(toggle.cloud.text.content, "Cloud");
        assert_eq!(toggle.local.background.is_some(), !mode.is_remote());
        assert_eq!(toggle.cloud.background.is_some(), mode.is_remote());
        assert_eq!(toggle.local.mouse_state, Some(MouseStateId(8)));
        assert_eq!(toggle.cloud.mouse_state, Some(MouseStateId(9)));
        let AIBlockAction::OrchestrateExecutionModeToggled { action_id, is_remote } =
            toggle.local.on_click;
        assert_eq!((action_id.as_str(), is_remote), ("x", false));
        let AIBlockAction::OrchestrateExecutionModeToggled { action_id, is_remote } =
            toggle.cloud.on_click;
        assert_eq!((action_id.as_str(), is_remote), ("x", true));
        assert_eq!(toggle.segment_alignment, CrossAxisAlignment::Stretch);
        assert_eq!(toggle.segment_row_alignment, MainAxisAlignment::Start);
        assert_eq!(toggle.segment_row_size, MainAxisSize::Min);
        assert_eq!(toggle.alignment, CrossAxisAlignment::Start);
        assert_eq!(toggle.padding, 4);
        assert_eq!(toggle.corner_radius, CornerRadius::All(6));
        assert_eq!(
            toggle.background,
            Fill::Rgba {
                r: 250,
                g: 249,
                b: 246,
                a: 26,
            },
        );
    }
}

#[test]
fn local_pickers_are_two_of_fixed_width() {
    let row = render_picker_row_quad(&state("s", &["a"]), &handles());
    let labels: Vec<_> = row
        .columns
        .iter()
        .map(|column| column.column.label.text.content.as_str())
        .collect();
    assert_eq!(labels, vec!["Agent harness", "Base model"]);
    let pickers: Vec<_> = row.columns.iter().map(|column| column.column.picker).collect();
    assert_eq!(pickers, vec![Some(ViewId(4)), Some(ViewId(7))]);
    for column in &row.columns {
        assert_eq!(column.width, ColumnWidth::Fixed { width: 220 });
    }
    assert_eq!(row.main_axis_size, MainAxisSize::Min);
    assert_eq!(row.main_axis_alignment, MainAxisAlignment::Start);
    assert_eq!(row.alignment, CrossAxisAlignment::Stretch);
    assert_eq!((row.spacing, row.margin_top), (12, 12));
}

#[test]
fn cloud_pickers_are_four_of_equal_width() {
    let mut state = state("s", &["a"]);
    state.execution_mode = OrchestrateExecutionMode::Remote;
    let row = render_picker_row_quad(&state, &handles());
    let labels: Vec<_> = row
        .columns
        .iter()
        .map(|column| column.column.label.text.content.as_str())
        .collect();
    assert_eq!(labels, vec!["Agent harness", "Host", "Environment", "Base model"]);
    let pickers: Vec<_> = row.columns.iter().map(|column| column.column.picker).collect();
    assert_eq!(
        pickers,
        vec![Some(ViewId(4)), Some(ViewId(5)), Some(ViewId(6)), Some(ViewId(7))],
    );
    for column in &row.columns {
        assert_eq!(column.width, ColumnWidth::Expanded { share: 1 });
    }
    assert_eq!(row.main_axis_size, MainAxisSize::Max);
}

#[test]
fn picker_columns_have_muted_labels() {
    let column = render_picker_column("Host", None);
    assert_eq!(column.label.text.content, "Host");
    assert_eq!(column.label.text.size, FontSize::MonospaceMinusOne);
    assert_eq!(column.label.text.color, TextColor::Disabled(Fill::Surface1));
    assert_eq!(column.label.margin_bottom, 4);
    assert_eq!(column.picker, None);
    assert_eq!(column.alignment, CrossAxisAlignment::Stretch);
}

#[test]
fn validation_errors_have_the_error_color() {
    let error = render_validation_error("Select an environment to launch on Cloud.");
    assert_eq!(
        error.text.content,
        "Select an environment to launch on Cloud.",
    );
    assert_eq!(error.text.color, TextColor::UiError);
    assert_eq!(error.text.size, FontSize::Monospace);
    assert_eq!(error.margin_bottom, 8);
}

#[test]
fn editor_shows_why_accepting_is_disabled() {
    let mut state = state("s", &["a"]);
    let editor = render_editor(&id("x"), &state, &handles());
    assert!(editor.validation_error.is_none());
    assert_eq!(editor.parts, vec![Part::ModeToggle, Part::PickerRow]);
    assert_eq!(editor.alignment, CrossAxisAlignment::Stretch);
    assert_eq!(editor.horizontal_padding, 16);
    assert_eq!((editor.padding_top, editor.padding_bottom), (12, 12));
    assert_eq!(editor.background, Fill::Background);
    assert_eq!(
        editor.border,
        Border::Top {
            width: 1,
            fill: Fill::Surface2,
        },
    );
    state.accept_disabled_reason = Some("reason".to_string());
    let editor = render_editor(&id("x"), &state, &handles());
    assert_eq!(editor.validation_error.unwrap().text.content, "reason");
    assert_eq!(
        editor.parts,
        vec![Part::ModeToggle, Part::PickerRow, Part::ValidationError],
    );
}

#[test]
fn editor_is_shown_while_it_is_open() {
    let mut state = state("s", &["a"]);
    state.accept_disabled_reason = Some("reason".to_string());
    let card = render_confirmation_card(&id("x"), &state, &handles(), true);
    assert!(card.editor.is_none());
    assert_eq!(card.parts, vec![Part::Header, Part::Body]);
    assert_eq!(card.alignment, CrossAxisAlignment::Stretch);
    assert_eq!(card.spacing, ItemSpacing::AgentOutput);
    state.is_editor_open = true;
    let card = render_confirmation_card(&id("x"), &state, &handles(), true);
    assert_eq!(card.parts, vec![Part::Header, Part::Body, Part::Editor]);
    assert_eq!(
        card.editor.unwrap().validation_error.unwrap().text.content,
        "reason",
    );
    assert_eq!(card.corner_radius, CornerRadius::All(8));
}

#[test]
fn accent_border_marks_a_waiting_card() {
    let border = |action_status: Option<AIActionStatus>| {
        let element = render_orchestrate(&props(action_status), &id("x"), &state("s", &["a"]));
        confirmation(element).border
    };
    assert_eq!(
        border(Some(AIActionStatus::Blocked)),
        Border::All {
            width: 1,
            fill: Fill::Accent,
        },
    );
    for status in [None, Some(AIActionStatus::Other)] {
        assert_eq!(
            border(status),
            Border::All {
                width: 1,
                fill: Fill::Surface2,
            },
        );
    }
}

#[test]
fn finished_orchestrations_are_reported_even_when_restored() {
    for is_restored in [false, true] {
        let mut props = props(Some(AIActionStatus::Finished(
            AIAgentActionResultType::Orchestrate(OrchestrateResult::Failure {
                error: "boom".to_string(),
            }),
        )));
        props.is_restored = is_restored;
        let card = status_card(render_orchestrate(&props, &id("x"), &state("s", &["a"])));
        assert_eq!(card.label, "Failed to start orchestration: boom");
    }
}

#[test]
fn results_of_other_actions_show_nothing() {
    let props = props(Some(AIActionStatus::Finished(AIAgentActionResultType::Other)));
    assert!(matches!(
        render_orchestrate(&props, &id("x"), &state("s", &["a"])),
        OrchestrateElement::Empty,
    ));
}

#[test]
fn restored_unfinished_orchestrations_count_as_cancelled() {
    for status in [None, Some(AIActionStatus::Blocked), Some(AIActionStatus::Other)] {
        let mut props = props(status);
        props.is_restored = true;
        let card = status_card(render_orchestrate(&props, &id("x"), &state("s", &["a"])));
        assert_eq!(card.label, "Spawn agents cancelled");
        assert_eq!(card.icon, Icon::Cancelled);
    }
}

#[test]
fn edits_and_handles_are_those_of_the_action() {
    let mut props = props(Some(AIActionStatus::Blocked));
    let shown = |props: &Props, name: &str| {
        confirmation(render_orchestrate(props, &id(name), &state("requested", &["a"])))
    };
    assert_eq!(shown(&props, "x").body.summary.text.content, "requested");
    assert_eq!(shown(&props, "x").header.action_buttons, None);
    props.orchestrate_edit_states.insert(id("x"), state("edited", &["a", "b"]));
    props.orchestrate_card_handles.insert(id("x"), handles());
    assert_eq!(shown(&props, "x").body.summary.text.content, "edited");
    assert_eq!(shown(&props, "x").body.agents.pills, vec!["a", "b"]);
    assert!(shown(&props, "x").header.action_buttons.is_some());
    assert_eq!(shown(&props, "y").body.summary.text.content, "requested");
    assert_eq!(shown(&props, "y").header.action_buttons, None);
    props.orchestrate_edit_states.insert(id("y"), state("other", &[]));
    props.orchestrate_edit_states.insert(id("x"), state("edited again", &["a"]));
    assert_eq!(shown(&props, "x").body.summary.text.content, "edited again");
    assert_eq!(shown(&props, "y").body.summary.text.content, "other");
    assert!(props.orchestrate_edit_states.get(&id("z")).is_none());
}
