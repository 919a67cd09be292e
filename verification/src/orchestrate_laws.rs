//! What holds of the orchestration card as a whole.

use vstd::prelude::*;

use crate::card::AIBlockAction;
use crate::card::Border;
use crate::card::ColumnWidth;
use crate::card::CornerRadius;
use crate::card::CrossAxisAlignment;
use crate::card::Cursor;
use crate::card::Fill;
use crate::card::FontSize;
use crate::card::Icon;
use crate::card::ItemSpacing;
use crate::card::MainAxisAlignment;
use crate::card::MainAxisSize;
use crate::card::MouseStateId;
use crate::card::OrchestrateElement;
use crate::card::Part;
use crate::card::RowColumn;
use crate::card::SegmentButton;
use crate::card::SizeSwitchThreshold;
use crate::card::StatusCard;
use crate::card::Text;
use crate::card::TextColor;
use crate::card::ViewId;
use crate::orchestrate::agents_section_view;
use crate::orchestrate::body_view;
use crate::orchestrate::confirmation_card_view;
use crate::orchestrate::editor_part_view;
use crate::orchestrate::header_view;
use crate::orchestrate::label_view;
use crate::orchestrate::launched_count;
use crate::orchestrate::mode_toggle_view;
use crate::orchestrate::no_handles;
use crate::orchestrate::orchestrate_view;
use crate::orchestrate::picker_column_view;
use crate::orchestrate::picker_row_view;
use crate::orchestrate::segment_button_view;
use crate::orchestrate::status_card_view;
use crate::orchestrate::summary_of;
use crate::orchestrate::summary_view;
use crate::orchestrate::terminal_report;
use crate::orchestrate::terminal_state_view;
use crate::orchestrate::validation_error_view;
use crate::orchestrate::was_launched;
use crate::orchestrate::AIActionStatus;
use crate::orchestrate::AIAgentActionResultType;
use crate::orchestrate::OrchestrateAgentOutcome;
use crate::orchestrate::OrchestrateCardHandles;
use crate::orchestrate::OrchestrateEditState;
use crate::orchestrate::OrchestrateExecutionMode;
use crate::orchestrate::OrchestrateResult;
use crate::orchestrate::Props;
use crate::orchestrate::StatusKind;
use crate::orchestrate::ORCHESTRATE_CARD_TITLE;
use crate::text::decimal;
use crate::text::is_blank;
use crate::text::is_white_space;
use crate::text::lemma_trimmed_is_empty_iff_blank;

verus! {

/// A finished orchestration is reported with its result, whatever that is, wherever the
/// conversation comes from, and whatever has been edited or made for its card.
pub proof fn law_finished_orchestration_is_reported(
    props: Props,
    action_id: Seq<char>,
    requested: OrchestrateEditState,
    result: OrchestrateResult,
)
    requires
        props.action_status == Some(
            AIActionStatus::Finished(AIAgentActionResultType::Orchestrate(result)),
        ),
    ensures
        orchestrate_view(props, action_id, requested) == (OrchestrateElement::<
            Seq<char>,
            Seq<Seq<char>>,
            Seq<RowColumn<Seq<char>>>,
            Seq<Part>,
        >::Status(terminal_state_view(result))),
        orchestrate_view(props, action_id, requested) matches OrchestrateElement::Status(card)
            && card.label == terminal_report(result).0,
        orchestrate_view(
            Props { is_restored: !props.is_restored, ..props },
            action_id,
            requested,
        ) == orchestrate_view(props, action_id, requested),
{
}

/// A finished action with the result of another kind shows nothing. An orchestration that was
/// restored unfinished is shown as cancelled, whatever state it was in.
pub proof fn law_what_shows_without_a_result(
    props: Props,
    action_id: Seq<char>,
    requested: OrchestrateEditState,
)
    ensures
        props.action_status == Some(AIActionStatus::Finished(AIAgentActionResultType::Other))
            ==> orchestrate_view(props, action_id, requested) is Empty,
        props.is_restored && !(props.action_status matches Some(AIActionStatus::Finished(_))) ==> (
        orchestrate_view(props, action_id, requested) matches OrchestrateElement::Status(card)
            && card.label == "Spawn agents cancelled"@ && card.icon == Icon::Cancelled),
{
}

/// The card that asks for confirmation shows the orchestration and the handles of its own action:
/// as they were kept for it, and else the orchestration as requested and no handles at all.
pub proof fn law_card_is_that_of_its_action(
    props: Props,
    action_id: Seq<char>,
    requested: OrchestrateEditState,
)
    ensures
        orchestrate_view(props, action_id, requested) matches OrchestrateElement::Confirmation(card)
            ==> {
            let is_blocked = props.action_status matches Some(AIActionStatus::Blocked);
            let edited = props.orchestrate_edit_states@.contains_key(action_id);
            let made = props.orchestrate_card_handles@.contains_key(action_id);
            let edit_state = props.orchestrate_edit_states@[action_id];
            let handles = props.orchestrate_card_handles@[action_id];
            &&& edited && made ==> card == confirmation_card_view(
                action_id,
                edit_state,
                handles,
                is_blocked,
            )
            &&& !edited && made ==> card == confirmation_card_view(
                action_id,
                requested,
                handles,
                is_blocked,
            )
            &&& edited && !made ==> card == confirmation_card_view(
                action_id,
                edit_state,
                no_handles(),
                is_blocked,
            )
            &&& !edited && !made ==> card == confirmation_card_view(
                action_id,
                requested,
                no_handles(),
                is_blocked,
            )
        },
        ({
            let none = no_handles();
            &&& none.reject_button is None && none.edit_button is None && none.accept_button is None
            &&& none.harness_picker is None && none.host_picker is None
            &&& none.environment_picker is None && none.model_picker is None
            &&& none.local_toggle is None && none.cloud_toggle is None
        }),
{
}

/// Every agent that the user is asked to confirm is shown: there are as many pills as agents, each
/// with the name of its agent, and the label says how many.
pub proof fn law_every_agent_is_shown(state: OrchestrateEditState)
    ensures
        ({
            let section = agents_section_view(state);
            &&& section.pills.len() == state.agent_run_configs@.len()
            &&& forall|k: int|
                0 <= k < state.agent_run_configs@.len() ==> #[trigger] section.pills[k]
                    == state.agent_run_configs@[k].name@
            &&& section.label.text.content == "Agents ("@ + decimal(state.agent_run_configs@.len())
                + ")"@
        }),
{
}

/// The summary is shown word for word unless it is blank; in place of a blank one the card says how
/// many agents there are.
pub proof fn law_summary_is_shown_verbatim(state: OrchestrateEditState)
    ensures
        !is_blank(state.summary@) ==> summary_view(state).text.content == state.summary@,
        is_blank(state.summary@) ==> summary_view(state).text.content == "Spawn "@ + decimal(
            state.agent_run_configs@.len(),
        ) + " agent(s) to address this \
        task."@,
        summary_view(state).text.content == summary_of(state),
{
    lemma_trimmed_is_empty_iff_blank(state.summary@);
}

/// The buttons of the header are those that were made, each in its place, beside the fixed question.
pub proof fn law_header(handles: OrchestrateCardHandles)
    ensures
        ({
            let header = header_view(handles);
            &&& header.title == "Can I add additional agents to this \
            task?"@
            &&& header.icon == Icon::OrchestrateStop
            &&& header.corner_radius == CornerRadius::Top(8)
            &&& header.action_buttons matches Some(buttons) ==> {
                &&& handles.reject_button == Some(buttons.reject)
                &&& handles.edit_button == Some(buttons.edit)
                &&& handles.accept_button == Some(buttons.accept)
                &&& buttons.size_switch_threshold == SizeSwitchThreshold::Medium
            }
        }),
{
}

/// The card is made of the header with the handles of the card, the body with the orchestration,
/// and below them, while it is open, the editor with both.
pub proof fn law_card_is_made_of_its_parts(
    action_id: Seq<char>,
    state: OrchestrateEditState,
    handles: OrchestrateCardHandles,
    is_blocked: bool,
)
    ensures
        ({
            let card = confirmation_card_view(action_id, state, handles, is_blocked);
            &&& card.header == header_view(handles)
            &&& card.body == body_view(state)
            &&& card.body.summary == summary_view(state)
            &&& card.body.agents == agents_section_view(state)
            &&& state.is_editor_open ==> {
                &&& card.editor == Some(editor_part_view(action_id, state, handles))
                &&& card.parts == seq![Part::Header, Part::Body, Part::Editor]
            }
            &&& !state.is_editor_open ==> {
                &&& card.editor is None
                &&& card.parts == seq![Part::Header, Part::Body]
            }
            &&& card.body.parts == seq![Part::Summary, Part::Agents]
            &&& card.border == (Border::All {
                width: 1,
                fill: if is_blocked {
                    Fill::Accent
                } else {
                    Fill::Surface2
                },
            })
        }),
{
}

/// The editor shows the location and the pickers of this orchestration, and below them why it
/// cannot be accepted, word for word, where there is a reason.
pub proof fn law_editor_is_made_of_its_parts(
    action_id: Seq<char>,
    state: OrchestrateEditState,
    handles: OrchestrateCardHandles,
)
    ensures
        ({
            let editor = editor_part_view(action_id, state, handles);
            let is_remote = state.execution_mode == OrchestrateExecutionMode::Remote;
            &&& editor.mode_toggle == mode_toggle_view(action_id, is_remote, handles)
            &&& editor.picker_row == picker_row_view(is_remote, handles)
            &&& state.accept_disabled_reason matches Some(reason) ==> {
                &&& editor.validation_error matches Some(error) && error.text.content == reason@
                    && error.text.color == TextColor::UiError
                &&& editor.parts == seq![Part::ModeToggle, Part::PickerRow, Part::ValidationError]
            }
            &&& state.accept_disabled_reason is None ==> {
                &&& editor.validation_error is None
                &&& editor.parts == seq![Part::ModeToggle, Part::PickerRow]
            }
        }),
{
}

/// Each option of the location control says what it is, stands out exactly when it is the current
/// one, and has its own mouse state.
pub proof fn law_location_options(
    action_id: Seq<char>,
    is_remote: bool,
    handles: OrchestrateCardHandles,
)
    ensures
        ({
            let toggle = mode_toggle_view(action_id, is_remote, handles);
            &&& toggle.label.text.content == "Agent location"@
            &&& toggle.local.text.content == "Local"@
            &&& toggle.cloud.text.content == "Cloud"@
            &&& toggle.local.mouse_state == handles.local_toggle
            &&& toggle.cloud.mouse_state == handles.cloud_toggle
            &&& toggle.local.text.color == if is_remote {
                TextColor::Disabled(Fill::Surface1)
            } else {
                TextColor::Main(Fill::Surface1)
            }
            &&& toggle.cloud.text.color == if is_remote {
                TextColor::Main(Fill::Surface1)
            } else {
                TextColor::Disabled(Fill::Surface1)
            }
        }),
{
}

/// An option shows its label and does what it was given to do, active or not; activity changes its
/// text color and its background and nothing else.
pub proof fn law_segment(
    label: Seq<char>,
    on_click: AIBlockAction<Seq<char>>,
    mouse_state: Option<MouseStateId>,
)
    ensures
        ({
            let active = segment_button_view(label, true, on_click, mouse_state);
            let inactive = segment_button_view(label, false, on_click, mouse_state);
            &&& active.text.content == label
            &&& active.text.size == FontSize::MonospacePlusOne
            &&& active.text.color == TextColor::Main(Fill::Surface1)
            &&& !active.text.selectable
            &&& active.background == Some(Fill::Rgba { r: 250, g: 249, b: 246, a: 51 })
            &&& active.on_click == on_click
            &&& active.mouse_state == mouse_state
            &&& active.cursor == Cursor::PointingHand
            &&& active.horizontal_padding == 20
            &&& active.vertical_padding == 6
            &&& active.corner_radius == CornerRadius::All(4)
            &&& inactive == SegmentButton {
                text: Text { color: TextColor::Disabled(Fill::Surface1), ..active.text },
                background: None,
                ..active
            }
        }),
{
}

/// Each picker stands below its own label, whether it has been made or not, and locally it has the
/// fixed width.
pub proof fn law_pickers_are_in_their_places(handles: OrchestrateCardHandles)
    ensures
        ({
            let local = picker_row_view(false, handles).columns;
            let cloud = picker_row_view(true, handles).columns;
            &&& cloud[0].column.picker == handles.harness_picker
            &&& cloud[1].column.picker == handles.host_picker
            &&& cloud[2].column.picker == handles.environment_picker
            &&& cloud[3].column.picker == handles.model_picker
            &&& local[0].column.picker == handles.harness_picker
            &&& local[1].column.picker == handles.model_picker
            &&& local[0].column.label.text.content == "Agent harness"@
            &&& local[1].column.label.text.content == "Base model"@
            &&& local[0].width == (ColumnWidth::Fixed { width: 220 })
            &&& local[1].width == (ColumnWidth::Fixed { width: 220 })
            &&& picker_row_view(true, handles).main_axis_size == MainAxisSize::Max
            &&& picker_row_view(false, handles).main_axis_size == MainAxisSize::Min
        }),
{
}

/// Agents are counted one by one: a launched one counts, another does not, and the count of two
/// groups is the sum of theirs.
pub proof fn law_launched_agents_are_counted(
    first: Seq<OrchestrateAgentOutcome>,
    second: Seq<OrchestrateAgentOutcome>,
    agent: OrchestrateAgentOutcome,
)
    ensures
        launched_count(first + second) == launched_count(first) + launched_count(second),
        launched_count(seq![agent]) == if agent.kind is Launched {
            1nat
        } else {
            0nat
        },
        launched_count(Seq::<OrchestrateAgentOutcome>::empty()) == 0,
    decreases second.len(),
{
    reveal(Seq::filter);
    assert(seq![agent].drop_last() =~= Seq::<OrchestrateAgentOutcome>::empty());
    assert(launched_count(Seq::<OrchestrateAgentOutcome>::empty()) == 0);
    assert(launched_count(seq![agent].drop_last()) == 0);
    if second.len() == 0 {
        assert(first + second =~= first);
    } else {
        law_launched_agents_are_counted(first, second.drop_last(), agent);
        assert((first + second).drop_last() =~= first + second.drop_last());
    }
}

/// How an orchestration that was not launched is reported: with the reason or the error that was
/// given, word for word, where one was given.
pub proof fn law_reports_without_a_launch(reason: String, error: String)
    ensures
        ({
            let denied = terminal_report(OrchestrateResult::LaunchDenied { reason });
            let disabled =
                "Orchestration is currently disabled. Re-enable on the plan card to launch."@;
            let disabled_for =
                "Orchestration is currently disabled. Re-enable on the plan card to launch. ("@;
            let failed = terminal_report(OrchestrateResult::Failure { error });
            &&& reason@.len() == 0 ==> denied.0 == disabled
            &&& reason@.len() > 0 ==> denied.0 == disabled_for + reason@ + ")"@
            &&& denied.1 == StatusKind::Cancelled
            &&& error@.len() == 0 ==> failed.0 == "Failed to start orchestration"@
            &&& error@.len() > 0 ==> failed.0 == "Failed to start orchestration: "@ + error@
            &&& failed.1 == StatusKind::Failure
        }),
        terminal_report(OrchestrateResult::Cancelled) == (
            "Spawn agents cancelled"@,
            StatusKind::Cancelled,
        ),
{
}

/// The card of a finished orchestration shows the label of its report, whatever the result is.
pub proof fn law_report_is_shown(result: OrchestrateResult)
    ensures
        terminal_state_view(result).label == terminal_report(result).0,
        terminal_state_view(result) == status_card_view(
            terminal_report(result).0,
            terminal_report(result).1,
        ),
{
}

/// A status card shows its label as it was given; the kind sets the icon and nothing else.
pub proof fn law_status_card(label: Seq<char>, kind: StatusKind, other: StatusKind)
    ensures
        ({
            let card = status_card_view(label, kind);
            &&& card.label == label
            &&& kind == StatusKind::Success ==> card.icon == Icon::GreenCheck
            &&& kind == StatusKind::Mixed ==> card.icon == Icon::YellowRunning
            &&& kind == StatusKind::Failure ==> card.icon == Icon::RedX
            &&& kind == StatusKind::Cancelled ==> card.icon == Icon::Cancelled
            &&& card.background == Fill::Neutral2
            &&& card.corner_radius == CornerRadius::All(8)
            &&& card.margin_left == 16
            &&& card.margin_right == 16
            &&& card.spacing == ItemSpacing::AgentOutput
            &&& status_card_view(label, other) == StatusCard {
                icon: status_card_view(label, other).icon,
                ..card
            }
        }),
{
}

/// The texts of the card: muted labels, a selectable summary in the main color, and an error in the
/// error color, each with what it was given to say.
pub proof fn law_texts(
    content: Seq<char>,
    on: Fill,
    margin_bottom: u32,
    state: OrchestrateEditState,
    picker: Option<ViewId>,
)
    ensures
        label_view(content, on, margin_bottom).text.content == content,
        label_view(content, on, margin_bottom).text.size == FontSize::MonospaceMinusOne,
        label_view(content, on, margin_bottom).text.color == TextColor::Disabled(on),
        !label_view(content, on, margin_bottom).text.selectable,
        label_view(content, on, margin_bottom).margin_bottom == margin_bottom,
        summary_view(state).text.size == FontSize::Monospace,
        summary_view(state).text.color == TextColor::Main(Fill::Background),
        summary_view(state).text.selectable,
        summary_view(state).margin_bottom == 8,
        validation_error_view(content).text.content == content,
        validation_error_view(content).text.size == FontSize::Monospace,
        validation_error_view(content).text.color == TextColor::UiError,
        !validation_error_view(content).text.selectable,
        validation_error_view(content).margin_bottom == 8,
        picker_column_view(content, picker).label == label_view(content, Fill::Surface1, 4),
        picker_column_view(content, picker).picker == picker,
{
}

/// How the parts of the card are laid out, whatever the orchestration is.
pub proof fn law_layout(
    action_id: Seq<char>,
    state: OrchestrateEditState,
    handles: OrchestrateCardHandles,
    is_blocked: bool,
    is_remote: bool,
    label: Seq<char>,
    picker: Option<ViewId>,
)
    ensures
        ({
            let card = confirmation_card_view(action_id, state, handles, is_blocked);
            &&& card.alignment == CrossAxisAlignment::Stretch
            &&& card.corner_radius == CornerRadius::All(8)
            &&& card.spacing == ItemSpacing::AgentOutput
            &&& card.body.alignment == CrossAxisAlignment::Stretch
            &&& card.body.horizontal_padding == 16
            &&& card.body.vertical_padding == 12
            &&& card.body.background == Fill::Background
            &&& card.body.corner_radius == CornerRadius::Bottom(8)
        }),
        ({
            let agents = agents_section_view(state);
            &&& agents.label.margin_bottom == 6
            &&& agents.label.text.color == TextColor::Disabled(Fill::Background)
            &&& agents.pill_spacing == 4
            &&& agents.pill_alignment == CrossAxisAlignment::Center
            &&& agents.pill_row_size == MainAxisSize::Min
            &&& agents.alignment == CrossAxisAlignment::Stretch
        }),
        ({
            let editor = editor_part_view(action_id, state, handles);
            &&& editor.alignment == CrossAxisAlignment::Stretch
            &&& editor.horizontal_padding == 16
            &&& editor.padding_top == 12
            &&& editor.padding_bottom == 12
            &&& editor.background == Fill::Background
            &&& editor.border == (Border::Top { width: 1, fill: Fill::Surface2 })
        }),
        ({
            let toggle = mode_toggle_view(action_id, is_remote, handles);
            &&& toggle.label.margin_bottom == 4
            &&& toggle.padding == 4
            &&& toggle.corner_radius == CornerRadius::All(6)
            &&& toggle.background == (Fill::Rgba { r: 250, g: 249, b: 246, a: 26 })
            &&& toggle.segment_alignment == CrossAxisAlignment::Stretch
            &&& toggle.segment_row_alignment == MainAxisAlignment::Start
            &&& toggle.segment_row_size == MainAxisSize::Min
            &&& toggle.alignment == CrossAxisAlignment::Start
        }),
        ({
            let row = picker_row_view(is_remote, handles);
            &&& row.alignment == CrossAxisAlignment::Stretch
            &&& row.main_axis_alignment == MainAxisAlignment::Start
            &&& row.spacing == 12
            &&& row.margin_top == 12
            &&& picker_column_view(label, picker).alignment == CrossAxisAlignment::Stretch
        }),
{
}

/// The user is asked to confirm exactly while the action is unfinished and its conversation was
/// not restored from the history. The question is the same whatever the orchestration is.
pub proof fn law_when_confirmation_is_asked(
    props: Props,
    action_id: Seq<char>,
    requested: OrchestrateEditState,
)
    ensures
        orchestrate_view(props, action_id, requested) is Confirmation <==> !props.is_restored && !(
        props.action_status matches Some(AIActionStatus::Finished(_))),
        orchestrate_view(props, action_id, requested) matches OrchestrateElement::Confirmation(card)
            ==> card.header.title == ORCHESTRATE_CARD_TITLE@,
{
}

/// Until the user edits the orchestration the card shows it as it was requested; from then on what
/// was requested no longer matters.
pub proof fn law_request_counts_until_edited(
    props: Props,
    edited: Props,
    action_id: Seq<char>,
    requested: OrchestrateEditState,
    other: OrchestrateEditState,
)
    requires
        edited.action_status == props.action_status,
        edited.is_restored == props.is_restored,
        edited.orchestrate_card_handles@ == props.orchestrate_card_handles@,
        edited.orchestrate_edit_states@ == props.orchestrate_edit_states@.insert(
            action_id,
            requested,
        ),
    ensures
        !props.orchestrate_edit_states@.contains_key(action_id) ==> orchestrate_view(
            props,
            action_id,
            requested,
        ) == orchestrate_view(edited, action_id, other),
        props.orchestrate_edit_states@.contains_key(action_id) ==> orchestrate_view(
            props,
            action_id,
            requested,
        ) == orchestrate_view(props, action_id, other),
{
}

/// Editing one orchestration, or making the handles of its card, changes the card of no other.
pub proof fn law_cards_are_independent(
    props: Props,
    changed: Props,
    action_id: Seq<char>,
    other_id: Seq<char>,
    state: OrchestrateEditState,
    handles: OrchestrateCardHandles,
    requested: OrchestrateEditState,
)
    requires
        action_id != other_id,
        changed.action_status == props.action_status,
        changed.is_restored == props.is_restored,
        changed.orchestrate_edit_states@ == props.orchestrate_edit_states@.insert(other_id, state),
        changed.orchestrate_card_handles@ == props.orchestrate_card_handles@.insert(
            other_id,
            handles,
        ),
    ensures
        orchestrate_view(changed, action_id, requested) == orchestrate_view(
            props,
            action_id,
            requested,
        ),
{
}

/// The border has the accent color exactly while the card waits for the user.
pub proof fn law_accent_border_marks_waiting(
    props: Props,
    action_id: Seq<char>,
    requested: OrchestrateEditState,
)
    ensures
        orchestrate_view(props, action_id, requested) matches OrchestrateElement::Confirmation(card)
            ==> (card.border == (Border::All { width: 1, fill: Fill::Accent }) <==> (
        props.action_status matches Some(AIActionStatus::Blocked))),
{
}

/// The reason why an orchestration cannot be accepted is shown in the editor, exactly while the
/// editor is open and there is a reason.
pub proof fn law_reason_is_shown_in_open_editor(
    action_id: Seq<char>,
    state: OrchestrateEditState,
    handles: OrchestrateCardHandles,
    is_blocked: bool,
)
    ensures
        ({
            let card = confirmation_card_view(action_id, state, handles, is_blocked);
            &&& card.editor is Some <==> state.is_editor_open
            &&& card.editor matches Some(editor) ==> editor.validation_error == match state.accept_disabled_reason {
                Some(reason) => Some(validation_error_view(reason@)),
                None => None,
            }
        }),
{
}

/// The header shows all three buttons or none.
pub proof fn law_buttons_come_together(handles: OrchestrateCardHandles)
    ensures
        header_view(handles).action_buttons is Some <==> handles.reject_button is Some
            && handles.edit_button is Some && handles.accept_button is Some,
{
}

/// Exactly one location is marked, namely the current one, and a click on a location asks for that
/// location, whichever is marked.
pub proof fn law_one_location_is_marked(
    action_id: Seq<char>,
    is_remote: bool,
    handles: OrchestrateCardHandles,
)
    ensures
        ({
            let toggle = mode_toggle_view(action_id, is_remote, handles);
            &&& toggle.local.background is Some <==> !is_remote
            &&& toggle.cloud.background is Some <==> is_remote
            &&& toggle.local.on_click == AIBlockAction::OrchestrateExecutionModeToggled {
                action_id,
                is_remote: false,
            }
            &&& toggle.cloud.on_click == AIBlockAction::OrchestrateExecutionModeToggled {
                action_id,
                is_remote: true,
            }
        }),
{
}

/// In the cloud there are four pickers of equal width; locally there are two of a fixed width, the
/// first and the last of those four, without a host and an environment.
pub proof fn law_pickers(handles: OrchestrateCardHandles)
    ensures
        ({
            let local = picker_row_view(false, handles).columns;
            let cloud = picker_row_view(true, handles).columns;
            &&& local.len() == 2
            &&& cloud.len() == 4
            &&& local[0].column == cloud[0].column
            &&& local[1].column == cloud[3].column
            &&& forall|i: int|
                0 <= i < 4 ==> (#[trigger] cloud[i]).width == (ColumnWidth::Expanded { share: 1 })
            &&& forall|i: int| 0 <= i < 2 ==> (#[trigger] local[i]).width is Fixed
            &&& cloud[0].column.label.text.content == "Agent harness"@
            &&& cloud[1].column.label.text.content == "Host"@
            &&& cloud[2].column.label.text.content == "Environment"@
            &&& cloud[3].column.label.text.content == "Base model"@
        }),
{
}

proof fn lemma_all_or_fewer(agents: Seq<OrchestrateAgentOutcome>)
    ensures
        launched_count(agents) <= agents.len(),
        launched_count(agents) == agents.len() <==> forall|i: int|
            0 <= i < agents.len() ==> was_launched(#[trigger] agents[i]),
    decreases agents.len(),
{
    reveal(Seq::filter);
    if agents.len() > 0 {
        let earlier = agents.drop_last();
        lemma_all_or_fewer(earlier);
        if forall|i: int| 0 <= i < agents.len() ==> was_launched(#[trigger] agents[i]) {
            assert forall|i: int| 0 <= i < earlier.len() implies was_launched(
                #[trigger] earlier[i],
            ) by {
                assert(was_launched(agents[i]));
            }
            assert(was_launched(agents[agents.len() - 1]));
        } else if launched_count(agents) == agents.len() {
            assert forall|i: int| 0 <= i < agents.len() implies was_launched(
                #[trigger] agents[i],
            ) by {
                if i < earlier.len() {
                    assert(was_launched(earlier[i]));
                }
            }
        }
    }
}

/// A finished launch is reported as a success exactly when every agent was launched; otherwise the
/// report says how many of how many were.
pub proof fn law_launch_report(agents: Vec<OrchestrateAgentOutcome>)
    ensures
        launched_count(agents@) <= agents@.len(),
        terminal_report(OrchestrateResult::Launched { agents }).1 == StatusKind::Success
            <==> forall|i: int| 0 <= i < agents@.len() ==> was_launched(#[trigger] agents@[i]),
        terminal_report(OrchestrateResult::Launched { agents }).1 == StatusKind::Success ==> (
        terminal_report(OrchestrateResult::Launched { agents }).0 == if agents@.len() == 1 {
            "Spawned 1 agent"@
        } else {
            "Spawned "@ + decimal(agents@.len()) + " agents"@
        }),
        terminal_report(OrchestrateResult::Launched { agents }).1 != StatusKind::Success ==> {
            &&& terminal_report(OrchestrateResult::Launched { agents }).1 == StatusKind::Mixed
            &&& terminal_report(OrchestrateResult::Launched { agents }).0 == "Spawned "@ + decimal(
                launched_count(agents@),
            ) + " of "@ + decimal(agents@.len()) + " agents"@
        },
{
    lemma_all_or_fewer(agents@);
}

/// The icon tells how the orchestration went: a check for a full launch, a cross for a failure,
/// and the mark of a cancellation where it was cancelled or denied.
pub proof fn law_icons(result: OrchestrateResult)
    ensures
        match result {
            OrchestrateResult::Launched { agents } => terminal_state_view(result).icon == if forall|
                i: int,
            |
                0 <= i < agents@.len() ==> was_launched(#[trigger] agents@[i]) {
                Icon::GreenCheck
            } else {
                Icon::YellowRunning
            },
            OrchestrateResult::Failure { .. } => terminal_state_view(result).icon == Icon::RedX,
            _ => terminal_state_view(result).icon == Icon::Cancelled,
        },
{
    if let OrchestrateResult::Launched { agents } = result {
        lemma_all_or_fewer(agents@);
    }
}

/// The card always says what the orchestration is about: its summary is never blank.
pub proof fn law_summary_is_never_blank(state: OrchestrateEditState)
    ensures
        !is_blank(summary_of(state)),
{
    lemma_trimmed_is_empty_iff_blank(state.summary@);
    reveal_strlit("Spawn ");
    let fallback = "Spawn "@ + decimal(state.agent_run_configs@.len())
        + " agent(s) to address this \
        task."@;
    assert(fallback[0] == 'S');
    assert(!is_white_space(fallback[0]));
    assert(!is_blank(fallback));
}

} // verus!
