//! The card that asks the user to confirm an orchestration and that reports how it went.

use vstd::prelude::*;

use crate::by_action::AIAgentActionId;
use crate::by_action::ByAction;
use crate::card::columns_of;
use crate::card::texts_of;
use crate::card::AIBlockAction;
use crate::card::ActionButtons;
use crate::card::AgentsSection;
use crate::card::Body;
use crate::card::Border;
use crate::card::ColumnWidth;
use crate::card::ConfirmationCard;
use crate::card::CornerRadius;
use crate::card::CrossAxisAlignment;
use crate::card::Cursor;
use crate::card::Editor;
use crate::card::Fill;
use crate::card::FontSize;
use crate::card::Header;
use crate::card::Icon;
use crate::card::ItemSpacing;
use crate::card::MainAxisAlignment;
use crate::card::MainAxisSize;
use crate::card::ModeToggle;
use crate::card::MouseStateId;
use crate::card::OrchestrateElement;
use crate::card::Part;
use crate::card::PickerColumn;
use crate::card::PickerRow;
use crate::card::RowColumn;
use crate::card::SegmentButton;
use crate::card::SizeSwitchThreshold;
use crate::card::SpacedText;
use crate::card::StatusCard;
use crate::card::Text;
use crate::card::TextColor;
use crate::card::ViewId;
use crate::text::blank;
use crate::text::decimal;
use crate::text::decimal_text;
use crate::text::join2;
use crate::text::join3;
use crate::text::text_view;
use crate::text::trimmed;

verus! {

/// The title of the confirmation card, whatever the orchestration is about.
pub const ORCHESTRATE_CARD_TITLE: &'static str = "Can I add additional agents to this \
    task?";

/// The width of a picker of a local orchestration, in pixels.
pub const LOCAL_PICKER_WIDTH: u32 = 220;

/// Where the agents of an orchestration run.
#[derive(Clone, Copy, Debug, PartialEq, Eq, Structural)]
pub enum OrchestrateExecutionMode {
    Local,
    Remote,
}

impl OrchestrateExecutionMode {
    /// Whether the agents run in the cloud.
    pub fn is_remote(&self) -> (r: bool)
        ensures
            r == (*self is Remote),
    {
        match self {
            OrchestrateExecutionMode::Local => false,
            OrchestrateExecutionMode::Remote => true,
        }
    }
}

/// One agent of an orchestration.
#[derive(Clone, Debug)]
pub struct AgentRunConfig {
    pub name: String,
}

/// An orchestration as the user has edited it so far.
#[derive(Clone, Debug)]
pub struct OrchestrateEditState {
    pub summary: String,
    pub agent_run_configs: Vec<AgentRunConfig>,
    pub execution_mode: OrchestrateExecutionMode,
    pub is_editor_open: bool,
    /// Why the orchestration cannot be accepted as it is.
    pub accept_disabled_reason: Option<String>,
}

/// The buttons, pickers and toggles of a card, as far as they have been made.
#[derive(Clone, Copy, Debug, PartialEq, Eq, Structural)]
pub struct OrchestrateCardHandles {
    pub reject_button: Option<ViewId>,
    pub edit_button: Option<ViewId>,
    pub accept_button: Option<ViewId>,
    pub harness_picker: Option<ViewId>,
    pub host_picker: Option<ViewId>,
    pub environment_picker: Option<ViewId>,
    pub model_picker: Option<ViewId>,
    pub local_toggle: Option<MouseStateId>,
    pub cloud_toggle: Option<MouseStateId>,
}

/// The handles of a card for which nothing has been made yet.
pub open spec fn no_handles() -> OrchestrateCardHandles {
    OrchestrateCardHandles {
        reject_button: None,
        edit_button: None,
        accept_button: None,
        harness_picker: None,
        host_picker: None,
        environment_picker: None,
        model_picker: None,
        local_toggle: None,
        cloud_toggle: None,
    }
}

impl Default for OrchestrateCardHandles {
    fn default() -> (r: Self)
        ensures
            r == no_handles(),
    {
        OrchestrateCardHandles {
            reject_button: None,
            edit_button: None,
            accept_button: None,
            harness_picker: None,
            host_picker: None,
            environment_picker: None,
            model_picker: None,
            local_toggle: None,
            cloud_toggle: None,
        }
    }
}

/// What became of one agent of an orchestration.
#[derive(Clone, Debug)]
pub enum OrchestrateAgentOutcomeKind {
    Launched { agent_id: String },
    Failed { error: String },
}

#[derive(Clone, Debug)]
pub struct OrchestrateAgentOutcome {
    pub name: String,
    pub kind: OrchestrateAgentOutcomeKind,
}

/// What became of an orchestration.
#[derive(Clone, Debug)]
pub enum OrchestrateResult {
    Launched { agents: Vec<OrchestrateAgentOutcome> },
    LaunchDenied { reason: String },
    Failure { error: String },
    Cancelled,
}

/// The result of a finished action.
#[derive(Clone, Debug)]
pub enum AIAgentActionResultType {
    Orchestrate(OrchestrateResult),
    /// The result of an action of another kind.
    Other,
}

/// How far an action has come.
#[derive(Clone, Debug)]
pub enum AIActionStatus {
    /// The action waits for the user to confirm it.
    Blocked,
    Finished(AIAgentActionResultType),
    /// The action is on its way in some other state.
    Other,
}

/// What is known of the action that a card stands for, and of the cards of its conversation.
#[derive(Clone, Debug)]
pub struct Props {
    pub action_status: Option<AIActionStatus>,
    /// Whether the conversation was restored from the history.
    pub is_restored: bool,
    /// The orchestrations that the user has edited, each as it is now.
    pub orchestrate_edit_states: ByAction<OrchestrateEditState>,
    pub orchestrate_card_handles: ByAction<OrchestrateCardHandles>,
}

/// How an orchestration went.
#[derive(Clone, Copy, Debug, PartialEq, Eq, Structural)]
pub enum StatusKind {
    Success,
    Mixed,
    Failure,
    Cancelled,
}

// The shown parts.

/// The text of a muted label, a little smaller than the body.
pub open spec fn label_view(content: Seq<char>, on: Fill, margin_bottom: u32) -> SpacedText<
    Seq<char>,
> {
    SpacedText {
        text: Text {
            content,
            size: FontSize::MonospaceMinusOne,
            color: TextColor::Disabled(on),
            selectable: false,
        },
        margin_bottom,
    }
}

fn render_label(content: &str, on: Fill, margin_bottom: u32) -> (r: SpacedText<String>)
    ensures
        r@ == label_view(content@, on, margin_bottom),
{
    SpacedText {
        text: Text {
            content: content.to_string(),
            size: FontSize::MonospaceMinusOne,
            color: TextColor::Disabled(on),
            selectable: false,
        },
        margin_bottom,
    }
}

/// The card that reports `label` with the icon for `kind`.
pub open spec fn status_card_view(label: Seq<char>, kind: StatusKind) -> StatusCard<Seq<char>> {
    StatusCard {
        label,
        icon: match kind {
            StatusKind::Mixed => Icon::YellowRunning,
            StatusKind::Success => Icon::GreenCheck,
            StatusKind::Failure => Icon::RedX,
            StatusKind::Cancelled => Icon::Cancelled,
        },
        background: Fill::Neutral2,
        corner_radius: CornerRadius::All(8),
        margin_left: 16,
        margin_right: 16,
        spacing: ItemSpacing::AgentOutput,
    }
}

/// The card that reports `label` with the icon for `kind`, indented from both edges.
pub fn render_status_only_card(label: String, kind: StatusKind) -> (r: StatusCard<String>)
    ensures
        r@ == status_card_view(label@, kind),
{
    let icon = match kind {
        StatusKind::Mixed => Icon::YellowRunning,
        StatusKind::Success => Icon::GreenCheck,
        StatusKind::Failure => Icon::RedX,
        StatusKind::Cancelled => Icon::Cancelled,
    };
    StatusCard {
        label,
        icon,
        background: Fill::Neutral2,
        corner_radius: CornerRadius::All(8),
        margin_left: 16,
        margin_right: 16,
        spacing: ItemSpacing::AgentOutput,
    }
}

/// Whether `outcome` is that of an agent that was launched.
pub open spec fn was_launched(outcome: OrchestrateAgentOutcome) -> bool {
    outcome.kind is Launched
}

/// How many of `agents` were launched.
pub open spec fn launched_count(agents: Seq<OrchestrateAgentOutcome>) -> nat {
    agents.filter(|agent: OrchestrateAgentOutcome| was_launched(agent)).len()
}

/// The label for `launched` of `total` agents.
pub open spec fn spawned_label(launched: nat, total: nat) -> Seq<char> {
    if launched != total {
        "Spawned "@ + decimal(launched) + " of "@ + decimal(total) + " agents"@
    } else if total == 1 {
        "Spawned 1 agent"@
    } else {
        "Spawned "@ + decimal(total) + " agents"@
    }
}

/// The label and the kind that a finished orchestration is reported with.
pub open spec fn terminal_report(result: OrchestrateResult) -> (Seq<char>, StatusKind) {
    match result {
        OrchestrateResult::Launched { agents } => {
            let launched = launched_count(agents@);
            let total = agents@.len();
            (
                spawned_label(launched, total),
                if launched == total {
                    StatusKind::Success
                } else {
                    StatusKind::Mixed
                },
            )
        },
        OrchestrateResult::LaunchDenied { reason } => (
            if reason@.len() == 0 {
                "Orchestration is currently disabled. Re-enable on the plan card to launch."@
            } else {
                "Orchestration is currently disabled. Re-enable on the plan card to launch. ("@
                    + reason@ + ")"@
            },
            StatusKind::Cancelled,
        ),
        OrchestrateResult::Failure { error } => (
            if error@.len() == 0 {
                "Failed to start orchestration"@
            } else {
                "Failed to start orchestration: "@ + error@
            },
            StatusKind::Failure,
        ),
        OrchestrateResult::Cancelled => ("Spawn agents cancelled"@, StatusKind::Cancelled),
    }
}

/// The card of a finished orchestration.
pub open spec fn terminal_state_view(result: OrchestrateResult) -> StatusCard<Seq<char>> {
    let (label, kind) = terminal_report(result);
    status_card_view(label, kind)
}

fn count_launched(agents: &Vec<OrchestrateAgentOutcome>) -> (r: usize)
    ensures
        r == launched_count(agents@),
{
    let ghost launched = |agent: OrchestrateAgentOutcome| was_launched(agent);
    let mut count: usize = 0;
    let mut i: usize = 0;
    proof {
        reveal(Seq::filter);
    }
    while i < agents.len()
        invariant
            launched == (|agent: OrchestrateAgentOutcome| was_launched(agent)),
            i <= agents@.len(),
            count <= i,
            count == agents@.take(i as int).filter(launched).len(),
        decreases agents@.len() - i,
    {
        proof {
            reveal(Seq::filter);
            assert(agents@.take(i + 1).drop_last() == agents@.take(i as int));
        }
        if let OrchestrateAgentOutcomeKind::Launched { .. } = agents[i].kind {
            count = count + 1;
        }
        i = i + 1;
    }
    assert(agents@.take(agents@.len() as int) == agents@);
    count
}

fn spawned_text(launched: usize, total: usize) -> (r: String)
    ensures
        r@ == spawned_label(launched as nat, total as nat),
{
    if launched == total {
        if total == 1 {
            "Spawned 1 agent".to_string()
        } else {
            join3("Spawned ", decimal_text(total).as_str(), " agents")
        }
    } else {
        let head = join3("Spawned ", decimal_text(launched).as_str(), " of ");
        join3(head.as_str(), decimal_text(total).as_str(), " agents")
    }
}

/// The card of a finished orchestration.
pub fn render_terminal_state(result: &OrchestrateResult) -> (r: StatusCard<String>)
    ensures
        r@ == terminal_state_view(*result),
{
    match result {
        OrchestrateResult::Launched { agents } => {
            let total: usize = agents.len();
            let launched: usize = count_launched(agents);
            let kind = if launched == total {
                StatusKind::Success
            } else {
                StatusKind::Mixed
            };
            render_status_only_card(spawned_text(launched, total), kind)
        },
        OrchestrateResult::LaunchDenied { reason } => {
            let label = if reason.as_str().is_empty() {
                "Orchestration is currently disabled. Re-enable on the plan card to launch.".to_string()
            } else {
                join3(
                    "Orchestration is currently disabled. Re-enable on the plan card to launch. (",
                    reason.as_str(),
                    ")",
                )
            };
            render_status_only_card(label, StatusKind::Cancelled)
        },
        OrchestrateResult::Failure { error } => {
            let label = if error.as_str().is_empty() {
                "Failed to start orchestration".to_string()
            } else {
                join2("Failed to start orchestration: ", error.as_str())
            };
            render_status_only_card(label, StatusKind::Failure)
        },
        OrchestrateResult::Cancelled => render_status_only_card(
            "Spawn agents cancelled".to_string(),
            StatusKind::Cancelled,
        ),
    }
}

/// The header: a fixed title, and the three buttons once all of them have been made.
pub open spec fn header_view(handles: OrchestrateCardHandles) -> Header<Seq<char>> {
    Header {
        title: ORCHESTRATE_CARD_TITLE@,
        icon: Icon::OrchestrateStop,
        corner_radius: CornerRadius::Top(8),
        action_buttons: match (handles.reject_button, handles.edit_button, handles.accept_button) {
            (Some(reject), Some(edit), Some(accept)) => Some(
                ActionButtons {
                    reject,
                    edit,
                    accept,
                    size_switch_threshold: SizeSwitchThreshold::Medium,
                },
            ),
            _ => None,
        },
    }
}

/// The header: a fixed title, and the three buttons once all of them have been made.
pub fn render_header(handles: &OrchestrateCardHandles) -> (r: Header<String>)
    ensures
        r@ == header_view(*handles),
{
    let action_buttons = match (
        handles.reject_button,
        handles.edit_button,
        handles.accept_button,
    ) {
        (Some(reject), Some(edit), Some(accept)) => Some(
            ActionButtons {
                reject,
                edit,
                accept,
                size_switch_threshold: SizeSwitchThreshold::Medium,
            },
        ),
        _ => None,
    };
    Header {
        title: ORCHESTRATE_CARD_TITLE.to_string(),
        icon: Icon::OrchestrateStop,
        corner_radius: CornerRadius::Top(8),
        action_buttons,
    }
}

/// What the orchestration is about; where nothing was said, how many agents it spawns.
pub open spec fn summary_of(state: OrchestrateEditState) -> Seq<char> {
    if trimmed(state.summary@).len() == 0 {
        "Spawn "@ + decimal(state.agent_run_configs@.len()) + " agent(s) to address this \
            task."@
    } else {
        state.summary@
    }
}

/// The summary.
pub open spec fn summary_view(state: OrchestrateEditState) -> SpacedText<Seq<char>> {
    SpacedText {
        text: Text {
            content: summary_of(state),
            size: FontSize::Monospace,
            color: TextColor::Main(Fill::Background),
            selectable: true,
        },
        margin_bottom: 8,
    }
}

/// The summary.
pub fn render_summary_with_edit_chip(state: &OrchestrateEditState) -> (r: SpacedText<String>)
    ensures
        r@ == summary_view(*state),
{
    let content = if blank(state.summary.as_str()) {
        join3(
            "Spawn ",
            decimal_text(state.agent_run_configs.len()).as_str(),
            " agent(s) to address this \
            task.",
        )
    } else {
        state.summary.clone()
    };
    SpacedText {
        text: Text {
            content,
            size: FontSize::Monospace,
            color: TextColor::Main(Fill::Background),
            selectable: true,
        },
        margin_bottom: 8,
    }
}

/// The names of the agents, in order.
pub open spec fn agent_names(configs: Seq<AgentRunConfig>) -> Seq<Seq<char>> {
    configs.map_values(|config: AgentRunConfig| config.name@)
}

/// The agents: how many there are, and a pill with the name of each.
pub open spec fn agents_section_view(state: OrchestrateEditState) -> AgentsSection<
    Seq<char>,
    Seq<Seq<char>>,
> {
    AgentsSection {
        label: label_view(
            "Agents ("@ + decimal(state.agent_run_configs@.len()) + ")"@,
            Fill::Background,
            6,
        ),
        pills: agent_names(state.agent_run_configs@),
        pill_spacing: 4,
        pill_alignment: CrossAxisAlignment::Center,
        pill_row_size: MainAxisSize::Min,
        alignment: CrossAxisAlignment::Stretch,
    }
}

/// The agents: how many there are, and a pill with the name of each.
pub fn render_agents_section(state: &OrchestrateEditState) -> (r: AgentsSection<
    String,
    Vec<String>,
>)
    ensures
        r@ == agents_section_view(*state),
{
    let label = join3("Agents (", decimal_text(state.agent_run_configs.len()).as_str(), ")");
    let mut pills: Vec<String> = Vec::new();
    let mut i: usize = 0;
    while i < state.agent_run_configs.len()
        invariant
            i <= state.agent_run_configs@.len(),
            pills@.len() == i,
            forall|k: int|
                0 <= k < i ==> (#[trigger] pills@[k])@ == state.agent_run_configs@[k].name@,
        decreases state.agent_run_configs@.len() - i,
    {
        pills.push(state.agent_run_configs[i].name.clone());
        i = i + 1;
    }
    assert(texts_of(pills@) =~= agent_names(state.agent_run_configs@));
    AgentsSection {
        label: render_label(label.as_str(), Fill::Background, 6),
        pills,
        pill_spacing: 4,
        pill_alignment: CrossAxisAlignment::Center,
        pill_row_size: MainAxisSize::Min,
        alignment: CrossAxisAlignment::Stretch,
    }
}

/// The body: the summary above the agents.
pub open spec fn body_view(state: OrchestrateEditState) -> Body<
    Seq<char>,
    Seq<Seq<char>>,
    Seq<Part>,
> {
    Body {
        summary: summary_view(state),
        agents: agents_section_view(state),
        parts: seq![Part::Summary, Part::Agents],
        alignment: CrossAxisAlignment::Stretch,
        horizontal_padding: 16,
        vertical_padding: 12,
        background: Fill::Background,
        corner_radius: CornerRadius::Bottom(8),
    }
}

/// The body: the summary above the agents.
pub fn render_body(state: &OrchestrateEditState) -> (r: Body<String, Vec<String>, Vec<Part>>)
    ensures
        r@ == body_view(*state),
{
    let mut parts: Vec<Part> = Vec::new();
    parts.push(Part::Summary);
    parts.push(Part::Agents);
    assert(parts@ =~= body_view(*state).parts);
    Body {
        summary: render_summary_with_edit_chip(state),
        agents: render_agents_section(state),
        parts,
        alignment: CrossAxisAlignment::Stretch,
        horizontal_padding: 16,
        vertical_padding: 12,
        background: Fill::Background,
        corner_radius: CornerRadius::Bottom(8),
    }
}

/// One option of the location control. Only the active one has a background.
pub open spec fn segment_button_view(
    label: Seq<char>,
    is_active: bool,
    on_click: AIBlockAction<Seq<char>>,
    mouse_state: Option<MouseStateId>,
) -> SegmentButton<Seq<char>> {
    SegmentButton {
        text: Text {
            content: label,
            size: FontSize::MonospacePlusOne,
            color: if is_active {
                TextColor::Main(Fill::Surface1)
            } else {
                TextColor::Disabled(Fill::Surface1)
            },
            selectable: false,
        },
        horizontal_padding: 20,
        vertical_padding: 6,
        corner_radius: CornerRadius::All(4),
        background: if is_active {
            Some(Fill::Rgba { r: 0xfa, g: 0xf9, b: 0xf6, a: 0x33 })
        } else {
            None
        },
        on_click,
        mouse_state,
        cursor: Cursor::PointingHand,
    }
}

/// One option of the location control. Only the active one has a background.
pub fn render_segment_button(
    label: &str,
    is_active: bool,
    on_click: AIBlockAction<String>,
    mouse_state: Option<MouseStateId>,
) -> (r: SegmentButton<String>)
    ensures
        r@ == segment_button_view(label@, is_active, on_click@, mouse_state),
{
    let color = if is_active {
        TextColor::Main(Fill::Surface1)
    } else {
        TextColor::Disabled(Fill::Surface1)
    };
    let background = if is_active {
        Some(Fill::Rgba { r: 0xfa, g: 0xf9, b: 0xf6, a: 0x33 })
    } else {
        None
    };
    SegmentButton {
        text: Text {
            content: label.to_string(),
            size: FontSize::MonospacePlusOne,
            color,
            selectable: false,
        },
        horizontal_padding: 20,
        vertical_padding: 6,
        corner_radius: CornerRadius::All(4),
        background,
        on_click,
        mouse_state,
        cursor: Cursor::PointingHand,
    }
}

/// The control that says where the agents run.
pub open spec fn mode_toggle_view(
    action_id: Seq<char>,
    is_remote: bool,
    handles: OrchestrateCardHandles,
) -> ModeToggle<Seq<char>> {
    ModeToggle {
        label: label_view("Agent location"@, Fill::Surface1, 4),
        local: segment_button_view(
            "Local"@,
            !is_remote,
            AIBlockAction::OrchestrateExecutionModeToggled { action_id, is_remote: false },
            handles.local_toggle,
        ),
        cloud: segment_button_view(
            "Cloud"@,
            is_remote,
            AIBlockAction::OrchestrateExecutionModeToggled { action_id, is_remote: true },
            handles.cloud_toggle,
        ),
        segment_alignment: CrossAxisAlignment::Stretch,
        segment_row_alignment: MainAxisAlignment::Start,
        segment_row_size: MainAxisSize::Min,
        alignment: CrossAxisAlignment::Start,
        padding: 4,
        corner_radius: CornerRadius::All(6),
        background: Fill::Rgba { r: 0xfa, g: 0xf9, b: 0xf6, a: 0x1a },
    }
}

/// The control that says where the agents run.
pub fn render_mode_toggle(
    action_id: &AIAgentActionId,
    state: &OrchestrateEditState,
    handles: &OrchestrateCardHandles,
) -> (r: ModeToggle<String>)
    ensures
        r@ == mode_toggle_view(action_id.0@, state.execution_mode is Remote, *handles),
{
    let is_remote = state.execution_mode.is_remote();
    ModeToggle {
        label: render_label("Agent location", Fill::Surface1, 4),
        local: render_segment_button(
            "Local",
            !is_remote,
            AIBlockAction::OrchestrateExecutionModeToggled {
                action_id: action_id.0.clone(),
                is_remote: false,
            },
            handles.local_toggle,
        ),
        cloud: render_segment_button(
            "Cloud",
            is_remote,
            AIBlockAction::OrchestrateExecutionModeToggled {
                action_id: action_id.0.clone(),
                is_remote: true,
            },
            handles.cloud_toggle,
        ),
        segment_alignment: CrossAxisAlignment::Stretch,
        segment_row_alignment: MainAxisAlignment::Start,
        segment_row_size: MainAxisSize::Min,
        alignment: CrossAxisAlignment::Start,
        padding: 4,
        corner_radius: CornerRadius::All(6),
        background: Fill::Rgba { r: 0xfa, g: 0xf9, b: 0xf6, a: 0x1a },
    }
}

/// A label above a picker.
pub open spec fn picker_column_view(label: Seq<char>, picker: Option<ViewId>) -> PickerColumn<
    Seq<char>,
> {
    PickerColumn {
        label: label_view(label, Fill::Surface1, 4),
        picker,
        alignment: CrossAxisAlignment::Stretch,
    }
}

/// A label above a picker.
pub fn render_picker_column(label: &str, picker: Option<ViewId>) -> (r: PickerColumn<String>)
    ensures
        r@ == picker_column_view(label@, picker),
{
    PickerColumn {
        label: render_label(label, Fill::Surface1, 4),
        picker,
        alignment: CrossAxisAlignment::Stretch,
    }
}

/// A picker in the row: cloud pickers share the row equally, local ones have a fixed width.
pub open spec fn row_column_view(
    label: Seq<char>,
    picker: Option<ViewId>,
    is_remote: bool,
) -> RowColumn<Seq<char>> {
    RowColumn {
        width: if is_remote {
            ColumnWidth::Expanded { share: 1 }
        } else {
            ColumnWidth::Fixed { width: LOCAL_PICKER_WIDTH }
        },
        column: picker_column_view(label, picker),
    }
}

fn render_row_column(label: &str, picker: Option<ViewId>, is_remote: bool) -> (r: RowColumn<String>)
    ensures
        r@ == row_column_view(label@, picker, is_remote),
{
    let width = if is_remote {
        ColumnWidth::Expanded { share: 1 }
    } else {
        ColumnWidth::Fixed { width: LOCAL_PICKER_WIDTH }
    };
    RowColumn { width, column: render_picker_column(label, picker) }
}

/// The pickers: harness and model; in the cloud, host and environment between them.
pub open spec fn picker_row_view(
    is_remote: bool,
    handles: OrchestrateCardHandles,
) -> PickerRow<Seq<RowColumn<Seq<char>>>> {
    let harness = row_column_view("Agent harness"@, handles.harness_picker, is_remote);
    let host = row_column_view("Host"@, handles.host_picker, is_remote);
    let environment = row_column_view("Environment"@, handles.environment_picker, is_remote);
    let model = row_column_view("Base model"@, handles.model_picker, is_remote);
    PickerRow {
        columns: if is_remote {
            seq![harness, host, environment, model]
        } else {
            seq![harness, model]
        },
        alignment: CrossAxisAlignment::Stretch,
        main_axis_alignment: MainAxisAlignment::Start,
        main_axis_size: if is_remote {
            MainAxisSize::Max
        } else {
            MainAxisSize::Min
        },
        spacing: 12,
        margin_top: 12,
    }
}

/// The pickers: harness and model; in the cloud, host and environment between them.
pub fn render_picker_row_quad(state: &OrchestrateEditState, handles: &OrchestrateCardHandles) -> (r:
    PickerRow<Vec<RowColumn<String>>>)
    ensures
        r@ == picker_row_view(state.execution_mode is Remote, *handles),
{
    let is_remote = state.execution_mode.is_remote();
    let main_axis_size = if is_remote {
        MainAxisSize::Max
    } else {
        MainAxisSize::Min
    };
    let mut columns: Vec<RowColumn<String>> = Vec::new();
    columns.push(render_row_column("Agent harness", handles.harness_picker, is_remote));
    if is_remote {
        columns.push(render_row_column("Host", handles.host_picker, is_remote));
        columns.push(render_row_column("Environment", handles.environment_picker, is_remote));
    }
    columns.push(render_row_column("Base model", handles.model_picker, is_remote));
    assert(columns_of(columns@) =~= picker_row_view(is_remote, *handles).columns);
    PickerRow {
        columns,
        alignment: CrossAxisAlignment::Stretch,
        main_axis_alignment: MainAxisAlignment::Start,
        main_axis_size,
        spacing: 12,
        margin_top: 12,
    }
}

/// Why the orchestration cannot be accepted.
pub open spec fn validation_error_view(reason: Seq<char>) -> SpacedText<Seq<char>> {
    SpacedText {
        text: Text {
            content: reason,
            size: FontSize::Monospace,
            color: TextColor::UiError,
            selectable: false,
        },
        margin_bottom: 8,
    }
}

/// Why the orchestration cannot be accepted.
pub fn render_validation_error(reason: &str) -> (r: SpacedText<String>)
    ensures
        r@ == validation_error_view(reason@),
{
    SpacedText {
        text: Text {
            content: reason.to_string(),
            size: FontSize::Monospace,
            color: TextColor::UiError,
            selectable: false,
        },
        margin_bottom: 8,
    }
}

/// The editor: the location control, the pickers, and below them why the orchestration cannot be
/// accepted.
pub open spec fn editor_part_view(
    action_id: Seq<char>,
    state: OrchestrateEditState,
    handles: OrchestrateCardHandles,
) -> Editor<Seq<char>, Seq<RowColumn<Seq<char>>>, Seq<Part>> {
    Editor {
        mode_toggle: mode_toggle_view(action_id, state.execution_mode is Remote, handles),
        picker_row: picker_row_view(state.execution_mode is Remote, handles),
        validation_error: match text_view(state.accept_disabled_reason) {
            Some(reason) => Some(validation_error_view(reason)),
            None => None,
        },
        parts: if state.accept_disabled_reason is Some {
            seq![Part::ModeToggle, Part::PickerRow, Part::ValidationError]
        } else {
            seq![Part::ModeToggle, Part::PickerRow]
        },
        alignment: CrossAxisAlignment::Stretch,
        horizontal_padding: 16,
        padding_top: 12,
        padding_bottom: 12,
        background: Fill::Background,
        border: Border::Top { width: 1, fill: Fill::Surface2 },
    }
}

/// The editor: the location control, the pickers, and below them why the orchestration cannot be
/// accepted.
pub fn render_editor(
    action_id: &AIAgentActionId,
    state: &OrchestrateEditState,
    handles: &OrchestrateCardHandles,
) -> (r: Editor<String, Vec<RowColumn<String>>, Vec<Part>>)
    ensures
        r@ == editor_part_view(action_id.0@, *state, *handles),
{
    let mut parts: Vec<Part> = Vec::new();
    parts.push(Part::ModeToggle);
    parts.push(Part::PickerRow);
    let validation_error = match &state.accept_disabled_reason {
        Some(reason) => {
            parts.push(Part::ValidationError);
            Some(render_validation_error(reason.as_str()))
        },
        None => None,
    };
    assert(parts@ =~= editor_part_view(action_id.0@, *state, *handles).parts);
    Editor {
        mode_toggle: render_mode_toggle(action_id, state, handles),
        picker_row: render_picker_row_quad(state, handles),
        validation_error,
        parts,
        alignment: CrossAxisAlignment::Stretch,
        horizontal_padding: 16,
        padding_top: 12,
        padding_bottom: 12,
        background: Fill::Background,
        border: Border::Top { width: 1, fill: Fill::Surface2 },
    }
}

/// The card that asks for confirmation. The editor is there while it is open; the border has the
/// accent color while the card waits for the user.
pub open spec fn confirmation_card_view(
    action_id: Seq<char>,
    state: OrchestrateEditState,
    handles: OrchestrateCardHandles,
    is_blocked: bool,
) -> ConfirmationCard<Seq<char>, Seq<Seq<char>>, Seq<RowColumn<Seq<char>>>, Seq<Part>> {
    ConfirmationCard {
        header: header_view(handles),
        body: body_view(state),
        editor: if state.is_editor_open {
            Some(editor_part_view(action_id, state, handles))
        } else {
            None
        },
        parts: if state.is_editor_open {
            seq![Part::Header, Part::Body, Part::Editor]
        } else {
            seq![Part::Header, Part::Body]
        },
        alignment: CrossAxisAlignment::Stretch,
        corner_radius: CornerRadius::All(8),
        border: Border::All {
            width: 1,
            fill: if is_blocked {
                Fill::Accent
            } else {
                Fill::Surface2
            },
        },
        spacing: ItemSpacing::AgentOutput,
    }
}

/// The card that asks for confirmation. The editor is there while it is open; the border has the
/// accent color while the card waits for the user.
pub fn render_confirmation_card(
    action_id: &AIAgentActionId,
    state: &OrchestrateEditState,
    handles: &OrchestrateCardHandles,
    is_blocked: bool,
) -> (r: ConfirmationCard<String, Vec<String>, Vec<RowColumn<String>>, Vec<Part>>)
    ensures
        r@ == confirmation_card_view(action_id.0@, *state, *handles, is_blocked),
{
    let mut parts: Vec<Part> = Vec::new();
    parts.push(Part::Header);
    parts.push(Part::Body);
    let editor = if state.is_editor_open {
        parts.push(Part::Editor);
        Some(render_editor(action_id, state, handles))
    } else {
        None
    };
    assert(parts@ =~= confirmation_card_view(action_id.0@, *state, *handles, is_blocked).parts);
    let fill = if is_blocked {
        Fill::Accent
    } else {
        Fill::Surface2
    };
    ConfirmationCard {
        header: render_header(handles),
        body: render_body(state),
        editor,
        parts,
        alignment: CrossAxisAlignment::Stretch,
        corner_radius: CornerRadius::All(8),
        border: Border::All { width: 1, fill },
        spacing: ItemSpacing::AgentOutput,
    }
}

/// The orchestration as the user has edited it, or as `requested`.
pub open spec fn shown_state(
    props: Props,
    action_id: Seq<char>,
    requested: OrchestrateEditState,
) -> OrchestrateEditState {
    if props.orchestrate_edit_states@.contains_key(action_id) {
        props.orchestrate_edit_states@[action_id]
    } else {
        requested
    }
}

/// The handles of the card, as far as they have been made.
pub open spec fn shown_handles(props: Props, action_id: Seq<char>) -> OrchestrateCardHandles {
    if props.orchestrate_card_handles@.contains_key(action_id) {
        props.orchestrate_card_handles@[action_id]
    } else {
        no_handles()
    }
}

/// What stands for an orchestration in the conversation: how it went once it is finished, a
/// cancellation where it was restored from the history unfinished, and the confirmation card
/// otherwise. The card shows the orchestration as the user has edited it, or as `requested`.
pub open spec fn orchestrate_view(
    props: Props,
    action_id: Seq<char>,
    requested: OrchestrateEditState,
) -> OrchestrateElement<Seq<char>, Seq<Seq<char>>, Seq<RowColumn<Seq<char>>>, Seq<Part>> {
    match props.action_status {
        Some(AIActionStatus::Finished(AIAgentActionResultType::Orchestrate(result))) =>
            OrchestrateElement::Status(terminal_state_view(result)),
        Some(AIActionStatus::Finished(AIAgentActionResultType::Other)) => OrchestrateElement::Empty,
        _ => if props.is_restored {
            OrchestrateElement::Status(
                status_card_view("Spawn agents cancelled"@, StatusKind::Cancelled),
            )
        } else {
            OrchestrateElement::Confirmation(
                confirmation_card_view(
                    action_id,
                    shown_state(props, action_id, requested),
                    shown_handles(props, action_id),
                    props.action_status matches Some(AIActionStatus::Blocked),
                ),
            )
        },
    }
}

/// What stands for an orchestration in the conversation. `requested` is the orchestration as it
/// was asked for, before any edit.
pub fn render_orchestrate(
    props: &Props,
    action_id: &AIAgentActionId,
    requested: &OrchestrateEditState,
) -> (r: OrchestrateElement<String, Vec<String>, Vec<RowColumn<String>>, Vec<Part>>)
    ensures
        r@ == orchestrate_view(*props, action_id.0@, *requested),
{
    if let Some(AIActionStatus::Finished(result)) = &props.action_status {
        return match result {
            AIAgentActionResultType::Orchestrate(result) => OrchestrateElement::Status(
                render_terminal_state(result),
            ),
            AIAgentActionResultType::Other => OrchestrateElement::Empty,
        };
    }
    if props.is_restored {
        return OrchestrateElement::Status(
            render_status_only_card("Spawn agents cancelled".to_string(), StatusKind::Cancelled),
        );
    }
    let state = match props.orchestrate_edit_states.get(action_id) {
        Some(state) => state,
        None => requested,
    };
    let handles = match props.orchestrate_card_handles.get(action_id) {
        Some(handles) => *handles,
        None => OrchestrateCardHandles::default(),
    };
    let is_blocked = match &props.action_status {
        Some(AIActionStatus::Blocked) => true,
        _ => false,
    };
    OrchestrateElement::Confirmation(
        render_confirmation_card(action_id, state, &handles, is_blocked),
    )
}

} // verus!
