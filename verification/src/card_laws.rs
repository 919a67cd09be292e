//! The views of the parts of a card leave nothing out.

use vstd::prelude::*;

use crate::card::AIBlockAction;
use crate::card::AgentsSection;
use crate::card::Body;
use crate::card::ConfirmationCard;
use crate::card::Editor;
use crate::card::Header;
use crate::card::ModeToggle;
use crate::card::OrchestrateElement;
use crate::card::Part;
use crate::card::PickerColumn;
use crate::card::PickerRow;
use crate::card::RowColumn;
use crate::card::SegmentButton;
use crate::card::SpacedText;
use crate::card::StatusCard;
use crate::card::Text;

verus! {

/// The view of a text keeps everything that is in it.
pub proof fn law_view_of_text(shown: Text<String>)
    ensures
        shown@.content == shown.content@,
        shown@.size == shown.size,
        shown@.color == shown.color,
        shown@.selectable == shown.selectable,
{
}

/// The view of a spaced text keeps everything that is in it.
pub proof fn law_view_of_spaced_text(shown: SpacedText<String>)
    ensures
        shown@.text == shown.text@,
        shown@.margin_bottom == shown.margin_bottom,
{
}

/// The view of a status card keeps everything that is in it.
pub proof fn law_view_of_status_card(shown: StatusCard<String>)
    ensures
        shown@.label == shown.label@,
        shown@.icon == shown.icon,
        shown@.background == shown.background,
        shown@.corner_radius == shown.corner_radius,
        shown@.margin_left == shown.margin_left,
        shown@.margin_right == shown.margin_right,
        shown@.spacing == shown.spacing,
{
}

/// The view of a header keeps everything that is in it.
pub proof fn law_view_of_header(shown: Header<String>)
    ensures
        shown@.title == shown.title@,
        shown@.icon == shown.icon,
        shown@.corner_radius == shown.corner_radius,
        shown@.action_buttons == shown.action_buttons,
{
}

/// The view of a section of agents keeps everything that is in it.
pub proof fn law_view_of_agents_section(shown: AgentsSection<String, Vec<String>>)
    ensures
        shown@.label == shown.label@,
        shown@.pills.len() == shown.pills@.len(),
        forall|k: int|
            0 <= k < shown.pills@.len() ==> #[trigger] shown@.pills[k] == shown.pills@[k]@,
        shown@.pill_spacing == shown.pill_spacing,
        shown@.pill_alignment == shown.pill_alignment,
        shown@.pill_row_size == shown.pill_row_size,
        shown@.alignment == shown.alignment,
{
}

/// The view of a body keeps everything that is in it.
pub proof fn law_view_of_body(shown: Body<String, Vec<String>, Vec<Part>>)
    ensures
        shown@.summary == shown.summary@,
        shown@.agents == shown.agents@,
        shown@.parts == shown.parts@,
        shown@.alignment == shown.alignment,
        shown@.horizontal_padding == shown.horizontal_padding,
        shown@.vertical_padding == shown.vertical_padding,
        shown@.background == shown.background,
        shown@.corner_radius == shown.corner_radius,
{
}

/// The view of an option keeps everything that is in it.
pub proof fn law_view_of_segment_button(shown: SegmentButton<String>)
    ensures
        shown@.text == shown.text@,
        shown@.horizontal_padding == shown.horizontal_padding,
        shown@.vertical_padding == shown.vertical_padding,
        shown@.corner_radius == shown.corner_radius,
        shown@.background == shown.background,
        shown@.on_click == shown.on_click@,
        shown@.mouse_state == shown.mouse_state,
        shown@.cursor == shown.cursor,
{
}

/// The view of a location control keeps everything that is in it.
pub proof fn law_view_of_mode_toggle(shown: ModeToggle<String>)
    ensures
        shown@.label == shown.label@,
        shown@.local == shown.local@,
        shown@.cloud == shown.cloud@,
        shown@.segment_alignment == shown.segment_alignment,
        shown@.segment_row_alignment == shown.segment_row_alignment,
        shown@.segment_row_size == shown.segment_row_size,
        shown@.alignment == shown.alignment,
        shown@.padding == shown.padding,
        shown@.corner_radius == shown.corner_radius,
        shown@.background == shown.background,
{
}

/// The view of a picker below its label keeps everything that is in it.
pub proof fn law_view_of_picker_column(shown: PickerColumn<String>)
    ensures
        shown@.label == shown.label@,
        shown@.picker == shown.picker,
        shown@.alignment == shown.alignment,
{
}

/// The view of a picker in its row keeps everything that is in it.
pub proof fn law_view_of_row_column(shown: RowColumn<String>)
    ensures
        shown@.width == shown.width,
        shown@.column == shown.column@,
{
}

/// The view of a row of pickers keeps everything that is in it.
pub proof fn law_view_of_picker_row(shown: PickerRow<Vec<RowColumn<String>>>)
    ensures
        shown@.columns.len() == shown.columns@.len(),
        forall|k: int|
            0 <= k < shown.columns@.len() ==> #[trigger] shown@.columns[k] == shown.columns@[k]@,
        shown@.alignment == shown.alignment,
        shown@.main_axis_alignment == shown.main_axis_alignment,
        shown@.main_axis_size == shown.main_axis_size,
        shown@.spacing == shown.spacing,
        shown@.margin_top == shown.margin_top,
{
}

/// The view of an editor keeps everything that is in it.
pub proof fn law_view_of_editor(
    shown: Editor<String, Vec<RowColumn<String>>, Vec<Part>>,
)
    ensures
        shown@.mode_toggle == shown.mode_toggle@,
        shown@.picker_row == shown.picker_row@,
        shown@.validation_error is Some <==> shown.validation_error is Some,
        shown.validation_error matches Some(validation_error) ==> shown@.validation_error == Some(validation_error@),
        shown@.parts == shown.parts@,
        shown@.alignment == shown.alignment,
        shown@.horizontal_padding == shown.horizontal_padding,
        shown@.padding_top == shown.padding_top,
        shown@.padding_bottom == shown.padding_bottom,
        shown@.background == shown.background,
        shown@.border == shown.border,
{
}

/// The view of a confirmation card keeps everything that is in it.
pub proof fn law_view_of_confirmation_card(
    shown: ConfirmationCard<String, Vec<String>, Vec<RowColumn<String>>, Vec<Part>>,
)
    ensures
        shown@.header == shown.header@,
        shown@.body == shown.body@,
        shown@.editor is Some <==> shown.editor is Some,
        shown.editor matches Some(editor) ==> shown@.editor == Some(editor@),
        shown@.parts == shown.parts@,
        shown@.alignment == shown.alignment,
        shown@.corner_radius == shown.corner_radius,
        shown@.border == shown.border,
        shown@.spacing == shown.spacing,
{
}

/// The view of what a click does keeps which action it is about and which location it asks for.
pub proof fn law_view_of_click(action_id: String, is_remote: bool)
    ensures
        (AIBlockAction::OrchestrateExecutionModeToggled { action_id, is_remote })@ == (
        AIBlockAction::OrchestrateExecutionModeToggled { action_id: action_id@, is_remote }),
{
}

/// The view of what stands for an orchestration keeps which kind of element it is and what is in
/// it.
pub proof fn law_view_of_element(
    shown: OrchestrateElement<String, Vec<String>, Vec<RowColumn<String>>, Vec<Part>>,
)
    ensures
        shown is Empty <==> shown@ is Empty,
        shown matches OrchestrateElement::Status(card) ==> (
        shown@ matches OrchestrateElement::Status(view) && view == card@),
        shown matches OrchestrateElement::Confirmation(card) ==> (
        shown@ matches OrchestrateElement::Confirmation(view) && view == card@),
{
}

} // verus!
