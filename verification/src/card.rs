//! What a confirmation card is made of: texts, buttons, pickers and how they are laid out.
//!
//! The parts are generic in how they hold text and lists: a card to draw holds `String` and `Vec`,
//! its view holds `Seq`. All lengths are in pixels.

use vstd::prelude::*;

verus! {

/// A color or fill, most of them by their role in the theme.
#[derive(Clone, Copy, Debug, PartialEq, Eq, Structural)]
pub enum Fill {
    Accent,
    AccentButton,
    Background,
    Neutral2,
    Outline,
    Surface1,
    Surface2,
    Rgba { r: u8, g: u8, b: u8, a: u8 },
}

/// The color of a text.
#[derive(Clone, Copy, Debug, PartialEq, Eq, Structural)]
pub enum TextColor {
    /// The main text color on the given fill.
    Main(Fill),
    /// The color of muted text on the given fill.
    Disabled(Fill),
    /// The color of errors.
    UiError,
}

/// The size of a text in the UI font: that of the UI, that of the monospace font, or one less or
/// more than the latter.
#[derive(Clone, Copy, Debug, PartialEq, Eq, Structural)]
pub enum FontSize {
    Ui,
    MonospaceMinusOne,
    Monospace,
    MonospacePlusOne,
}

/// Which corners are rounded, and how much.
#[derive(Clone, Copy, Debug, PartialEq, Eq, Structural)]
pub enum CornerRadius {
    All(u32),
    Top(u32),
    Bottom(u32),
}

/// A border along all edges or along the top one.
#[derive(Clone, Copy, Debug, PartialEq, Eq, Structural)]
pub enum Border {
    All { width: u32, fill: Fill },
    Top { width: u32, fill: Fill },
}

#[derive(Clone, Copy, Debug, PartialEq, Eq, Structural)]
pub enum Icon {
    OrchestrateStop,
    YellowRunning,
    GreenCheck,
    RedX,
    Cancelled,
}

#[derive(Clone, Copy, Debug, PartialEq, Eq, Structural)]
pub enum Cursor {
    PointingHand,
}

/// How the children of a row or column stand across its direction.
#[derive(Clone, Copy, Debug, PartialEq, Eq, Structural)]
pub enum CrossAxisAlignment {
    Start,
    Center,
    Stretch,
}

/// Where the children of a row stand along it.
#[derive(Clone, Copy, Debug, PartialEq, Eq, Structural)]
pub enum MainAxisAlignment {
    Start,
}

/// Whether a row takes all the room that there is or only as much as it needs.
#[derive(Clone, Copy, Debug, PartialEq, Eq, Structural)]
pub enum MainAxisSize {
    Max,
    Min,
}

/// How much room a header needs to show its buttons in full.
#[derive(Clone, Copy, Debug, PartialEq, Eq, Structural)]
pub enum SizeSwitchThreshold {
    Medium,
}

/// How far an element stands from the others around it.
#[derive(Clone, Copy, Debug, PartialEq, Eq, Structural)]
pub enum ItemSpacing {
    /// As far as the items of the output of an agent.
    AgentOutput,
}

/// What the columns of a card are made of.
#[derive(Clone, Copy, Debug, PartialEq, Eq, Structural)]
pub enum Part {
    Header,
    Body,
    Editor,
    Summary,
    Agents,
    ModeToggle,
    PickerRow,
    ValidationError,
}

/// A button or picker that the card shows but does not own.
#[derive(Clone, Copy, Debug, PartialEq, Eq, Structural)]
pub struct ViewId(pub u64);

/// The mouse state of a part of the card.
#[derive(Clone, Copy, Debug, PartialEq, Eq, Structural)]
pub struct MouseStateId(pub u64);

/// A text.
#[derive(Clone, Debug)]
pub struct Text<S> {
    pub content: S,
    pub size: FontSize,
    pub color: TextColor,
    pub selectable: bool,
}

impl View for Text<String> {
    type V = Text<Seq<char>>;

    open spec fn view(&self) -> Text<Seq<char>> {
        Text {
            content: self.content@,
            size: self.size,
            color: self.color,
            selectable: self.selectable,
        }
    }
}

/// A text with room below it.
#[derive(Clone, Debug)]
pub struct SpacedText<S> {
    pub text: Text<S>,
    pub margin_bottom: u32,
}

impl View for SpacedText<String> {
    type V = SpacedText<Seq<char>>;

    open spec fn view(&self) -> SpacedText<Seq<char>> {
        SpacedText { text: self.text@, margin_bottom: self.margin_bottom }
    }
}

/// A row with an icon and a label, indented from both edges.
#[derive(Clone, Debug)]
pub struct StatusCard<S> {
    pub label: S,
    pub icon: Icon,
    pub background: Fill,
    pub corner_radius: CornerRadius,
    pub margin_left: u32,
    pub margin_right: u32,
    pub spacing: ItemSpacing,
}

impl View for StatusCard<String> {
    type V = StatusCard<Seq<char>>;

    open spec fn view(&self) -> StatusCard<Seq<char>> {
        StatusCard {
            label: self.label@,
            icon: self.icon,
            background: self.background,
            corner_radius: self.corner_radius,
            margin_left: self.margin_left,
            margin_right: self.margin_right,
            spacing: self.spacing,
        }
    }
}

/// The buttons at the trailing edge of a header, from left to right.
#[derive(Clone, Copy, Debug, PartialEq, Eq, Structural)]
pub struct ActionButtons {
    pub reject: ViewId,
    pub edit: ViewId,
    pub accept: ViewId,
    pub size_switch_threshold: SizeSwitchThreshold,
}

/// The bar at the top of a card.
#[derive(Clone, Debug)]
pub struct Header<S> {
    pub title: S,
    pub icon: Icon,
    pub corner_radius: CornerRadius,
    pub action_buttons: Option<ActionButtons>,
}

impl View for Header<String> {
    type V = Header<Seq<char>>;

    open spec fn view(&self) -> Header<Seq<char>> {
        Header {
            title: self.title@,
            icon: self.icon,
            corner_radius: self.corner_radius,
            action_buttons: self.action_buttons,
        }
    }
}

/// The texts of `names`, in order.
pub open spec fn texts_of(names: Seq<String>) -> Seq<Seq<char>> {
    names.map_values(|name: String| name@)
}

/// A label above a row with one pill for each agent.
#[derive(Clone, Debug)]
pub struct AgentsSection<S, Names> {
    pub label: SpacedText<S>,
    pub pills: Names,
    pub pill_spacing: u32,
    pub pill_alignment: CrossAxisAlignment,
    pub pill_row_size: MainAxisSize,
    pub alignment: CrossAxisAlignment,
}

impl View for AgentsSection<String, Vec<String>> {
    type V = AgentsSection<Seq<char>, Seq<Seq<char>>>;

    open spec fn view(&self) -> AgentsSection<Seq<char>, Seq<Seq<char>>> {
        AgentsSection {
            label: self.label@,
            pills: texts_of(self.pills@),
            pill_spacing: self.pill_spacing,
            pill_alignment: self.pill_alignment,
            pill_row_size: self.pill_row_size,
            alignment: self.alignment,
        }
    }
}

/// The part of a card that says what it is about.
#[derive(Clone, Debug)]
pub struct Body<S, Names, Parts> {
    pub summary: SpacedText<S>,
    pub agents: AgentsSection<S, Names>,
    /// What the column is made of, from top to bottom.
    pub parts: Parts,
    pub alignment: CrossAxisAlignment,
    pub horizontal_padding: u32,
    pub vertical_padding: u32,
    pub background: Fill,
    pub corner_radius: CornerRadius,
}

impl View for Body<String, Vec<String>, Vec<Part>> {
    type V = Body<Seq<char>, Seq<Seq<char>>, Seq<Part>>;

    open spec fn view(&self) -> Body<Seq<char>, Seq<Seq<char>>, Seq<Part>> {
        Body {
            summary: self.summary@,
            agents: self.agents@,
            parts: self.parts@,
            alignment: self.alignment,
            horizontal_padding: self.horizontal_padding,
            vertical_padding: self.vertical_padding,
            background: self.background,
            corner_radius: self.corner_radius,
        }
    }
}

/// What a click on a part of the card does.
#[derive(Clone, Debug)]
pub enum AIBlockAction<S> {
    OrchestrateExecutionModeToggled { action_id: S, is_remote: bool },
}

impl View for AIBlockAction<String> {
    type V = AIBlockAction<Seq<char>>;

    open spec fn view(&self) -> AIBlockAction<Seq<char>> {
        match *self {
            AIBlockAction::OrchestrateExecutionModeToggled { action_id, is_remote } =>
                AIBlockAction::OrchestrateExecutionModeToggled { action_id: action_id@, is_remote },
        }
    }
}

/// One option of a segmented control.
#[derive(Clone, Debug)]
pub struct SegmentButton<S> {
    pub text: Text<S>,
    pub horizontal_padding: u32,
    pub vertical_padding: u32,
    pub corner_radius: CornerRadius,
    pub background: Option<Fill>,
    pub on_click: AIBlockAction<S>,
    pub mouse_state: Option<MouseStateId>,
    pub cursor: Cursor,
}

impl View for SegmentButton<String> {
    type V = SegmentButton<Seq<char>>;

    open spec fn view(&self) -> SegmentButton<Seq<char>> {
        SegmentButton {
            text: self.text@,
            horizontal_padding: self.horizontal_padding,
            vertical_padding: self.vertical_padding,
            corner_radius: self.corner_radius,
            background: self.background,
            on_click: self.on_click@,
            mouse_state: self.mouse_state,
            cursor: self.cursor,
        }
    }
}

/// A label above a control with two options side by side.
#[derive(Clone, Debug)]
pub struct ModeToggle<S> {
    pub label: SpacedText<S>,
    pub local: SegmentButton<S>,
    pub cloud: SegmentButton<S>,
    pub segment_alignment: CrossAxisAlignment,
    pub segment_row_alignment: MainAxisAlignment,
    pub segment_row_size: MainAxisSize,
    pub alignment: CrossAxisAlignment,
    pub padding: u32,
    pub corner_radius: CornerRadius,
    pub background: Fill,
}

impl View for ModeToggle<String> {
    type V = ModeToggle<Seq<char>>;

    open spec fn view(&self) -> ModeToggle<Seq<char>> {
        ModeToggle {
            label: self.label@,
            local: self.local@,
            cloud: self.cloud@,
            segment_alignment: self.segment_alignment,
            segment_row_alignment: self.segment_row_alignment,
            segment_row_size: self.segment_row_size,
            alignment: self.alignment,
            padding: self.padding,
            corner_radius: self.corner_radius,
            background: self.background,
        }
    }
}

/// A label above a picker; the picker may not have been made yet.
#[derive(Clone, Debug)]
pub struct PickerColumn<S> {
    pub label: SpacedText<S>,
    pub picker: Option<ViewId>,
    pub alignment: CrossAxisAlignment,
}

impl View for PickerColumn<String> {
    type V = PickerColumn<Seq<char>>;

    open spec fn view(&self) -> PickerColumn<Seq<char>> {
        PickerColumn { label: self.label@, picker: self.picker, alignment: self.alignment }
    }
}

/// How wide a part of a row is.
#[derive(Clone, Copy, Debug, PartialEq, Eq, Structural)]
pub enum ColumnWidth {
    /// A share of the room that the row has.
    Expanded { share: u32 },
    Fixed { width: u32 },
}

/// A picker in a row of pickers.
#[derive(Clone, Debug)]
pub struct RowColumn<S> {
    pub width: ColumnWidth,
    pub column: PickerColumn<S>,
}

impl View for RowColumn<String> {
    type V = RowColumn<Seq<char>>;

    open spec fn view(&self) -> RowColumn<Seq<char>> {
        RowColumn { width: self.width, column: self.column@ }
    }
}

/// Pickers side by side, from left to right.
#[derive(Clone, Debug)]
pub struct PickerRow<Columns> {
    pub columns: Columns,
    pub alignment: CrossAxisAlignment,
    pub main_axis_alignment: MainAxisAlignment,
    pub main_axis_size: MainAxisSize,
    pub spacing: u32,
    pub margin_top: u32,
}

/// The views of `columns`, in order.
pub open spec fn columns_of(columns: Seq<RowColumn<String>>) -> Seq<RowColumn<Seq<char>>> {
    columns.map_values(|column: RowColumn<String>| column@)
}

impl View for PickerRow<Vec<RowColumn<String>>> {
    type V = PickerRow<Seq<RowColumn<Seq<char>>>>;

    open spec fn view(&self) -> PickerRow<Seq<RowColumn<Seq<char>>>> {
        PickerRow {
            columns: columns_of(self.columns@),
            alignment: self.alignment,
            main_axis_alignment: self.main_axis_alignment,
            main_axis_size: self.main_axis_size,
            spacing: self.spacing,
            margin_top: self.margin_top,
        }
    }
}

/// The part of a card in which its configuration is edited.
#[derive(Clone, Debug)]
pub struct Editor<S, Columns, Parts> {
    pub mode_toggle: ModeToggle<S>,
    pub picker_row: PickerRow<Columns>,
    pub validation_error: Option<SpacedText<S>>,
    /// What the column is made of, from top to bottom.
    pub parts: Parts,
    pub alignment: CrossAxisAlignment,
    pub horizontal_padding: u32,
    pub padding_top: u32,
    pub padding_bottom: u32,
    pub background: Fill,
    pub border: Border,
}

/// The view of a text that may be absent.
pub open spec fn spaced_text_view(text: Option<SpacedText<String>>) -> Option<
    SpacedText<Seq<char>>,
> {
    match text {
        Some(text) => Some(text@),
        None => None,
    }
}

impl View for Editor<String, Vec<RowColumn<String>>, Vec<Part>> {
    type V = Editor<Seq<char>, Seq<RowColumn<Seq<char>>>, Seq<Part>>;

    open spec fn view(&self) -> Editor<Seq<char>, Seq<RowColumn<Seq<char>>>, Seq<Part>> {
        Editor {
            mode_toggle: self.mode_toggle@,
            picker_row: self.picker_row@,
            validation_error: spaced_text_view(self.validation_error),
            parts: self.parts@,
            alignment: self.alignment,
            horizontal_padding: self.horizontal_padding,
            padding_top: self.padding_top,
            padding_bottom: self.padding_bottom,
            background: self.background,
            border: self.border,
        }
    }
}

/// A card that asks the user to confirm.
#[derive(Clone, Debug)]
pub struct ConfirmationCard<S, Names, Columns, Parts> {
    pub header: Header<S>,
    pub body: Body<S, Names, Parts>,
    pub editor: Option<Editor<S, Columns, Parts>>,
    /// What the column is made of, from top to bottom.
    pub parts: Parts,
    pub alignment: CrossAxisAlignment,
    pub corner_radius: CornerRadius,
    pub border: Border,
    pub spacing: ItemSpacing,
}

/// The view of an editor that may be absent.
pub open spec fn editor_view(
    editor: Option<Editor<String, Vec<RowColumn<String>>, Vec<Part>>>,
) -> Option<Editor<Seq<char>, Seq<RowColumn<Seq<char>>>, Seq<Part>>> {
    match editor {
        Some(editor) => Some(editor@),
        None => None,
    }
}

impl View for ConfirmationCard<String, Vec<String>, Vec<RowColumn<String>>, Vec<Part>> {
    type V = ConfirmationCard<Seq<char>, Seq<Seq<char>>, Seq<RowColumn<Seq<char>>>, Seq<Part>>;

    open spec fn view(&self) -> ConfirmationCard<
        Seq<char>,
        Seq<Seq<char>>,
        Seq<RowColumn<Seq<char>>>,
        Seq<Part>,
    > {
        ConfirmationCard {
            header: self.header@,
            body: self.body@,
            editor: editor_view(self.editor),
            parts: self.parts@,
            alignment: self.alignment,
            corner_radius: self.corner_radius,
            border: self.border,
            spacing: self.spacing,
        }
    }
}

/// What stands for an orchestration in the conversation.
#[derive(Clone, Debug)]
pub enum OrchestrateElement<S, Names, Columns, Parts> {
    /// Nothing.
    Empty,
    Status(StatusCard<S>),
    Confirmation(ConfirmationCard<S, Names, Columns, Parts>),
}

impl View for OrchestrateElement<String, Vec<String>, Vec<RowColumn<String>>, Vec<Part>> {
    type V = OrchestrateElement<Seq<char>, Seq<Seq<char>>, Seq<RowColumn<Seq<char>>>, Seq<Part>>;

    open spec fn view(&self) -> OrchestrateElement<
        Seq<char>,
        Seq<Seq<char>>,
        Seq<RowColumn<Seq<char>>>,
        Seq<Part>,
    > {
        match *self {
            OrchestrateElement::Empty => OrchestrateElement::Empty,
            OrchestrateElement::Status(card) => OrchestrateElement::Status(card@),
            OrchestrateElement::Confirmation(card) => OrchestrateElement::Confirmation(card@),
        }
    }
}

} // verus!
