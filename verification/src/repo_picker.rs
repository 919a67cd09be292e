//! The repository picker of a tab configuration: a list of the known repositories, with a row
//! below it that adds another.

use vstd::prelude::*;

use crate::card::Border;
use crate::card::Cursor;
use crate::card::Fill;
use crate::card::FontSize;
use crate::card::TextColor;
use crate::keymap::picker_context;
use crate::keymap::picker_flags;
use crate::keymap::FixedBinding;
use crate::keymap::KeymapContext;
use crate::text::str_view;
use crate::text::text_view;

verus! {

/// The label of the row below the list.
pub const ADD_NEW_REPO_LABEL: &'static str = "+ Add new repo...";

/// Advertised by the picker only while its list is closed. The binding that opens the list with
/// the space key is limited to this flag, so that the key reaches the filter while the list is
/// open.
pub const REPO_PICKER_COLLAPSED: &'static str = "RepoPickerCollapsed";

/// A length in pixels, by the bits of its IEEE 754 single-precision representation.
#[derive(Clone, Copy, Debug, PartialEq, Eq, Structural)]
pub struct PixelBits(pub u32);

/// 380 pixels.
pub const DEFAULT_DROPDOWN_WIDTH_BITS: u32 = 0x43be_0000;

/// What the picker can be told to do.
#[derive(Clone, Debug, PartialEq)]
pub enum RepoPickerAction {
    /// Select the repository at this path.
    Select(String),
    AddNewRepo,
    /// Open the list if it is closed and close it if it is open.
    ToggleDropdown,
}

/// What the picker tells whoever embeds it.
#[derive(Clone, Debug)]
pub enum RepoPickerEvent {
    /// The user has picked the repository at this path.
    Selected(String),
    /// The user wants to add a repository.
    RequestAddRepo,
}

/// How a label that does not fit is shortened.
#[derive(Clone, Copy, Debug, PartialEq, Eq, Structural)]
pub enum ClipConfig {
    /// Its start is left out.
    Start,
}

/// A repository in the list.
#[derive(Clone, Debug)]
pub struct DropdownItem {
    pub display_text: String,
    pub action: RepoPickerAction,
    pub clip_config: ClipConfig,
    pub tooltip: String,
}

/// A repository.
#[derive(Clone, Debug)]
pub struct Repo {
    /// Its absolute path.
    pub path: String,
    /// The path as it is shown to the user, with the home directory abbreviated.
    pub display: String,
}

/// A known workspace.
#[derive(Clone, Debug)]
pub struct Workspace {
    pub repo: Repo,
    /// Whether there is something at its path.
    pub exists: bool,
}

/// A change of the known workspaces.
#[derive(Clone, Debug)]
pub enum PersistedWorkspaceEvent {
    WorkspaceAdded { path: String },
    Other,
}

/// What to show in the list: the items, and the action of the one to select.
#[derive(Clone, Debug)]
pub struct DropdownUpdate {
    pub items: Vec<DropdownItem>,
    pub select: Option<RepoPickerAction>,
}

/// What to do with the list.
#[derive(Clone, Copy, Debug, PartialEq, Eq, Structural)]
pub enum DropdownCommand {
    Close,
    ToggleExpanded,
}

/// What follows from an action: first what to do with the list, then what to tell the embedder.
#[derive(Clone, Debug)]
pub struct RepoPickerResponse {
    pub dropdown: Option<DropdownCommand>,
    pub event: Option<RepoPickerEvent>,
}

/// How an embedder wants the picker to look.
#[derive(Clone, Copy, Debug, PartialEq, Eq, Structural)]
pub struct PickerStyle {
    pub width: PixelBits,
    pub background: Option<Fill>,
}

/// How the list looks: its width, open or closed, and its background where it has its own.
#[derive(Clone, Copy, Debug, PartialEq, Eq, Structural)]
pub struct DropdownLook {
    pub top_bar_max_width: PixelBits,
    pub menu_width: PixelBits,
    pub background: Option<Fill>,
}

/// The row below the list.
#[derive(Clone, Debug)]
pub struct AddRepoFooter {
    pub label: String,
    pub font_size: FontSize,
    /// Whether the label is kept on one line.
    pub is_inline: bool,
    pub text_color: TextColor,
    pub background: Fill,
    pub horizontal_padding: u32,
    pub vertical_padding: u32,
    pub border: Border,
    pub on_click: RepoPickerAction,
    pub cursor: Cursor,
}

/// Whether `binding` toggles the list with the space key while the list is closed.
pub open spec fn is_space_binding(binding: FixedBinding<RepoPickerAction>) -> bool {
    &&& binding.keystroke@ == "space"@
    &&& binding.action == RepoPickerAction::ToggleDropdown
    &&& binding.flag@ == REPO_PICKER_COLLAPSED@
}

/// The key bindings of the picker: the space key opens a closed picker that has the focus.
pub fn init() -> (r: Vec<FixedBinding<RepoPickerAction>>)
    ensures
        r@.len() == 1,
        is_space_binding(r@[0]),
        r@[0].keystroke@ == "space"@,
        r@[0].action == RepoPickerAction::ToggleDropdown,
        r@[0].flag@ == REPO_PICKER_COLLAPSED@,
{
    let mut bindings: Vec<FixedBinding<RepoPickerAction>> = Vec::new();
    bindings.push(
        FixedBinding {
            keystroke: "space".to_string(),
            action: RepoPickerAction::ToggleDropdown,
            flag: REPO_PICKER_COLLAPSED.to_string(),
        },
    );
    bindings
}

/// The keymap context of the picker.
pub fn build_keymap_context(default_context: KeymapContext, is_expanded: bool) -> (r: KeymapContext)
    ensures
        r@ == picker_flags(default_context@, REPO_PICKER_COLLAPSED@, is_expanded),
{
    picker_context(default_context, REPO_PICKER_COLLAPSED, is_expanded)
}

/// How the list looks under `style`.
pub open spec fn look_of(style: Option<PickerStyle>) -> DropdownLook {
    let width = match style {
        Some(style) => style.width,
        None => PixelBits(DEFAULT_DROPDOWN_WIDTH_BITS),
    };
    DropdownLook {
        top_bar_max_width: width,
        menu_width: width,
        background: match style {
            Some(style) => style.background,
            None => None,
        },
    }
}

/// The row below the list.
pub fn render_add_repo_footer(is_hovered: bool) -> (r: AddRepoFooter)
    ensures
        r.label@ == ADD_NEW_REPO_LABEL@,
        r.font_size == FontSize::Ui,
        r.is_inline,
        r.background == if is_hovered {
            Fill::AccentButton
        } else {
            Fill::Surface2
        },
        r.text_color == TextColor::Main(r.background),
        r.horizontal_padding == 8,
        r.vertical_padding == 6,
        r.border == (Border::Top { width: 1, fill: Fill::Outline }),
        r.on_click == RepoPickerAction::AddNewRepo,
        r.cursor == Cursor::PointingHand,
{
    let background = if is_hovered {
        Fill::AccentButton
    } else {
        Fill::Surface2
    };
    AddRepoFooter {
        label: ADD_NEW_REPO_LABEL.to_string(),
        font_size: FontSize::Ui,
        is_inline: true,
        text_color: TextColor::Main(background),
        background,
        horizontal_padding: 8,
        vertical_padding: 6,
        border: Border::Top { width: 1, fill: Fill::Outline },
        on_click: RepoPickerAction::AddNewRepo,
        cursor: Cursor::PointingHand,
    }
}

/// The item for `repo`: it shows the abbreviated path and selects the absolute one.
pub open spec fn item_of(repo: Repo) -> DropdownItem {
    DropdownItem {
        display_text: repo.display,
        action: RepoPickerAction::Select(repo.path),
        clip_config: ClipConfig::Start,
        tooltip: repo.path,
    }
}

fn list_item(repo: &Repo) -> (r: DropdownItem)
    ensures
        r == item_of(*repo),
{
    DropdownItem {
        display_text: repo.display.clone(),
        action: RepoPickerAction::Select(repo.path.clone()),
        clip_config: ClipConfig::Start,
        tooltip: repo.path.clone(),
    }
}

/// The items for those of `workspaces` that exist, in order.
pub open spec fn items_of(workspaces: Seq<Workspace>) -> Seq<DropdownItem> {
    workspaces.filter(|workspace: Workspace| workspace.exists).map_values(
        |workspace: Workspace| item_of(workspace.repo),
    )
}

/// The items for those of `workspaces` that exist, in order.
pub fn list_items(workspaces: &Vec<Workspace>) -> (r: Vec<DropdownItem>)
    ensures
        r@ == items_of(workspaces@),
{
    let ghost exists = |workspace: Workspace| workspace.exists;
    let ghost item = |workspace: Workspace| item_of(workspace.repo);
    let mut items: Vec<DropdownItem> = Vec::new();
    let mut i: usize = 0;
    proof {
        reveal(Seq::filter);
        assert(items@ =~= workspaces@.take(0).filter(exists).map_values(item));
    }
    while i < workspaces.len()
        invariant
            exists == (|workspace: Workspace| workspace.exists),
            item == (|workspace: Workspace| item_of(workspace.repo)),
            i <= workspaces@.len(),
            items@ == workspaces@.take(i as int).filter(exists).map_values(item),
        decreases workspaces@.len() - i,
    {
        let workspace = &workspaces[i];
        proof {
            reveal(Seq::filter);
            assert(workspaces@.take(i + 1).drop_last() == workspaces@.take(i as int));
        }
        if workspace.exists {
            items.push(list_item(&workspace.repo));
        }
        i = i + 1;
        assert(items@ =~= workspaces@.take(i as int).filter(exists).map_values(item));
    }
    assert(workspaces@.take(workspaces@.len() as int) == workspaces@);
    items
}

/// Whether `item` selects the repository at `path`.
pub open spec fn selects(item: DropdownItem, path: Seq<char>) -> bool {
    item.action matches RepoPickerAction::Select(selected) && selected@ == path
}

/// Whether one of `items` selects the repository at `path`.
pub open spec fn lists(items: Seq<DropdownItem>, path: Seq<char>) -> bool {
    exists|i: int| 0 <= i < items.len() && selects(#[trigger] items[i], path)
}

fn has_item_for(items: &Vec<DropdownItem>, path: &String) -> (r: bool)
    ensures
        r == lists(items@, path@),
{
    let mut i: usize = 0;
    while i < items.len()
        invariant
            i <= items@.len(),
            forall|k: int| 0 <= k < i ==> !selects(#[trigger] items@[k], path@),
        decreases items@.len() - i,
    {
        if let RepoPickerAction::Select(selected) = &items[i].action {
            if *selected == *path {
                assert(selects(items@[i as int], path@));
                return true;
            }
        }
        i = i + 1;
    }
    false
}

/// The items for those of `workspaces` that exist, and an extra one at the end for a
/// `default_value` that is not among them.
pub open spec fn items_with_default(
    workspaces: Seq<Workspace>,
    default_value: Option<Repo>,
) -> Seq<DropdownItem> {
    match default_value {
        Some(repo) if !lists(items_of(workspaces), repo.path@) => items_of(workspaces).push(
            item_of(repo),
        ),
        _ => items_of(workspaces),
    }
}

/// The selection after a refresh that asks for `select_path`: that path, or else what was selected
/// before.
pub open spec fn selection_after(
    selected: Option<Seq<char>>,
    select_path: Option<Seq<char>>,
) -> Option<Seq<char>> {
    if select_path is Some {
        select_path
    } else {
        selected
    }
}

/// Whether `update` shows `items` and selects the item for `selected`, where there is one.
pub open spec fn shows(
    update: DropdownUpdate,
    items: Seq<DropdownItem>,
    selected: Option<Seq<char>>,
) -> bool {
    &&& update.items@ == items
    &&& match (update.select, selected) {
        (Some(RepoPickerAction::Select(path)), Some(selected)) => path@ == selected,
        (None, None) => true,
        _ => false,
    }
}

/// The path of a repository that may be absent.
pub open spec fn path_of(repo: Option<Repo>) -> Option<Seq<char>> {
    match repo {
        Some(repo) => Some(repo.path@),
        None => None,
    }
}

/// A list of the known repositories. Its view is the absolute path of the selected one.
pub struct RepoPicker {
    selected: Option<String>,
}

impl View for RepoPicker {
    type V = Option<Seq<char>>;

    closed spec fn view(&self) -> Option<Seq<char>> {
        text_view(self.selected)
    }
}

impl RepoPicker {
    /// A picker with the default look, on which `default_value` is selected. Returns it with how
    /// its list looks and what the list shows.
    pub fn new(default_value: Option<Repo>, workspaces: &Vec<Workspace>) -> (r: (
        Self,
        DropdownLook,
        DropdownUpdate,
    ))
        ensures
            r.0@ == path_of(default_value),
            r.1 == look_of(None),
            shows(r.2, items_with_default(workspaces@, default_value), path_of(default_value)),
    {
        Self::new_with_style(default_value, None, workspaces)
    }

    /// A picker that looks as `style` says, on which `default_value` is selected. It is listed
    /// even where it is not a known repository. Returns the picker with how its list looks and
    /// what the list shows.
    pub fn new_with_style(
        default_value: Option<Repo>,
        style: Option<PickerStyle>,
        workspaces: &Vec<Workspace>,
    ) -> (r: (Self, DropdownLook, DropdownUpdate))
        ensures
            r.0@ == path_of(default_value),
            r.1 == look_of(style),
            shows(r.2, items_with_default(workspaces@, default_value), path_of(default_value)),
    {
        let (width, background) = match style {
            Some(style) => (style.width, style.background),
            None => (PixelBits(DEFAULT_DROPDOWN_WIDTH_BITS), None),
        };
        let look = DropdownLook { top_bar_max_width: width, menu_width: width, background };
        let mut picker = RepoPicker { selected: None };
        let update = match &default_value {
            Some(repo) => {
                let mut update = picker.refresh_items(Some(repo.path.as_str()), workspaces);
                if !has_item_for(&update.items, &repo.path) {
                    update.items.push(list_item(repo));
                }
                update
            },
            None => picker.refresh_items(None, workspaces),
        };
        (picker, look, update)
    }

    /// Shows `workspaces` anew and selects `path`.
    pub fn refresh_and_select(&mut self, path: &str, workspaces: &Vec<Workspace>) -> (r:
        DropdownUpdate)
        ensures
            final(self)@ == Some(path@),
            shows(r, items_of(workspaces@), Some(path@)),
    {
        self.refresh_items(Some(path), workspaces)
    }

    /// Shows `workspaces` anew. Selects `select_path`, or else what was selected before.
    pub fn refresh_items(&mut self, select_path: Option<&str>, workspaces: &Vec<Workspace>) -> (r:
        DropdownUpdate)
        ensures
            final(self)@ == selection_after(old(self)@, str_view(select_path)),
            shows(r, items_of(workspaces@), final(self)@),
    {
        let items = list_items(workspaces);
        let raw_to_select: Option<String> = match select_path {
            Some(path) => Some(path.to_string()),
            None => match &self.selected {
                Some(path) => Some(path.clone()),
                None => None,
            },
        };
        let select = match raw_to_select {
            Some(raw) => {
                self.selected = Some(raw.clone());
                Some(RepoPickerAction::Select(raw))
            },
            None => None,
        };
        DropdownUpdate { items, select }
    }

    /// Follows a change of the known workspaces: a workspace that was added is shown and selected.
    pub fn handle_workspace_event(
        &mut self,
        event: &PersistedWorkspaceEvent,
        workspaces: &Vec<Workspace>,
    ) -> (r: Option<DropdownUpdate>)
        ensures
            match *event {
                PersistedWorkspaceEvent::WorkspaceAdded { path } => {
                    &&& r matches Some(update)
                    &&& final(self)@ == Some(path@)
                    &&& shows(update, items_of(workspaces@), Some(path@))
                },
                PersistedWorkspaceEvent::Other => r is None && final(self)@ == old(self)@,
            },
    {
        match event {
            PersistedWorkspaceEvent::WorkspaceAdded { path } => Some(
                self.refresh_items(Some(path.as_str()), workspaces),
            ),
            PersistedWorkspaceEvent::Other => None,
        }
    }

    /// Opens the list if it is closed and closes it if it is open; the selection stays.
    pub fn toggle_dropdown(&mut self) -> (r: DropdownCommand)
        ensures
            r == DropdownCommand::ToggleExpanded,
            final(self)@ == old(self)@,
    {
        DropdownCommand::ToggleExpanded
    }

    /// The absolute path of the selected repository.
    pub fn selected_value(&self) -> (r: Option<String>)
        ensures
            text_view(r) == self@,
    {
        match &self.selected {
            Some(path) => Some(path.clone()),
            None => None,
        }
    }

    /// The name of this kind of view.
    pub fn ui_name() -> (r: &'static str)
        ensures
            r@ == "RepoPicker"@,
    {
        "RepoPicker"
    }

    /// The keymap context of the picker, whose list is open or closed.
    pub fn keymap_context(&self, default_context: KeymapContext, is_expanded: bool) -> (r:
        KeymapContext)
        ensures
            r@ == picker_flags(default_context@, REPO_PICKER_COLLAPSED@, is_expanded),
    {
        build_keymap_context(default_context, is_expanded)
    }

    /// Carries out `action`.
    pub fn handle_action(&mut self, action: &RepoPickerAction) -> (r: RepoPickerResponse)
        ensures
            match *action {
                RepoPickerAction::Select(path) => {
                    &&& final(self)@ == Some(path@)
                    &&& r.dropdown is None
                    &&& r.event == Some(RepoPickerEvent::Selected(path))
                },
                RepoPickerAction::AddNewRepo => {
                    &&& final(self)@ == old(self)@
                    &&& r.dropdown == Some(DropdownCommand::Close)
                    &&& r.event == Some(RepoPickerEvent::RequestAddRepo)
                },
                RepoPickerAction::ToggleDropdown => {
                    &&& final(self)@ == old(self)@
                    &&& r.dropdown == Some(DropdownCommand::ToggleExpanded)
                    &&& r.event is None
                },
            },
    {
        match action {
            RepoPickerAction::Select(path) => {
                self.selected = Some(path.clone());
                RepoPickerResponse {
                    dropdown: None,
                    event: Some(RepoPickerEvent::Selected(path.clone())),
                }
            },
            RepoPickerAction::AddNewRepo => RepoPickerResponse {
                dropdown: Some(DropdownCommand::Close),
                event: Some(RepoPickerEvent::RequestAddRepo),
            },
            RepoPickerAction::ToggleDropdown => {
                let command = self.toggle_dropdown();
                RepoPickerResponse { dropdown: Some(command), event: None }
            },
        }
    }
}

} // verus!
