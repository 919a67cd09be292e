use agent_orchestration::card::Border;
use agent_orchestration::card::Cursor;
use agent_orchestration::card::Fill;
use agent_orchestration::card::FontSize;
use agent_orchestration::card::TextColor;
use agent_orchestration::keymap::KeymapContext;
use agent_orchestration::repo_picker::build_keymap_context;
use agent_orchestration::repo_picker::init;
use agent_orchestration::repo_picker::list_items;
use agent_orchestration::repo_picker::render_add_repo_footer;
use agent_orchestration::repo_picker::ClipConfig;
use agent_orchestration::repo_picker::DropdownCommand;
use agent_orchestration::repo_picker::PersistedWorkspaceEvent;
use agent_orchestration::repo_picker::PickerStyle;
use agent_orchestration::repo_picker::PixelBits;
use agent_orchestration::repo_picker::Repo;
use agent_orchestration::repo_picker::RepoPicker;
use agent_orchestration::repo_picker::RepoPickerAction;
use agent_orchestration::repo_picker::RepoPickerEvent;
use agent_orchestration::repo_picker::Workspace;
use agent_orchestration::repo_picker::REPO_PICKER_COLLAPSED;

fn repo(path: &str, display: &str) -> Repo {
    Repo {
        path: path.to_string(),
        display: display.to_string(),
    }
}

fn workspace(path: &str, display: &str, exists: bool) -> Workspace {
    Workspace {
        repo: repo(path, display),
        exists,
    }
}

fn workspaces() -> Vec<Workspace> {
    vec![
        workspace("/home/u/b", "~/b", true),
        workspace("/home/u/gone", "~/gone", false),
        workspace("/home/u/a", "~/a", true),
        workspace("/srv/a", "~/a", true),
    ]
}

fn select(path: &str) -> RepoPickerAction {
    RepoPickerAction::Select(path.to_string())
}

fn actions(items: &[agent_orchestration::repo_picker::DropdownItem]) -> Vec<RepoPickerAction> {
    items.iter().map(|item| item.action.clone()).collect()
}

#[test]
fn space_is_bound_to_closed_repo_picker_only() {
    let bindings = init();
    assert_eq!(bindings.len(), 1);
    assert_eq!(bindings[0].keystroke, "space");
    assert_eq!(bindings[0].action, RepoPickerAction::ToggleDropdown);
    assert_eq!(bindings[0].flag, "RepoPickerCollapsed");
    assert!(bindings[0].applies_in(&build_keymap_context(KeymapContext::new(), false)));
    assert!(!bindings[0].applies_in(&build_keymap_context(KeymapContext::new(), true)));
}

#[test]
fn repo_picker_advertises_flag_while_closed() {
    let (picker, _, _) = RepoPicker::new(None, &workspaces());
    let mut default_context = KeymapContext::new();
    default_context.insert(RepoPicker::ui_name());
    let closed = picker.keymap_context(default_context.clone(), false);
    let open = picker.keymap_context(default_context, true);
    assert!(closed.contains(REPO_PICKER_COLLAPSED));
    assert!(!open.contains(REPO_PICKER_COLLAPSED));
    assert!(closed.contains("RepoPicker"));
    assert!(open.contains("RepoPicker"));
}

#[test]
fn only_existing_workspaces_are_listed_in_order() {
    let items = list_items(&workspaces());
    assert_eq!(
        actions(&items),
        vec![select("/home/u/b"), select("/home/u/a"), select("/srv/a")],
    );
    assert_eq!(items[0].display_text, "~/b");
    assert_eq!(items[0].tooltip, "/home/u/b");
    assert_eq!(items[0].clip_config, ClipConfig::Start);
    for item in &items {
        assert_eq!(item.action, select(&item.tooltip));
    }
    assert_eq!(items[1].display_text, items[2].display_text);
    assert_ne!(items[1].action, items[2].action);
}

#[test]
fn lists_of_parts_make_up_the_list() {
    let all = workspaces();
    for n in 0..=all.len() {
        let mut joined = actions(&list_items(&all[..n].to_vec()));
        joined.extend(actions(&list_items(&all[n..].to_vec())));
        assert_eq!(joined, actions(&list_items(&all)));
    }
    assert!(list_items(&Vec::new()).is_empty());
}

#[test]
fn known_default_is_selected_and_adds_no_item() {
    let (picker, look, update) = RepoPicker::new(Some(repo("/home/u/a", "~/a")), &workspaces());
    assert_eq!(picker.selected_value(), Some("/home/u/a".to_string()));
    assert_eq!(update.select, Some(select("/home/u/a")));
    assert_eq!(actions(&update.items), actions(&list_items(&workspaces())));
    assert_eq!(f32::from_bits(look.menu_width.0), 380.);
    assert_eq!(f32::from_bits(look.top_bar_max_width.0), 380.);
    assert_eq!(look.background, None);
}

#[test]
fn unknown_default_gets_an_extra_item() {
    let (picker, _, update) = RepoPicker::new(Some(repo("/opt/new", "/opt/new")), &workspaces());
    assert_eq!(picker.selected_value(), Some("/opt/new".to_string()));
    assert_eq!(update.select, Some(select("/opt/new")));
    assert_eq!(
        actions(&update.items),
        vec![
            select("/home/u/b"),
            select("/home/u/a"),
            select("/srv/a"),
            select("/opt/new"),
        ],
    );
    assert_eq!(update.items[3].display_text, "/opt/new");
    assert_eq!(update.items[3].tooltip, "/opt/new");
}

#[test]
fn without_default_nothing_is_selected() {
    let (picker, _, update) = RepoPicker::new(None, &workspaces());
    assert_eq!(picker.selected_value(), None);
    assert_eq!(update.select, None);
    assert_eq!(update.items.len(), 3);
}

#[test]
fn style_sets_width_and_background() {
    let style = PickerStyle {
        width: PixelBits(250f32.to_bits()),
        background: Some(Fill::Surface1),
    };
    let (_, look, _) = RepoPicker::new_with_style(None, Some(style), &workspaces());
    assert_eq!(f32::from_bits(look.menu_width.0), 250.);
    assert_eq!(f32::from_bits(look.top_bar_max_width.0), 250.);
    assert_eq!(look.background, Some(Fill::Surface1));
}

#[test]
fn refresh_prefers_asked_path_and_keeps_selection_otherwise() {
    let (mut picker, _, _) = RepoPicker::new(None, &workspaces());
    assert_eq!(picker.refresh_items(None, &workspaces()).select, None);
    let update = picker.refresh_and_select("/srv/a", &workspaces());
    assert_eq!(update.select, Some(select("/srv/a")));
    assert_eq!(picker.selected_value(), Some("/srv/a".to_string()));
    let update = picker.refresh_items(None, &Vec::new());
    assert!(update.items.is_empty());
    assert_eq!(update.select, Some(select("/srv/a")));
    assert_eq!(picker.selected_value(), Some("/srv/a".to_string()));
    picker.refresh_items(Some("/home/u/b"), &workspaces());
    assert_eq!(picker.selected_value(), Some("/home/u/b".to_string()));
}

#[test]
fn added_workspace_is_selected() {
    let (mut picker, _, _) = RepoPicker::new(None, &Vec::new());
    let event = PersistedWorkspaceEvent::WorkspaceAdded {
        path: "/home/u/a".to_string(),
    };
    let update = picker.handle_workspace_event(&event, &workspaces());
    let update = update.expect("the list changes");
    assert_eq!(update.items.len(), 3);
    assert_eq!(update.select, Some(select("/home/u/a")));
    assert_eq!(picker.selected_value(), Some("/home/u/a".to_string()));
    let other = picker.handle_workspace_event(&PersistedWorkspaceEvent::Other, &workspaces());
    assert!(other.is_none());
    assert_eq!(picker.selected_value(), Some("/home/u/a".to_string()));
}

#[test]
fn selecting_an_item_tells_its_raw_path() {
    let (mut picker, _, update) = RepoPicker::new(None, &workspaces());
    let response = picker.handle_action(&update.items[1].action);
    assert_eq!(picker.selected_value(), Some("/home/u/a".to_string()));
    assert_eq!(response.dropdown, None);
    match response.event {
        Some(RepoPickerEvent::Selected(path)) => assert_eq!(path, "/home/u/a"),
        other => panic!("{other:?}"),
    }
}

#[test]
fn adding_a_repo_closes_the_list_first() {
    let (mut picker, _, _) = RepoPicker::new(Some(repo("/a", "/a")), &Vec::new());
    let response = picker.handle_action(&RepoPickerAction::AddNewRepo);
    assert_eq!(response.dropdown, Some(DropdownCommand::Close));
    assert!(matches!(response.event, Some(RepoPickerEvent::RequestAddRepo)));
    assert_eq!(picker.selected_value(), Some("/a".to_string()));
}

#[test]
fn toggling_changes_only_the_list() {
    let (mut picker, _, _) = RepoPicker::new(Some(repo("/a", "/a")), &Vec::new());
    let response = picker.handle_action(&RepoPickerAction::ToggleDropdown);
    assert_eq!(response.dropdown, Some(DropdownCommand::ToggleExpanded));
    assert!(response.event.is_none());
    assert_eq!(picker.toggle_dropdown(), DropdownCommand::ToggleExpanded);
    assert_eq!(picker.selected_value(), Some("/a".to_string()));
}

#[test]
fn footer_lights_up_under_the_mouse() {
    let plain = render_add_repo_footer(false);
    let hovered = render_add_repo_footer(true);
    assert_eq!(plain.background, Fill::Surface2);
    assert_eq!(plain.text_color, TextColor::Main(Fill::Surface2));
    assert_eq!(hovered.background, Fill::AccentButton);
    assert_eq!(hovered.text_color, TextColor::Main(Fill::AccentButton));
    assert_eq!(plain.label, "+ Add new repo...");
    assert_eq!(plain.font_size, FontSize::Ui);
    assert!(plain.is_inline);
    assert_eq!(plain.horizontal_padding, 8);
    assert_eq!(plain.vertical_padding, 6);
    assert_eq!(plain.border, Border::Top { width: 1, fill: Fill::Outline });
    assert_eq!(plain.on_click, RepoPickerAction::AddNewRepo);
    assert_eq!(plain.cursor, Cursor::PointingHand);
}
