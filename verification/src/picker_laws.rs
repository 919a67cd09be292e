//! What holds of the pickers across calls.

use vstd::prelude::*;

use crate::branch_picker::BRANCH_PICKER_COLLAPSED;
use crate::keymap::picker_flags;
use crate::keymap::FixedBinding;
use crate::repo_picker::is_space_binding;
use crate::repo_picker::item_of;
use crate::repo_picker::items_of;
use crate::repo_picker::items_with_default;
use crate::repo_picker::lists;
use crate::repo_picker::look_of;
use crate::repo_picker::path_of;
use crate::repo_picker::selection_after;
use crate::repo_picker::selects;
use crate::repo_picker::shows;
use crate::repo_picker::ClipConfig;
use crate::repo_picker::DropdownItem;
use crate::repo_picker::DropdownUpdate;
use crate::repo_picker::PickerStyle;
use crate::repo_picker::Repo;
use crate::repo_picker::RepoPickerAction;
use crate::repo_picker::Workspace;
use crate::repo_picker::ADD_NEW_REPO_LABEL;
use crate::repo_picker::REPO_PICKER_COLLAPSED;

verus! {

/// A picker advertises its flag exactly while its list is closed, and the flags that every view
/// has in any case.
pub proof fn law_flag_marks_closed_picker(default_flags: Set<Seq<char>>, is_expanded: bool)
    ensures
        !default_flags.contains(REPO_PICKER_COLLAPSED@) ==> (picker_flags(
            default_flags,
            REPO_PICKER_COLLAPSED@,
            is_expanded,
        ).contains(REPO_PICKER_COLLAPSED@) <==> !is_expanded),
        !default_flags.contains(BRANCH_PICKER_COLLAPSED@) ==> (picker_flags(
            default_flags,
            BRANCH_PICKER_COLLAPSED@,
            is_expanded,
        ).contains(BRANCH_PICKER_COLLAPSED@) <==> !is_expanded),
        default_flags.subset_of(picker_flags(default_flags, REPO_PICKER_COLLAPSED@, is_expanded)),
        default_flags.subset_of(picker_flags(default_flags, BRANCH_PICKER_COLLAPSED@, is_expanded)),
{
}

/// A picker has the flags that every view has and its own while its list is closed, and no others.
pub proof fn law_picker_has_no_other_flags(
    default_flags: Set<Seq<char>>,
    collapsed: Seq<char>,
    is_expanded: bool,
    flag: Seq<char>,
)
    ensures
        picker_flags(default_flags, collapsed, is_expanded).contains(flag)
            <==> default_flags.contains(flag) || (flag == collapsed && !is_expanded),
{
}

/// The fixed texts of the pickers, and the width of a picker whose embedder asks for none.
pub proof fn law_fixed_texts()
    ensures
        REPO_PICKER_COLLAPSED@ == "RepoPickerCollapsed"@,
        BRANCH_PICKER_COLLAPSED@ == "BranchPickerCollapsed"@,
        ADD_NEW_REPO_LABEL@ == "+ Add new repo..."@,
        look_of(None).menu_width.0 == 0x43be_0000,
{
}

/// A picker is as wide open as closed. With a style it has the width and the background of the
/// style, and else no background of its own.
pub proof fn law_look(style: PickerStyle)
    ensures
        look_of(Some(style)).top_bar_max_width == style.width,
        look_of(Some(style)).menu_width == style.width,
        look_of(Some(style)).background == style.background,
        look_of(None).top_bar_max_width == look_of(None).menu_width,
        look_of(None).background is None,
{
}

/// An item shows the path as the user knows it, shortened at its start, and selects the path as it
/// is.
pub proof fn law_item(repo: Repo)
    ensures
        item_of(repo).display_text == repo.display,
        item_of(repo).action == RepoPickerAction::Select(repo.path),
        item_of(repo).tooltip == repo.path,
        item_of(repo).clip_config == ClipConfig::Start,
{
}

/// A single workspace is listed with its item where it exists, and not at all where it does not.
pub proof fn law_single_workspace(workspace: Workspace)
    ensures
        workspace.exists ==> items_of(seq![workspace]) == seq![item_of(workspace.repo)],
        !workspace.exists ==> items_of(seq![workspace]).len() == 0,
        items_of(Seq::<Workspace>::empty()).len() == 0,
{
    reveal(Seq::filter);
    assert(seq![workspace].drop_last() =~= Seq::<Workspace>::empty());
    assert(items_of(Seq::<Workspace>::empty()).len() == 0);
    if workspace.exists {
        assert(items_of(seq![workspace]) =~= seq![item_of(workspace.repo)]);
    }
}

/// What is shown is what is to be shown: these items, and the one for the selected path selected;
/// where nothing is selected no item is.
pub proof fn law_update_shows_items_and_selection(
    update: DropdownUpdate,
    items: Seq<DropdownItem>,
    selected: Option<Seq<char>>,
)
    requires
        shows(update, items, selected),
    ensures
        update.items@ == items,
        update.select is Some <==> selected is Some,
        selected matches Some(path) ==> (update.select matches Some(RepoPickerAction::Select(raw))
            && raw@ == path),
{
}

/// A repository that may be absent is absent or has its path.
pub proof fn law_path_of(repo: Repo)
    ensures
        path_of(Some(repo)) == Some(repo.path@),
        path_of(None) == None::<Seq<char>>,
{
}

/// An unlisted default value adds exactly one item, its own, at the end.
pub proof fn law_unlisted_default_comes_last(workspaces: Seq<Workspace>, repo: Repo)
    requires
        !lists(items_of(workspaces), repo.path@),
    ensures
        ({
            let items = items_with_default(workspaces, Some(repo));
            &&& items.len() == items_of(workspaces).len() + 1
            &&& items.last() == item_of(repo)
        }),
{
}

/// The space key belongs to a closed repository picker and to the filter of an open one: its
/// binding applies exactly while the list is closed.
pub proof fn law_space_opens_closed_picker(
    binding: FixedBinding<RepoPickerAction>,
    default_flags: Set<Seq<char>>,
    is_expanded: bool,
)
    requires
        is_space_binding(binding),
        !default_flags.contains(REPO_PICKER_COLLAPSED@),
    ensures
        picker_flags(default_flags, REPO_PICKER_COLLAPSED@, is_expanded).contains(binding.flag@)
            <==> !is_expanded,
        binding.action == RepoPickerAction::ToggleDropdown,
{
}

/// The workspaces are listed in their order: the items of two runs of workspaces are those of the
/// first run followed by those of the second.
pub proof fn law_items_keep_order(first: Seq<Workspace>, second: Seq<Workspace>)
    ensures
        items_of(first + second) == items_of(first) + items_of(second),
    decreases second.len(),
{
    let exists = |workspace: Workspace| workspace.exists;
    reveal(Seq::filter);
    if second.len() == 0 {
        assert(first + second == first);
        assert(items_of(second) =~= Seq::empty());
        assert(items_of(first) + items_of(second) =~= items_of(first));
    } else {
        law_items_keep_order(first, second.drop_last());
        assert((first + second).drop_last() == first + second.drop_last());
        let all = (first + second).filter(exists);
        let earlier = (first + second.drop_last()).filter(exists);
        if second.last().exists {
            assert(all == earlier.push(second.last()));
            assert(items_of(first + second) =~= items_of(first + second.drop_last()).push(
                item_of(second.last().repo),
            ));
            assert(items_of(second) =~= items_of(second.drop_last()).push(
                item_of(second.last().repo),
            ));
            assert(items_of(first) + items_of(second) =~= (items_of(first) + items_of(
                second.drop_last(),
            )).push(item_of(second.last().repo)));
        }
    }
}

/// A path is listed exactly where a workspace at that path exists.
pub proof fn law_listed_are_the_existing(workspaces: Seq<Workspace>, path: Seq<char>)
    ensures
        lists(items_of(workspaces), path) <==> exists|i: int|
            0 <= i < workspaces.len() && (#[trigger] workspaces[i]).exists
                && workspaces[i].repo.path@ == path,
    decreases workspaces.len(),
{
    reveal(Seq::filter);
    if workspaces.len() > 0 {
        let n = workspaces.len() - 1;
        let earlier = workspaces.drop_last();
        law_listed_are_the_existing(earlier, path);
        let items = items_of(workspaces);
        if workspaces[n].exists {
            assert(items =~= items_of(earlier).push(item_of(workspaces[n].repo)));
        } else {
            assert(items =~= items_of(earlier));
        }
        if lists(items, path) {
            let k = choose|k: int| 0 <= k < items.len() && selects(#[trigger] items[k], path);
            if k < items_of(earlier).len() {
                assert(selects(items_of(earlier)[k], path));
                let i = choose|i: int|
                    0 <= i < earlier.len() && (#[trigger] earlier[i]).exists
                        && earlier[i].repo.path@ == path;
                assert(workspaces[i].exists && workspaces[i].repo.path@ == path);
            } else {
                assert(workspaces[n].exists && workspaces[n].repo.path@ == path);
            }
        }
        if exists|i: int|
            0 <= i < workspaces.len() && (#[trigger] workspaces[i]).exists
                && workspaces[i].repo.path@ == path {
            let i = choose|i: int|
                0 <= i < workspaces.len() && (#[trigger] workspaces[i]).exists
                    && workspaces[i].repo.path@ == path;
            if i < n {
                assert(earlier[i].exists && earlier[i].repo.path@ == path);
                let k = choose|k: int|
                    0 <= k < items_of(earlier).len() && selects(
                        #[trigger] items_of(earlier)[k],
                        path,
                    );
                assert(selects(items[k], path));
            } else {
                assert(selects(items[items.len() - 1], path));
            }
        }
    } else {
        assert(items_of(workspaces).len() == 0);
    }
}

/// Every item of the list selects the very path that it shows in its tooltip; none of them adds a
/// repository or toggles the list.
pub proof fn law_items_only_select(
    workspaces: Seq<Workspace>,
    default_value: Option<Repo>,
    i: int,
)
    requires
        0 <= i < items_with_default(workspaces, default_value).len(),
    ensures
        ({
            let item = items_with_default(workspaces, default_value)[i];
            item.action == RepoPickerAction::Select(item.tooltip)
        }),
{
}

/// What an item shows does not matter for what it selects: repositories that look alike in the
/// list are told apart by their paths.
pub proof fn law_paths_tell_items_apart(repo: Repo, other: Repo, path: Seq<char>)
    ensures
        selects(item_of(repo), path) <==> repo.path@ == path,
        selects(item_of(repo), path) && selects(item_of(other), path) ==> repo.path@ == other.path@,
{
}

/// An item selects a path exactly when its action is to select that path, and a list holds a path
/// exactly when one of its items selects it.
pub proof fn law_selecting(item: DropdownItem, items: Seq<DropdownItem>, path: Seq<char>)
    ensures
        selects(item, path) ==> item.action is Select && item.action->Select_0@ == path,
        item.action is Select && item.action->Select_0@ == path ==> selects(item, path),
        lists(items.push(item), path) <==> lists(items, path) || selects(item, path),
        !lists(Seq::<DropdownItem>::empty(), path),
{
    let all = items.push(item);
    if lists(items, path) {
        let k = choose|k: int| 0 <= k < items.len() && selects(#[trigger] items[k], path);
        assert(selects(all[k], path));
    }
    if selects(item, path) {
        assert(selects(all[items.len() as int], path));
    }
    if lists(all, path) {
        let k = choose|k: int| 0 <= k < all.len() && selects(#[trigger] all[k], path);
        if k < items.len() {
            assert(selects(items[k], path));
        }
    }
}

/// The default value is listed, known or not; the known repositories come first, and a default
/// value that is among them adds nothing.
pub proof fn law_default_is_listed(workspaces: Seq<Workspace>, repo: Repo)
    ensures
        lists(items_with_default(workspaces, Some(repo)), repo.path@),
        items_of(workspaces).is_prefix_of(items_with_default(workspaces, Some(repo))),
        lists(items_of(workspaces), repo.path@) ==> items_with_default(workspaces, Some(repo))
            == items_of(workspaces),
        items_with_default(workspaces, None) == items_of(workspaces),
{
    let items = items_with_default(workspaces, Some(repo));
    if !lists(items_of(workspaces), repo.path@) {
        assert(selects(items[items.len() - 1], repo.path@));
    }
}

/// A refresh that asks for a path selects it, one that asks for none keeps the selection, and
/// once something is selected a refresh never leaves nothing selected.
pub proof fn law_refresh_keeps_selection(
    selected: Option<Seq<char>>,
    asked: Option<Seq<char>>,
    path: Seq<char>,
)
    ensures
        selection_after(selected, Some(path)) == Some(path),
        selection_after(selected, None) == selected,
        selected is Some ==> selection_after(selected, asked) is Some,
        selection_after(selection_after(selected, asked), None) == selection_after(selected, asked),
        selection_after(selection_after(selected, asked), asked) == selection_after(
            selected,
            asked,
        ),
{
}

} // verus!
