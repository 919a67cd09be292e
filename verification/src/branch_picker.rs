//! The keymap context of the branch picker of a tab configuration.

use vstd::prelude::*;

use crate::keymap::picker_context;
use crate::keymap::picker_flags;
use crate::keymap::KeymapContext;

verus! {

/// Advertised by the branch picker only while its list is closed.
pub const BRANCH_PICKER_COLLAPSED: &'static str = "BranchPickerCollapsed";

/// The keymap context of the branch picker.
pub fn build_keymap_context(default_context: KeymapContext, is_expanded: bool) -> (r: KeymapContext)
    ensures
        r@ == picker_flags(default_context@, BRANCH_PICKER_COLLAPSED@, is_expanded),
{
    picker_context(default_context, BRANCH_PICKER_COLLAPSED, is_expanded)
}

} // verus!
