use agent_orchestration::branch_picker::build_keymap_context;
use agent_orchestration::branch_picker::BRANCH_PICKER_COLLAPSED;
use agent_orchestration::keymap::FixedBinding;
use agent_orchestration::keymap::KeymapContext;

/// The flags that the branch picker has like every view: its own name.
fn default_context() -> KeymapContext {
    let mut context = KeymapContext::new();
    context.insert("BranchPicker");
    context
}

#[test]
fn keymap_context_advertises_collapsed_flag_when_closed() {
    // A closed, focused picker must expose the flag so its Space binding
    // fires and opens the dropdown.
    let context = build_keymap_context(default_context(), false);
    assert!(
        context.contains(BRANCH_PICKER_COLLAPSED),
        "collapsed picker must expose {BRANCH_PICKER_COLLAPSED}; got {:?}",
        context,
    );
}

#[test]
fn keymap_context_omits_collapsed_flag_when_expanded() {
    // While expanded, the dropdown's filter editor is focused; the picker
    // must NOT expose the flag, or Space would be stolen from the editor
    // instead of typing a literal space into the filter query.
    let context = build_keymap_context(default_context(), true);
    assert!(
        !context.contains(BRANCH_PICKER_COLLAPSED),
        "expanded picker must not expose {BRANCH_PICKER_COLLAPSED}; got {:?}",
        context,
    );
}

#[test]
fn space_binding_predicate_matches_only_collapsed_picker() {
    // The Space fixed binding is scoped to the collapsed flag: it must match a
    // collapsed picker's context and miss an expanded one.
    let binding = FixedBinding {
        keystroke: "space".to_string(),
        action: (),
        flag: BRANCH_PICKER_COLLAPSED.to_string(),
    };
    assert!(
        binding.applies_in(&build_keymap_context(default_context(), false)),
        "Space must toggle a focused, collapsed picker",
    );
    assert!(
        !binding.applies_in(&build_keymap_context(default_context(), true)),
        "Space must not fire while the picker's filter editor is focused",
    );
}

#[test]
fn default_flags_are_kept_in_both_states() {
    assert!(build_keymap_context(default_context(), false).contains("BranchPicker"));
    assert!(build_keymap_context(default_context(), true).contains("BranchPicker"));
}

#[test]
fn contexts_hold_each_flag_once_inserted() {
    let mut context = KeymapContext::new();
    assert!(!context.contains("a"));
    context.insert("a");
    context.insert("a");
    context.insert("b");
    assert!(context.contains("a"));
    assert!(context.contains("b"));
    assert!(!context.contains("c"));
    assert!(!context.contains(""));
}
