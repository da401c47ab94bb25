use popup_story::keymap::Action;
use popup_story::menu::{IconName, MenuActivation, MenuNode, MenuTree};
use popup_story::story::{PopupStory, StoryAction};

fn three_items_one_separator() -> MenuTree {
    MenuTree::new()
        .menu("One", Action { id: 1 })
        .menu("Two", Action { id: 2 })
        .separator()
        .menu("Three", Action { id: 3 })
}

#[test]
fn navigating_down_wraps_and_skips_separator() {
    let menu = three_items_one_separator();
    let mut sel = None;
    let mut seen = Vec::new();
    for _ in 0..4 {
        sel = menu.select_next(sel);
        seen.push(sel.unwrap());
    }
    assert_eq!(seen, vec![0, 1, 3, 0]);
}

#[test]
fn navigating_down_with_trailing_separator() {
    let menu = MenuTree::new()
        .menu("One", Action { id: 1 })
        .menu("Two", Action { id: 2 })
        .menu("Three", Action { id: 3 })
        .separator();
    let mut sel = None;
    let mut seen = Vec::new();
    for _ in 0..4 {
        sel = menu.select_next(sel);
        seen.push(sel.unwrap());
    }
    assert_eq!(seen, vec![0, 1, 2, 0]);
}

#[test]
fn navigating_up_wraps_and_skips_separator() {
    let menu = three_items_one_separator();
    let mut sel = None;
    let mut seen = Vec::new();
    for _ in 0..4 {
        sel = menu.select_prev(sel);
        seen.push(sel.unwrap());
    }
    assert_eq!(seen, vec![3, 1, 0, 3]);
}

#[test]
fn nothing_selectable_in_empty_or_separator_menu() {
    assert_eq!(MenuTree::new().select_next(None), None);
    let seps = MenuTree::new().separator().separator();
    assert_eq!(seps.select_next(Some(0)), None);
    assert_eq!(seps.select_prev(None), None);
}

#[test]
fn activation_follows_entry_kind() {
    let story = PopupStory::view(1);
    let menu = story.context_menu();
    assert_eq!(menu.activate(0), MenuActivation::Fire(StoryAction::Cut.action()));
    assert_eq!(menu.activate(3), MenuActivation::Nothing);
    assert_eq!(menu.activate(4), MenuActivation::OpenSubmenu(4));
    assert_eq!(menu.activate(7), MenuActivation::Nothing);
    let popup = story.popup_menu();
    assert_eq!(popup.activate(6), MenuActivation::Fire(StoryAction::ToggleWindowMode.action()));
    assert_eq!(popup.activate(8), MenuActivation::OpenLink(8));
}

#[test]
fn context_menu_holds_settings_submenu() {
    let menu = PopupStory::view(1).context_menu();
    assert_eq!(menu.items.len(), 7);
    match &menu.items[4] {
        MenuNode::Submenu { label, children } => {
            assert_eq!(label, "Settings");
            assert_eq!(children.items.len(), 3);
            assert_eq!(children.select_next(Some(0)), Some(2));
        }
        _ => panic!("expected a submenu"),
    }
}

#[test]
fn popup_menu_check_reflects_window_mode() {
    let mut story = PopupStory::view(1);
    story.on_toggle_window_mode();
    let menu = story.popup_menu();
    match &menu.items[6] {
        MenuNode::Checkable { label, checked, .. } => {
            assert_eq!(label, "Window Mode");
            assert!(*checked);
        }
        _ => panic!("expected a check entry"),
    }
    match &menu.items[4] {
        MenuNode::Item { icon, .. } => assert_eq!(*icon, Some(IconName::Search)),
        _ => panic!("expected an item"),
    }
    assert!(story.window_mode);
}
