use popup_story::anchor::{AnchorCorner, Placement};
use popup_story::geometry::{Point, Rect, Size};
use popup_story::overlay::{ContentProvider, MouseButton};
use popup_story::story::{
    PopupStory, BOTTOM_RIGHT_POPOVER, CONTEXT_MENU, FORM_POPOVER, FORM_VIEW, POPUP_MENU,
    SETTINGS_MENU, TOP_LEFT_POPOVER, TOP_RIGHT_POPOVER,
};

fn button() -> Option<Rect> {
    Some(Rect { x: 20, y: 300, width: 300, height: 40 })
}

fn size() -> Size {
    Size { width: 200, height: 120 }
}

#[test]
fn fresh_screen_declares_closed_overlays() {
    let story = PopupStory::view(3);
    assert_eq!(story.overlays.len(), 7);
    for id in 0..7 {
        assert!(!story.overlays.is_open(id));
    }
    let form = story.overlays.get(FORM_POPOVER).unwrap();
    assert_eq!(form.content, ContentProvider::View(FORM_VIEW));
    assert_eq!(form.config.corner, AnchorCorner::BottomLeft);
    let right = story.overlays.get(BOTTOM_RIGHT_POPOVER).unwrap();
    assert_eq!(right.config.button, MouseButton::Right);
    assert_eq!(story.overlays.get(SETTINGS_MENU).unwrap().parent, Some(CONTEXT_MENU));
}

#[test]
fn left_click_on_right_button_popover_keeps_it_closed() {
    let mut story = PopupStory::view(3);
    let p = Point { x: 40, y: 310 };
    assert!(!story.overlays.click_trigger(BOTTOM_RIGHT_POPOVER, MouseButton::Left, p, button(), size()));
    assert!(!story.overlays.is_open(BOTTOM_RIGHT_POPOVER));
    assert!(story.overlays.click_trigger(BOTTOM_RIGHT_POPOVER, MouseButton::Right, p, button(), size()));
    assert_eq!(
        story.overlays.get(BOTTOM_RIGHT_POPOVER).unwrap().placement,
        Some(Placement::At(Point { x: 40, y: 310 }))
    );
}

#[test]
fn opening_second_popover_closes_first() {
    let mut story = PopupStory::view(3);
    let p = Point { x: 0, y: 0 };
    story.overlays.click_trigger(TOP_LEFT_POPOVER, MouseButton::Left, p, button(), size());
    assert!(story.overlays.is_open(TOP_LEFT_POPOVER));
    story.overlays.click_trigger(TOP_RIGHT_POPOVER, MouseButton::Left, p, button(), size());
    assert!(!story.overlays.is_open(TOP_LEFT_POPOVER));
    assert!(story.overlays.is_open(TOP_RIGHT_POPOVER));
    assert_eq!(
        story.overlays.get(TOP_RIGHT_POPOVER).unwrap().placement,
        Some(Placement::At(Point { x: 120, y: 300 }))
    );
}

#[test]
fn form_text_survives_submit_and_reopen() {
    let mut story = PopupStory::view(3);
    let p = Point { x: 0, y: 0 };
    story.overlays.click_trigger(FORM_POPOVER, MouseButton::Left, p, button(), size());
    assert_eq!(
        story.overlays.get(FORM_POPOVER).unwrap().placement,
        Some(Placement::At(Point { x: 20, y: 220 }))
    );
    story.form.type_text("draft");
    story.submit_form();
    assert!(!story.overlays.is_open(FORM_POPOVER));
    story.overlays.click_trigger(FORM_POPOVER, MouseButton::Left, p, button(), size());
    assert!(story.overlays.is_open(FORM_POPOVER));
    assert_eq!(story.form.input, "draft");
    assert_eq!(story.overlays.get(FORM_POPOVER).unwrap().content, ContentProvider::View(FORM_VIEW));
}

#[test]
fn window_mode_docks_popovers_only() {
    let mut story = PopupStory::view(3);
    story.set_window_mode(true);
    for id in [TOP_LEFT_POPOVER, TOP_RIGHT_POPOVER, FORM_POPOVER, BOTTOM_RIGHT_POPOVER] {
        assert!(story.overlays.get(id).unwrap().config.window_embedded);
    }
    for id in [CONTEXT_MENU, SETTINGS_MENU, POPUP_MENU] {
        assert!(!story.overlays.get(id).unwrap().config.window_embedded);
    }
    let p = Point { x: 0, y: 0 };
    story.overlays.click_trigger(TOP_LEFT_POPOVER, MouseButton::Left, p, button(), size());
    assert_eq!(story.overlays.get(TOP_LEFT_POPOVER).unwrap().placement, Some(Placement::Docked));
    assert!(!story.overlays.click_outside(TOP_LEFT_POPOVER, None));
    story.on_toggle_window_mode();
    assert!(!story.window_mode);
    assert!(!story.overlays.get(TOP_LEFT_POPOVER).unwrap().config.window_embedded);
    assert!(story.overlays.is_open(TOP_LEFT_POPOVER));
}

#[test]
fn closing_context_menu_closes_settings() {
    let mut story = PopupStory::view(3);
    let p = Point { x: 55, y: 66 };
    assert!(story.overlays.click_trigger(CONTEXT_MENU, MouseButton::Right, p, None, size()));
    assert_eq!(
        story.overlays.get(CONTEXT_MENU).unwrap().placement,
        Some(Placement::At(Point { x: 55, y: 66 }))
    );
    story.overlays.open_submenu(SETTINGS_MENU, Rect { x: 55, y: 90, width: 150, height: 24 });
    assert!(story.overlays.is_open(SETTINGS_MENU));
    assert_eq!(
        story.overlays.get(SETTINGS_MENU).unwrap().placement,
        Some(Placement::At(Point { x: 205, y: 90 }))
    );
    story.overlays.close(CONTEXT_MENU);
    assert!(!story.overlays.is_open(SETTINGS_MENU));
    assert!(!story.overlays.is_open(CONTEXT_MENU));
}
