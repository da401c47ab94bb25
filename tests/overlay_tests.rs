use popup_story::anchor::{resolve, submenu_placement, AnchorCorner, Placement};
use popup_story::geometry::{Point, Rect, Size};
use popup_story::overlay::{ContentProvider, MouseButton, OverlayConfig, OverlayManager, OverlayState};
use popup_story::story::Form;

fn trigger() -> Rect {
    Rect { x: 100, y: 200, width: 80, height: 30 }
}

fn surface() -> Size {
    Size { width: 50, height: 40 }
}

#[test]
fn corners_meet_trigger_corners() {
    let at = |c| resolve(Some(trigger()), c, surface(), false);
    assert_eq!(at(AnchorCorner::TopLeft), Placement::At(Point { x: 100, y: 200 }));
    assert_eq!(at(AnchorCorner::TopRight), Placement::At(Point { x: 130, y: 200 }));
    assert_eq!(at(AnchorCorner::BottomLeft), Placement::At(Point { x: 100, y: 190 }));
    assert_eq!(at(AnchorCorner::BottomRight), Placement::At(Point { x: 130, y: 190 }));
}

#[test]
fn unresolved_trigger_falls_back_to_origin() {
    let origin = Placement::At(Point { x: 0, y: 0 });
    assert_eq!(resolve(None, AnchorCorner::BottomRight, surface(), false), origin);
    let empty = Rect { x: 10, y: 10, width: 0, height: 30 };
    assert_eq!(resolve(Some(empty), AnchorCorner::TopRight, surface(), false), origin);
}

#[test]
fn window_embedded_is_docked() {
    assert_eq!(resolve(Some(trigger()), AnchorCorner::TopRight, surface(), true), Placement::Docked);
}

#[test]
fn submenu_opens_right_of_row() {
    assert_eq!(submenu_placement(trigger()), Placement::At(Point { x: 180, y: 200 }));
}

fn config(button: MouseButton, corner: AnchorCorner) -> OverlayConfig {
    OverlayConfig { corner, button, window_embedded: false }
}

#[test]
fn left_click_does_not_open_right_button_overlay() {
    let mut m = OverlayManager::new();
    let id = m.add(config(MouseButton::Right, AnchorCorner::BottomRight), 1, ContentProvider::Builder(1), None)
        .unwrap();
    let taken = m.click_trigger(id, MouseButton::Left, Point { x: 5, y: 6 }, Some(trigger()), surface());
    assert!(!taken);
    assert!(!m.is_open(id));
    assert_eq!(m.get(id).unwrap().state, OverlayState::Closed);
    assert!(m.click_trigger(id, MouseButton::Right, Point { x: 5, y: 6 }, Some(trigger()), surface()));
    assert!(m.is_open(id));
    assert_eq!(m.get(id).unwrap().placement, Some(Placement::At(Point { x: 5, y: 6 })));
}

#[test]
fn left_click_opens_at_anchor_corner() {
    let mut m = OverlayManager::new();
    let id = m.add(config(MouseButton::Left, AnchorCorner::TopRight), 1, ContentProvider::Builder(1), None)
        .unwrap();
    assert!(m.click_trigger(id, MouseButton::Left, Point { x: 5, y: 6 }, Some(trigger()), surface()));
    assert_eq!(m.get(id).unwrap().placement, Some(Placement::At(Point { x: 130, y: 200 })));
}

#[test]
fn opening_top_level_closes_sibling() {
    let mut m = OverlayManager::new();
    let a = m.add(OverlayConfig::new(), 1, ContentProvider::Builder(1), None).unwrap();
    let b = m.add(OverlayConfig::new(), 2, ContentProvider::Builder(2), None).unwrap();
    m.open(a, Some(trigger()), surface());
    assert!(m.is_open(a));
    m.open(b, Some(trigger()), surface());
    assert!(!m.is_open(a));
    assert!(m.is_open(b));
    assert_eq!(m.get(a).unwrap().placement, None);
}

#[test]
fn closing_parent_closes_nested_submenus() {
    let mut m = OverlayManager::new();
    let root = m.add(OverlayConfig::new(), 1, ContentProvider::Builder(1), None).unwrap();
    let sub = m.add(OverlayConfig::new(), 2, ContentProvider::Builder(2), Some(root)).unwrap();
    let subsub = m.add(OverlayConfig::new(), 3, ContentProvider::Builder(3), Some(sub)).unwrap();
    let other = m.add(OverlayConfig::new(), 4, ContentProvider::Builder(4), Some(root)).unwrap();
    m.open(root, Some(trigger()), surface());
    m.open(sub, Some(trigger()), surface());
    m.open(subsub, Some(trigger()), surface());
    m.open(other, Some(trigger()), surface());
    assert!(m.is_open(subsub) && m.is_open(other));
    m.close(sub);
    assert!(m.is_open(root) && m.is_open(other));
    assert!(!m.is_open(sub) && !m.is_open(subsub));
    m.open(sub, Some(trigger()), surface());
    m.open(subsub, Some(trigger()), surface());
    m.close(root);
    for id in [root, sub, subsub, other] {
        assert!(!m.is_open(id));
    }
}

#[test]
fn submenu_needs_open_parent() {
    let mut m = OverlayManager::new();
    let root = m.add(OverlayConfig::new(), 1, ContentProvider::Builder(1), None).unwrap();
    let sub = m.add(OverlayConfig::new(), 2, ContentProvider::Builder(2), Some(root)).unwrap();
    m.open(sub, Some(trigger()), surface());
    assert!(!m.is_open(sub));
    assert_eq!(m.add(OverlayConfig::new(), 3, ContentProvider::Builder(3), Some(9)), None);
    assert_eq!(m.len(), 2);
}

#[test]
fn click_outside_closes_floating_but_not_embedded() {
    let mut m = OverlayManager::new();
    let floating = m.add(OverlayConfig::new(), 1, ContentProvider::Builder(1), None).unwrap();
    let docked_config = OverlayConfig { window_embedded: true, ..OverlayConfig::new() };
    let docked = m.add(docked_config, 2, ContentProvider::Builder(2), None).unwrap();
    m.open(floating, Some(trigger()), surface());
    assert!(m.click_outside(floating, None));
    assert!(!m.is_open(floating));
    m.open(docked, Some(trigger()), surface());
    assert_eq!(m.get(docked).unwrap().placement, Some(Placement::Docked));
    assert!(!m.click_outside(docked, None));
    assert!(m.is_open(docked));
}

#[test]
fn click_inside_submenu_is_not_outside() {
    let mut m = OverlayManager::new();
    let root = m.add(OverlayConfig::new(), 1, ContentProvider::Builder(1), None).unwrap();
    let sub = m.add(OverlayConfig::new(), 2, ContentProvider::Builder(2), Some(root)).unwrap();
    m.open(root, Some(trigger()), surface());
    m.open(sub, Some(trigger()), surface());
    assert!(!m.click_outside(root, Some(sub)));
    assert!(!m.click_outside(root, Some(root)));
    assert!(m.is_open(root) && m.is_open(sub));
    assert!(m.click_outside(sub, Some(root)));
    assert!(m.is_open(root) && !m.is_open(sub));
    m.open(sub, Some(trigger()), surface());
    assert!(m.click_outside(root, Some(42)));
    assert!(!m.is_open(root) && !m.is_open(sub));
}

#[test]
fn reopened_form_keeps_typed_text() {
    let mut form = Form::new();
    let mut m = OverlayManager::new();
    let id = m.add(config(MouseButton::Left, AnchorCorner::BottomLeft), 1, ContentProvider::View(77), None)
        .unwrap();
    m.open(id, Some(trigger()), surface());
    form.type_text("hello");
    m.close(id);
    assert!(!m.is_open(id));
    m.open(id, Some(trigger()), surface());
    assert!(m.is_open(id));
    assert_eq!(m.get(id).unwrap().content, ContentProvider::View(77));
    assert_eq!(form.input, "hello");
    form.type_text(" world");
    assert_eq!(form.input, "hello world");
}
