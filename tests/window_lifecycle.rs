use sticky_notes::config::{native_window, NativeWindow, Placement, WindowConfig, WindowPlan};
use sticky_notes::geometry::{child_position, resolve_max_size, Frame, MaxSize, Point, Size};
use sticky_notes::label::{LabelKind, WindowLabel};
use sticky_notes::manager::WindowManager;

fn built(plan: WindowPlan) -> NativeWindow {
    match plan {
        WindowPlan::Build(w) => w,
        WindowPlan::FocusExisting(l) => panic!("expected a window to build, got focus on {:?}", l),
    }
}

fn open_main(m: &mut WindowManager) -> WindowLabel {
    let w = built(m.create_main_window("/".to_string(), None, None));
    assert!(m.register(w.label.clone(), None));
    w.label
}

fn open_child(m: &mut WindowManager, parent: &WindowLabel, name: &str) -> WindowLabel {
    let frame = Frame { x: 0, y: 0, width: 400, height: 700 };
    let w = built(m.create_child_window(
        frame,
        "/child".to_string(),
        name.to_string(),
        "Child".to_string(),
        Size { width: 200, height: 200 },
    ));
    assert!(m.register(w.label.clone(), Some(parent.clone())));
    w.label
}

fn config(label: WindowLabel) -> WindowConfig {
    WindowConfig {
        label,
        url: "/".to_string(),
        title: "T".to_string(),
        inner_size: None,
        position: None,
        hide_titlebar: false,
        always_on_top: false,
        max_size: None,
        notify_navigation: true,
        notify_close: false,
    }
}

#[test]
fn primary_labels_are_numbered_in_order() {
    let mut m = WindowManager::new();
    assert_eq!(open_main(&mut m), WindowLabel::Primary(0));
    assert_eq!(open_main(&mut m), WindowLabel::Primary(1));
    assert_eq!(open_main(&mut m), WindowLabel::Primary(2));
    assert_eq!(m.count(), 3);
}

#[test]
fn primary_label_gap_is_filled_first() {
    let mut m = WindowManager::new();
    open_main(&mut m);
    open_main(&mut m);
    open_main(&mut m);
    assert_eq!(m.on_destroyed(&WindowLabel::Primary(1)), None);
    assert_eq!(m.allocate_primary(), WindowLabel::Primary(1));
    assert_eq!(open_main(&mut m), WindowLabel::Primary(1));
    assert_eq!(m.allocate_primary(), WindowLabel::Primary(3));
}

#[test]
fn secondary_windows_do_not_take_primary_numbers() {
    let mut m = WindowManager::new();
    let a = open_main(&mut m);
    open_child(&mut m, &a, "settings");
    assert_eq!(m.allocate_primary(), WindowLabel::Primary(1));
}

#[test]
fn duplicate_creation_focuses_existing() {
    let mut m = WindowManager::new();
    let a = open_main(&mut m);
    match m.plan_window(config(WindowLabel::Primary(0))) {
        WindowPlan::FocusExisting(l) => assert_eq!(l, a),
        WindowPlan::Build(_) => panic!("a second window was planned"),
    }
    assert!(!m.register(WindowLabel::Primary(0), None));
    assert_eq!(m.count(), 1);
}

#[test]
fn duplicate_child_focuses_existing() {
    let mut m = WindowManager::new();
    let a = open_main(&mut m);
    open_child(&mut m, &a, "about");
    let frame = Frame { x: 0, y: 0, width: 10, height: 10 };
    let plan = m.create_child_window(
        frame,
        "/".to_string(),
        "about".to_string(),
        "About".to_string(),
        Size { width: 1, height: 1 },
    );
    assert!(matches!(plan, WindowPlan::FocusExisting(WindowLabel::Secondary(ref n)) if n == "about"));
}

#[test]
fn closing_lone_home_window_saves_once() {
    let mut m = WindowManager::new();
    open_main(&mut m);
    let r = m.on_close_requested(&WindowLabel::Primary(0));
    assert!(r.save_geometry);
    assert!(r.close_children.is_empty());
}

#[test]
fn closing_home_window_with_others_open_does_not_save() {
    let mut m = WindowManager::new();
    open_main(&mut m);
    open_main(&mut m);
    assert_eq!(m.count(), 2);
    assert!(!m.on_close_requested(&WindowLabel::Primary(0)).save_geometry);
    assert!(!m.on_close_requested(&WindowLabel::Primary(1)).save_geometry);
}

#[test]
fn closing_other_primary_alone_does_not_save() {
    let mut m = WindowManager::new();
    open_main(&mut m);
    open_main(&mut m);
    m.on_destroyed(&WindowLabel::Primary(0));
    assert_eq!(m.count(), 1);
    assert!(!m.on_close_requested(&WindowLabel::Primary(1)).save_geometry);
}

#[test]
fn closing_secondary_window_never_saves() {
    let mut m = WindowManager::new();
    let s = WindowLabel::Secondary("only".to_string());
    assert!(m.register(s.clone(), None));
    assert_eq!(m.count(), 1);
    assert!(!m.on_close_requested(&s).save_geometry);
}

#[test]
fn destroyed_child_focuses_open_parent() {
    let mut m = WindowManager::new();
    let a = open_main(&mut m);
    let b = open_child(&mut m, &a, "b");
    assert_eq!(m.on_destroyed(&b), Some(a));
    assert_eq!(m.count(), 1);
}

#[test]
fn destroyed_child_of_gone_parent_focuses_nothing() {
    let mut m = WindowManager::new();
    let a = open_main(&mut m);
    let b = open_child(&mut m, &a, "b");
    assert_eq!(m.on_destroyed(&a), None);
    assert!(m.contains(&b));
    assert_eq!(m.on_destroyed(&b), None);
    assert_eq!(m.count(), 0);
}

#[test]
fn parent_close_cascades_to_children() {
    let mut m = WindowManager::new();
    let a = open_main(&mut m);
    let b = open_child(&mut m, &a, "b");
    let c = open_child(&mut m, &a, "c");
    let r = m.on_close_requested(&a);
    assert_eq!(r.close_children, vec![b.clone(), c.clone()]);
    for child in r.close_children.iter() {
        m.on_destroyed(child);
    }
    m.on_destroyed(&a);
    assert!(!m.contains(&b));
    assert!(!m.contains(&c));
    assert_eq!(m.count(), 0);
}

#[test]
fn parent_focus_brings_children_along() {
    let mut m = WindowManager::new();
    let a = open_main(&mut m);
    let b = open_child(&mut m, &a, "b");
    assert_eq!(m.on_focused(&a, true), vec![b.clone()]);
    assert!(m.on_focused(&a, false).is_empty());
    assert!(m.on_focused(&b, true).is_empty());
}

#[test]
fn ready_opens_home_window_once() {
    let mut m = WindowManager::new();
    assert!(!m.ready_handled());
    let w = match m.on_ready() {
        Some(plan) => built(plan),
        None => panic!("the first ready event opens a window"),
    };
    assert_eq!(w.label, WindowLabel::Primary(0));
    assert_eq!(w.url, "/");
    assert_eq!(w.title, "Sticky Notes");
    assert_eq!(w.size, Size { width: 400, height: 700 });
    assert_eq!(w.placement, Placement::At(Point { x: 100, y: 100 }));
    assert_eq!(w.max_size, Some(MaxSize { width: Some(700), height: None }));
    assert!(w.hide_titlebar && w.always_on_top);
    assert!(m.register(w.label.clone(), None));
    assert!(m.ready_handled());
    assert!(m.on_ready().is_none());
    assert_eq!(m.count(), 1);
}

#[test]
fn main_window_takes_requested_size_and_position() {
    let m = WindowManager::new();
    let w = built(m.create_main_window(
        "/n".to_string(),
        Some(Size { width: 500, height: 600 }),
        Some(Point { x: -20, y: 35 }),
    ));
    assert_eq!(w.size, Size { width: 500, height: 600 });
    assert_eq!(w.placement, Placement::At(Point { x: -20, y: 35 }));
    assert_eq!(w.min_size, Size { width: 400, height: 400 });
}

#[test]
fn end_to_end_child_centering_and_reuse_of_home_label() {
    let mut m = WindowManager::new();
    let a = open_main(&mut m);
    assert_eq!(a, WindowLabel::Primary(0));
    let parent = Frame { x: 100, y: 50, width: 400, height: 700 };
    let w = built(m.create_child_window(
        parent,
        "/settings".to_string(),
        "settings".to_string(),
        "Settings".to_string(),
        Size { width: 300, height: 200 },
    ));
    assert_eq!(w.placement, Placement::At(Point { x: 100 + 200 - 150, y: 50 + 350 - 100 }));
    assert_eq!(w.label, WindowLabel::Secondary("settings".to_string()));
    assert!(w.hide_titlebar && !w.always_on_top);
    let b = w.label.clone();
    assert!(m.register(w.label, Some(a.clone())));
    let r = m.on_close_requested(&a);
    assert_eq!(r.close_children, vec![b.clone()]);
    assert!(r.save_geometry == false);
    for child in r.close_children.iter() {
        assert_eq!(m.on_destroyed(child), Some(a.clone()));
    }
    m.on_destroyed(&a);
    assert!(!m.contains(&b));
    assert_eq!(open_main(&mut m), WindowLabel::Primary(0));
}

#[test]
fn contains_kind_tells_families_apart() {
    let mut m = WindowManager::new();
    assert!(!m.contains_kind(LabelKind::Primary));
    let a = open_main(&mut m);
    assert!(m.contains_kind(LabelKind::Primary));
    assert!(!m.contains_kind(LabelKind::Secondary));
    open_child(&mut m, &a, "x");
    assert!(m.contains_kind(LabelKind::Secondary));
}

#[test]
fn child_position_is_parent_centre_minus_half_size() {
    let p = child_position(Frame { x: 10, y: 20, width: 400, height: 700 }, Size { width: 100, height: 50 });
    assert_eq!(p, Point { x: 160, y: 345 });
    let q = child_position(Frame { x: 0, y: 0, width: 100, height: 100 }, Size { width: 300, height: 301 });
    assert_eq!(q, Point { x: -100, y: -100 });
}

#[test]
fn max_size_bounds_are_resolved() {
    assert_eq!(resolve_max_size(None), None);
    assert_eq!(resolve_max_size(Some(MaxSize { width: None, height: None })), None);
    let w = MaxSize { width: Some(700), height: None };
    assert_eq!(resolve_max_size(Some(w)), Some(w));
    let h = MaxSize { width: None, height: Some(300) };
    assert_eq!(resolve_max_size(Some(h)), Some(h));
}

#[test]
fn request_defaults_are_filled_in() {
    let w = native_window(config(WindowLabel::Secondary("n".to_string())));
    assert_eq!(w.size, Size { width: 600, height: 600 });
    assert_eq!(w.placement, Placement::Centered);
    assert_eq!(w.max_size, None);
    assert!(w.resizable && !w.fullscreen);
    assert!(w.notify_navigation && !w.notify_close);
}

#[test]
fn labels_render_with_their_prefix() {
    assert_eq!(WindowLabel::Primary(0).text(), "main_0");
    assert_eq!(WindowLabel::Primary(42).text(), "main_42");
    assert_eq!(WindowLabel::Primary(1907).text(), "main_1907");
    assert_eq!(WindowLabel::Primary(u64::MAX).text(), format!("main_{}", u64::MAX));
    assert_eq!(WindowLabel::Secondary("settings".to_string()).text(), "other_settings");
    assert_eq!(WindowLabel::Secondary(String::new()).text(), "other_");
}

#[test]
fn open_windows_are_found_by_text() {
    let mut m = WindowManager::new();
    let a = open_main(&mut m);
    let b = open_child(&mut m, &a, "notes");
    assert_eq!(m.find_by_text("main_0"), Some(a));
    assert_eq!(m.find_by_text("other_notes"), Some(b));
    assert_eq!(m.find_by_text("main_1"), None);
    assert_eq!(m.find_by_text("notes"), None);
    assert_eq!(m.find_by_text(""), None);
}

#[test]
fn label_kinds_and_home_label() {
    assert!(WindowLabel::Primary(0).is_first_primary());
    assert!(!WindowLabel::Primary(1).is_first_primary());
    assert!(!WindowLabel::Secondary("0".to_string()).is_first_primary());
    assert_eq!(WindowLabel::Secondary("a".to_string()).kind(), LabelKind::Secondary);
    assert!(WindowLabel::Secondary("a".to_string()).is_secondary());
    assert!(!WindowLabel::Primary(3).is_secondary());
    assert_ne!(WindowLabel::Primary(3), WindowLabel::Primary(4));
}
