use taffy::{
    AlignItems, AvailableSpace, Dimension, FlexDirection, JustifyContent, LengthPercentage, Rect,
    Size, Style,
};
use yoga_wasm::tree::LayoutTree;

fn space(w: f32, h: f32) -> Size<AvailableSpace> {
    Size { width: AvailableSpace::Definite(w), height: AvailableSpace::Definite(h) }
}

#[test]
fn fresh_node_has_no_children_and_zero_layout() {
    let mut t = LayoutTree::new();
    let n = t.new_node();
    assert!(t.contains(n));
    assert_eq!(t.child_count(n), 0);
    let l = t.layout(n).unwrap();
    assert_eq!(l.location.x, 0.0);
    assert_eq!(l.location.y, 0.0);
    assert_eq!(l.size.width, 0.0);
    assert_eq!(l.size.height, 0.0);
}

#[test]
fn unknown_node_is_neutral() {
    let mut t = LayoutTree::new();
    let n = t.new_node();
    let other = n.wrapping_add(12345);
    assert!(!t.contains(other));
    assert_eq!(t.child_count(other), 0);
    assert!(t.layout(other).is_none());
    assert!(!t.insert_child(n, other));
    assert!(!t.remove_child(other, n));
}

#[test]
fn child_count_tracks_inserts_and_removes() {
    let mut t = LayoutTree::new();
    let p = t.new_node();
    let a = t.new_node();
    let b = t.new_node();
    let c = t.new_node();
    assert!(t.insert_child(p, a));
    assert!(t.insert_child(p, b));
    assert!(t.insert_child(p, c));
    assert_eq!(t.child_count(p), 3);
    assert!(t.remove_child(p, b));
    assert_eq!(t.child_count(p), 2);
    assert!(!t.remove_child(p, b));
    assert_eq!(t.child_count(p), 2);
    assert!(t.insert_child(p, b));
    assert_eq!(t.child_count(p), 3);
    assert_eq!(t.child_count(a), 0);
}

#[test]
fn insert_refuses_cycles_and_second_parents() {
    let mut t = LayoutTree::new();
    let p = t.new_node();
    let a = t.new_node();
    let b = t.new_node();
    assert!(!t.insert_child(p, p));
    assert!(t.insert_child(p, a));
    assert!(!t.insert_child(b, a));
    assert!(!t.insert_child(a, p));
    assert!(t.insert_child(a, b));
    assert!(!t.insert_child(b, p));
    assert_eq!(t.child_count(p), 1);
    assert_eq!(t.child_count(a), 1);
    assert_eq!(t.child_count(b), 0);
    assert!(t.remove_child(p, a));
    assert!(t.insert_child(b, p));
    assert_eq!(t.child_count(b), 1);
}

#[test]
fn removed_child_can_be_reattached() {
    let mut t = LayoutTree::new();
    let p = t.new_node();
    let q = t.new_node();
    let a = t.new_node();
    assert!(t.insert_child(p, a));
    assert!(!t.remove_child(q, a));
    assert!(t.remove_child(p, a));
    assert!(t.insert_child(q, a));
    assert_eq!(t.child_count(p), 0);
    assert_eq!(t.child_count(q), 1);
}

#[test]
fn sized_leaf_keeps_its_size() {
    let mut t = LayoutTree::new();
    let n = t.new_node();
    t.set_style(
        n,
        Style {
            size: Size { width: Dimension::Length(120.0), height: Dimension::Length(80.0) },
            ..Style::default()
        },
    );
    assert_eq!(t.child_count(n), 0);
    t.compute_layout(n, space(120.0, 80.0));
    let l = t.layout(n).unwrap();
    assert_eq!(l.size.width, 120.0);
    assert_eq!(l.size.height, 80.0);
    assert_eq!(l.location.x, 0.0);
    assert_eq!(l.location.y, 0.0);
}

#[test]
fn row_with_two_growing_children_splits_evenly() {
    let mut t = LayoutTree::new();
    let p = t.new_node();
    let a = t.new_node();
    let b = t.new_node();
    t.set_style(
        p,
        Style {
            size: Size { width: Dimension::Length(100.0), height: Dimension::Length(10.0) },
            flex_direction: FlexDirection::Row,
            ..Style::default()
        },
    );
    let grow = Style { flex_grow: 1.0, ..Style::default() };
    t.set_style(a, grow.clone());
    t.set_style(b, grow);
    assert!(t.insert_child(p, a));
    assert!(t.insert_child(p, b));
    t.compute_layout(p, space(100.0, 10.0));
    let la = t.layout(a).unwrap();
    let lb = t.layout(b).unwrap();
    assert_eq!((la.location.x, la.location.y, la.size.width, la.size.height), (0.0, 0.0, 50.0, 10.0));
    assert_eq!((lb.location.x, lb.location.y, lb.size.width, lb.size.height), (50.0, 0.0, 50.0, 10.0));
}

fn sized(w: f32, h: f32) -> Size<Dimension> {
    Size { width: Dimension::Length(w), height: Dimension::Length(h) }
}

#[test]
fn centered_column_places_child_in_the_middle() {
    let mut t = LayoutTree::new();
    let p = t.new_node();
    let c = t.new_node();
    t.set_style(
        p,
        Style {
            size: sized(100.0, 100.0),
            flex_direction: FlexDirection::Column,
            justify_content: Some(JustifyContent::Center),
            align_items: Some(AlignItems::Center),
            ..Style::default()
        },
    );
    t.set_style(c, Style { size: sized(20.0, 20.0), ..Style::default() });
    assert!(t.insert_child(p, c));
    t.compute_layout(p, space(100.0, 100.0));
    let l = t.layout(c).unwrap();
    assert_eq!((l.location.x, l.location.y, l.size.width, l.size.height), (40.0, 40.0, 20.0, 20.0));
}

#[test]
fn padding_on_all_edges_insets_the_child() {
    let mut t = LayoutTree::new();
    let p = t.new_node();
    let c = t.new_node();
    let pad = LengthPercentage::Length(10.0);
    t.set_style(
        p,
        Style {
            size: sized(100.0, 100.0),
            padding: Rect { left: pad, right: pad, top: pad, bottom: pad },
            ..Style::default()
        },
    );
    t.set_style(
        c,
        Style { flex_grow: 1.0, align_self: Some(AlignItems::Stretch), ..Style::default() },
    );
    assert!(t.insert_child(p, c));
    t.compute_layout(p, space(100.0, 100.0));
    let l = t.layout(c).unwrap();
    assert_eq!((l.location.x, l.location.y, l.size.width, l.size.height), (10.0, 10.0, 80.0, 80.0));
}

#[test]
fn fresh_nodes_always_attach() {
    let mut t = LayoutTree::new();
    let p = t.new_node();
    let mut kids = Vec::new();
    for k in 0..10u32 {
        let c = t.new_node();
        assert!(t.insert_child(p, c));
        assert_eq!(t.child_count(p), k + 1);
        kids.push(c);
    }
    for (k, c) in kids.iter().enumerate() {
        assert!(t.remove_child(p, *c));
        assert_eq!(t.child_count(p), 9 - k as u32);
    }
}

#[test]
fn layouts_persist_until_the_next_pass() {
    let mut t = LayoutTree::new();
    let n = t.new_node();
    t.set_style(n, Style { size: sized(30.0, 40.0), ..Style::default() });
    t.compute_layout(n, space(100.0, 100.0));
    let before = t.layout(n).unwrap();
    assert_eq!((before.size.width, before.size.height), (30.0, 40.0));
    t.set_style(n, Style { size: sized(70.0, 10.0), ..Style::default() });
    let m = t.new_node();
    assert!(t.insert_child(n, m));
    assert!(t.remove_child(n, m));
    assert_eq!(t.layout(n).unwrap(), before);
    t.compute_layout(n, space(100.0, 100.0));
    let after = t.layout(n).unwrap();
    assert_eq!((after.size.width, after.size.height), (70.0, 10.0));
    t.compute_layout(n, space(100.0, 100.0));
    assert_eq!(t.layout(n).unwrap(), after);
}

#[test]
fn style_on_unknown_node_is_ignored() {
    let mut t = LayoutTree::new();
    let n = t.new_node();
    t.set_style(n.wrapping_add(99), Style { size: sized(5.0, 5.0), ..Style::default() });
    t.compute_layout(n.wrapping_add(99), space(10.0, 10.0));
    assert_eq!(t.layout(n).unwrap().size.width, 0.0);
}
