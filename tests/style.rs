use yoga_wasm::codes::{AlignContent, AlignItems, FlexDirection, FlexWrap, JustifyContent};
use yoga_wasm::style::{Dimension, NodeStyle, Points, Sides, ONE_BITS, ZERO_BITS};

fn pt(v: f32) -> Points {
    Points::from_bits(v.to_bits())
}

#[test]
fn unit_constants_are_the_bits_of_zero_and_one() {
    assert_eq!(ZERO_BITS, 0.0f32.to_bits());
    assert_eq!(ONE_BITS, 1.0f32.to_bits());
    assert_eq!(Points::zero(), pt(0.0));
    assert_eq!(Points::one(), pt(1.0));
    assert_eq!(f32::from_bits(pt(12.5).bits), 12.5);
}

#[test]
fn default_style() {
    let s = NodeStyle::new();
    assert_eq!(s.width, Dimension::Auto);
    assert_eq!(s.max_height, Dimension::Auto);
    assert_eq!(s.flex_direction, FlexDirection::Row);
    assert_eq!(s.flex_wrap, FlexWrap::NoWrap);
    assert_eq!(s.justify_content, None);
    assert_eq!(s.align_items, None);
    assert_eq!(s.align_self, None);
    assert_eq!(s.align_content, None);
    assert_eq!(s.flex_grow, pt(0.0));
    assert_eq!(s.flex_shrink, pt(1.0));
    assert_eq!(s.flex_basis, Dimension::Auto);
    assert_eq!(s.padding, Sides { left: pt(0.0), top: pt(0.0), right: pt(0.0), bottom: pt(0.0) });
    assert_eq!(s.margin.top, Dimension::Length(pt(0.0)));
}

#[test]
fn sizing_setters_write_lengths() {
    let mut s = NodeStyle::new();
    s.set_width(pt(100.0));
    s.set_height(pt(10.0));
    s.set_min_width(pt(1.0));
    s.set_min_height(pt(2.0));
    s.set_max_width(pt(300.0));
    s.set_max_height(pt(400.0));
    s.set_flex_basis(pt(7.0));
    assert_eq!(s.width, Dimension::Length(pt(100.0)));
    assert_eq!(s.height, Dimension::Length(pt(10.0)));
    assert_eq!(s.min_width, Dimension::Length(pt(1.0)));
    assert_eq!(s.min_height, Dimension::Length(pt(2.0)));
    assert_eq!(s.max_width, Dimension::Length(pt(300.0)));
    assert_eq!(s.max_height, Dimension::Length(pt(400.0)));
    assert_eq!(s.flex_basis, Dimension::Length(pt(7.0)));
    let mut expected = NodeStyle::new();
    expected.width = Dimension::Length(pt(100.0));
    expected.height = Dimension::Length(pt(10.0));
    expected.min_width = Dimension::Length(pt(1.0));
    expected.min_height = Dimension::Length(pt(2.0));
    expected.max_width = Dimension::Length(pt(300.0));
    expected.max_height = Dimension::Length(pt(400.0));
    expected.flex_basis = Dimension::Length(pt(7.0));
    assert_eq!(s, expected);
}

#[test]
fn enum_setters_write_decoded_values() {
    let mut s = NodeStyle::new();
    s.set_flex_direction(2);
    s.set_justify_content(1);
    s.set_align_items(2);
    s.set_align_content(6);
    s.set_align_self(4);
    s.set_flex_wrap(1);
    assert_eq!(s.flex_direction, FlexDirection::Row);
    assert_eq!(s.justify_content, Some(JustifyContent::Center));
    assert_eq!(s.align_items, Some(AlignItems::Center));
    assert_eq!(s.align_content, Some(AlignContent::SpaceBetween));
    assert_eq!(s.align_self, Some(AlignItems::Stretch));
    assert_eq!(s.flex_wrap, FlexWrap::Wrap);
    s.set_flex_direction(0);
    assert_eq!(s.flex_direction, FlexDirection::Column);
}

#[test]
fn unknown_enum_codes_match_the_default_code() {
    let mut a = NodeStyle::new();
    let mut b = NodeStyle::new();
    a.set_flex_direction(99);
    b.set_flex_direction(0);
    a.set_justify_content(6);
    b.set_justify_content(0);
    a.set_align_items(8);
    b.set_align_items(0);
    a.set_align_content(1000);
    b.set_align_content(0);
    a.set_align_self(u32::MAX);
    b.set_align_self(0);
    a.set_flex_wrap(3);
    b.set_flex_wrap(0);
    assert_eq!(a, b);
    assert_eq!(a.flex_direction, FlexDirection::Column);
}

#[test]
fn unknown_flex_direction_behaves_as_column() {
    let mut a = NodeStyle::new();
    a.set_width(pt(100.0));
    let mut b = a;
    a.set_flex_direction(99);
    b.set_flex_direction(0);
    assert_eq!(a, b);
}

#[test]
fn flex_shorthand_matches_separate_setters() {
    let mut a = NodeStyle::new();
    let mut b = NodeStyle::new();
    a.set_flex(pt(2.0));
    b.set_flex_grow(pt(2.0));
    b.set_flex_shrink(pt(1.0));
    b.set_flex_basis(pt(0.0));
    assert_eq!(a, b);
    assert_eq!(a.flex_grow, pt(2.0));
    assert_eq!(a.flex_shrink, pt(1.0));
    assert_eq!(a.flex_basis, Dimension::Length(pt(0.0)));
}

#[test]
fn flex_shorthand_overrides_earlier_shrink() {
    let mut s = NodeStyle::new();
    s.set_flex_shrink(pt(5.0));
    s.set_flex_basis(pt(30.0));
    s.set_flex(pt(3.0));
    assert_eq!(s.flex_shrink, pt(1.0));
    assert_eq!(s.flex_basis, Dimension::Length(pt(0.0)));
    assert_eq!(s.flex_grow, pt(3.0));
}

#[test]
fn padding_edges() {
    let z = pt(0.0);
    let v = pt(10.0);
    let mut s = NodeStyle::new();
    s.set_padding(8, v);
    assert_eq!(s.padding, Sides { left: v, top: v, right: v, bottom: v });
    let mut s = NodeStyle::new();
    s.set_padding(6, v);
    assert_eq!(s.padding, Sides { left: v, top: z, right: v, bottom: z });
    let mut s = NodeStyle::new();
    s.set_padding(7, v);
    assert_eq!(s.padding, Sides { left: z, top: v, right: z, bottom: v });
    let mut s = NodeStyle::new();
    s.set_padding(4, v);
    assert_eq!(s.padding, Sides { left: v, top: z, right: z, bottom: z });
    let mut s = NodeStyle::new();
    s.set_padding(5, v);
    assert_eq!(s.padding, Sides { left: z, top: z, right: v, bottom: z });
    let mut s = NodeStyle::new();
    s.set_padding(3, v);
    assert_eq!(s.padding, Sides { left: z, top: z, right: z, bottom: v });
}

#[test]
fn unknown_edge_changes_nothing() {
    let mut s = NodeStyle::new();
    s.set_padding(9, pt(10.0));
    s.set_margin(42, pt(10.0));
    assert_eq!(s, NodeStyle::new());
}

#[test]
fn margin_edges() {
    let z = Dimension::Length(pt(0.0));
    let v = Dimension::Length(pt(4.0));
    let mut s = NodeStyle::new();
    s.set_margin(1, pt(4.0));
    assert_eq!(s.margin, Sides { left: z, top: v, right: z, bottom: z });
    s.set_margin(0, pt(4.0));
    s.set_margin(2, pt(4.0));
    assert_eq!(s.margin, Sides { left: v, top: v, right: v, bottom: z });
    let mut s = NodeStyle::new();
    s.set_margin(8, pt(4.0));
    assert_eq!(s.margin, Sides { left: v, top: v, right: v, bottom: v });
    assert_eq!(s.padding.left, pt(0.0));
}

#[test]
fn reset_restores_default() {
    let mut s = NodeStyle::new();
    s.set_width(pt(5.0));
    s.set_flex_direction(3);
    s.set_padding(8, pt(2.0));
    s.reset();
    assert_eq!(s, NodeStyle::new());
}
