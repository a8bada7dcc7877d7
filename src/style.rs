//! The style of one flex node, as the host sets it.
//!
//! Lengths are point values that the library stores and copies but never
//! computes with; each one is held by the bit pattern of its 32-bit IEEE-754
//! value, so that a value handed in comes back bit for bit.
use vstd::prelude::*;

use crate::codes::{
    align_content_from_code, align_items_from_code, edges_from_code, flex_direction_from_code,
    flex_wrap_from_code, justify_content_from_code, spec_align_content, spec_align_items,
    spec_edges, spec_flex_direction, spec_flex_wrap, spec_justify_content, AlignContent,
    AlignItems, EdgeSet, FlexDirection, FlexWrap, JustifyContent,
};

verus! {

/// Bit pattern of the point value 0.0.
pub const ZERO_BITS: u32 = 0;

/// Bit pattern of the point value 1.0.
pub const ONE_BITS: u32 = 0x3f80_0000;

/// A length in points, held by the bit pattern of its IEEE-754 value.
#[derive(Clone, Copy, Debug, PartialEq, Eq, Structural)]
pub struct Points {
    pub bits: u32,
}

impl Points {
    /// The length whose IEEE-754 bit pattern is `bits`.
    pub fn from_bits(bits: u32) -> (r: Points)
        ensures
            r.bits == bits,
    {
        Points { bits }
    }

    /// The point value 0.0.
    pub fn zero() -> (r: Points)
        ensures
            r.bits == ZERO_BITS,
    {
        Points { bits: ZERO_BITS }
    }

    /// The point value 1.0.
    pub fn one() -> (r: Points)
        ensures
            r.bits == ONE_BITS,
    {
        Points { bits: ONE_BITS }
    }
}

/// A sizing value: automatic, or an absolute length.
#[derive(Clone, Copy, Debug, PartialEq, Eq, Structural)]
pub enum Dimension {
    Auto,
    Length(Points),
}

/// One value per side of a box.
#[derive(Clone, Copy, Debug, PartialEq, Eq)]
pub struct Sides<T> {
    pub left: T,
    pub top: T,
    pub right: T,
    pub bottom: T,
}

impl<T: Copy> Sides<T> {
    /// These sides, with each side that `e` selects replaced by `v`.
    pub open spec fn spec_assign(self, e: EdgeSet, v: T) -> Sides<T> {
        Sides {
            left: if e.left { v } else { self.left },
            top: if e.top { v } else { self.top },
            right: if e.right { v } else { self.right },
            bottom: if e.bottom { v } else { self.bottom },
        }
    }

    /// Replaces by `v` each side that `e` selects.
    pub fn assign(self, e: EdgeSet, v: T) -> (r: Sides<T>)
        ensures
            r == self.spec_assign(e, v),
    {
        Sides {
            left: if e.left { v } else { self.left },
            top: if e.top { v } else { self.top },
            right: if e.right { v } else { self.right },
            bottom: if e.bottom { v } else { self.bottom },
        }
    }
}

/// The full style of a flex node.
#[derive(Clone, Copy, Debug, PartialEq, Eq)]
pub struct NodeStyle {
    pub width: Dimension,
    pub height: Dimension,
    pub min_width: Dimension,
    pub min_height: Dimension,
    pub max_width: Dimension,
    pub max_height: Dimension,
    pub flex_direction: FlexDirection,
    pub flex_wrap: FlexWrap,
    /// `None` leaves the engine's own default in force.
    pub justify_content: Option<JustifyContent>,
    pub align_items: Option<AlignItems>,
    pub align_self: Option<AlignItems>,
    pub align_content: Option<AlignContent>,
    pub flex_grow: Points,
    pub flex_shrink: Points,
    pub flex_basis: Dimension,
    pub padding: Sides<Points>,
    pub margin: Sides<Dimension>,
}

/// The style of a fresh node: automatic sizes, a row that does not wrap,
/// no alignment chosen, grow 0, shrink 1, automatic basis, and zero padding
/// and margin on every side.
pub open spec fn spec_default_style() -> NodeStyle {
    let zero = Points { bits: ZERO_BITS };
    NodeStyle {
        width: Dimension::Auto,
        height: Dimension::Auto,
        min_width: Dimension::Auto,
        min_height: Dimension::Auto,
        max_width: Dimension::Auto,
        max_height: Dimension::Auto,
        flex_direction: FlexDirection::Row,
        flex_wrap: FlexWrap::NoWrap,
        justify_content: None,
        align_items: None,
        align_self: None,
        align_content: None,
        flex_grow: zero,
        flex_shrink: Points { bits: ONE_BITS },
        flex_basis: Dimension::Auto,
        padding: Sides { left: zero, top: zero, right: zero, bottom: zero },
        margin: Sides {
            left: Dimension::Length(zero),
            top: Dimension::Length(zero),
            right: Dimension::Length(zero),
            bottom: Dimension::Length(zero),
        },
    }
}

impl NodeStyle {
    pub open spec fn with_width(self, v: Points) -> NodeStyle {
        NodeStyle { width: Dimension::Length(v), ..self }
    }

    pub open spec fn with_height(self, v: Points) -> NodeStyle {
        NodeStyle { height: Dimension::Length(v), ..self }
    }

    pub open spec fn with_min_width(self, v: Points) -> NodeStyle {
        NodeStyle { min_width: Dimension::Length(v), ..self }
    }

    pub open spec fn with_min_height(self, v: Points) -> NodeStyle {
        NodeStyle { min_height: Dimension::Length(v), ..self }
    }

    pub open spec fn with_max_width(self, v: Points) -> NodeStyle {
        NodeStyle { max_width: Dimension::Length(v), ..self }
    }

    pub open spec fn with_max_height(self, v: Points) -> NodeStyle {
        NodeStyle { max_height: Dimension::Length(v), ..self }
    }

    pub open spec fn with_flex_direction(self, code: u32) -> NodeStyle {
        NodeStyle { flex_direction: spec_flex_direction(code), ..self }
    }

    pub open spec fn with_justify_content(self, code: u32) -> NodeStyle {
        NodeStyle { justify_content: Some(spec_justify_content(code)), ..self }
    }

    pub open spec fn with_align_items(self, code: u32) -> NodeStyle {
        NodeStyle { align_items: Some(spec_align_items(code)), ..self }
    }

    pub open spec fn with_align_content(self, code: u32) -> NodeStyle {
        NodeStyle { align_content: Some(spec_align_content(code)), ..self }
    }

    pub open spec fn with_align_self(self, code: u32) -> NodeStyle {
        NodeStyle { align_self: Some(spec_align_items(code)), ..self }
    }

    pub open spec fn with_flex_wrap(self, code: u32) -> NodeStyle {
        NodeStyle { flex_wrap: spec_flex_wrap(code), ..self }
    }

    /// The flex shorthand: grow `v`, shrink 1, basis 0.
    pub open spec fn with_flex(self, v: Points) -> NodeStyle {
        NodeStyle {
            flex_grow: v,
            flex_shrink: Points { bits: ONE_BITS },
            flex_basis: Dimension::Length(Points { bits: ZERO_BITS }),
            ..self
        }
    }

    pub open spec fn with_flex_grow(self, v: Points) -> NodeStyle {
        NodeStyle { flex_grow: v, ..self }
    }

    pub open spec fn with_flex_shrink(self, v: Points) -> NodeStyle {
        NodeStyle { flex_shrink: v, ..self }
    }

    pub open spec fn with_flex_basis(self, v: Points) -> NodeStyle {
        NodeStyle { flex_basis: Dimension::Length(v), ..self }
    }

    pub open spec fn with_padding(self, edge: u32, v: Points) -> NodeStyle {
        NodeStyle { padding: self.padding.spec_assign(spec_edges(edge), v), ..self }
    }

    pub open spec fn with_margin(self, edge: u32, v: Points) -> NodeStyle {
        NodeStyle { margin: self.margin.spec_assign(spec_edges(edge), Dimension::Length(v)), ..self }
    }

    /// The default style.
    pub fn new() -> (r: NodeStyle)
        ensures
            r == spec_default_style(),
    {
        let zero = Points::zero();
        NodeStyle {
            width: Dimension::Auto,
            height: Dimension::Auto,
            min_width: Dimension::Auto,
            min_height: Dimension::Auto,
            max_width: Dimension::Auto,
            max_height: Dimension::Auto,
            flex_direction: FlexDirection::Row,
            flex_wrap: FlexWrap::NoWrap,
            justify_content: None,
            align_items: None,
            align_self: None,
            align_content: None,
            flex_grow: zero,
            flex_shrink: Points::one(),
            flex_basis: Dimension::Auto,
            padding: Sides { left: zero, top: zero, right: zero, bottom: zero },
            margin: Sides {
                left: Dimension::Length(zero),
                top: Dimension::Length(zero),
                right: Dimension::Length(zero),
                bottom: Dimension::Length(zero),
            },
        }
    }

    /// Sets the width to a length.
    pub fn set_width(&mut self, width: Points)
        ensures
            *final(self) == old(self).with_width(width),
    {
        self.width = Dimension::Length(width);
    }

    /// Sets the height to a length.
    pub fn set_height(&mut self, height: Points)
        ensures
            *final(self) == old(self).with_height(height),
    {
        self.height = Dimension::Length(height);
    }

    /// Sets the minimum width to a length.
    pub fn set_min_width(&mut self, min_width: Points)
        ensures
            *final(self) == old(self).with_min_width(min_width),
    {
        self.min_width = Dimension::Length(min_width);
    }

    /// Sets the minimum height to a length.
    pub fn set_min_height(&mut self, min_height: Points)
        ensures
            *final(self) == old(self).with_min_height(min_height),
    {
        self.min_height = Dimension::Length(min_height);
    }

    /// Sets the maximum width to a length.
    pub fn set_max_width(&mut self, max_width: Points)
        ensures
            *final(self) == old(self).with_max_width(max_width),
    {
        self.max_width = Dimension::Length(max_width);
    }

    /// Sets the maximum height to a length.
    pub fn set_max_height(&mut self, max_height: Points)
        ensures
            *final(self) == old(self).with_max_height(max_height),
    {
        self.max_height = Dimension::Length(max_height);
    }

    /// Sets the flex direction from its code (unknown codes give Column).
    pub fn set_flex_direction(&mut self, direction: u32)
        ensures
            *final(self) == old(self).with_flex_direction(direction),
    {
        self.flex_direction = flex_direction_from_code(direction);
    }

    /// Sets justify-content from its code (unknown codes give Start).
    pub fn set_justify_content(&mut self, justify: u32)
        ensures
            *final(self) == old(self).with_justify_content(justify),
    {
        self.justify_content = Some(justify_content_from_code(justify));
    }

    /// Sets align-items from its code (unknown codes give Start).
    pub fn set_align_items(&mut self, align: u32)
        ensures
            *final(self) == old(self).with_align_items(align),
    {
        self.align_items = Some(align_items_from_code(align));
    }

    /// Sets align-content from its code (unknown codes give Start).
    pub fn set_align_content(&mut self, align: u32)
        ensures
            *final(self) == old(self).with_align_content(align),
    {
        self.align_content = Some(align_content_from_code(align));
    }

    /// Sets align-self from its code, which reads as an align-items code.
    pub fn set_align_self(&mut self, align: u32)
        ensures
            *final(self) == old(self).with_align_self(align),
    {
        self.align_self = Some(align_items_from_code(align));
    }

    /// Sets flex-wrap from its code (unknown codes give NoWrap).
    pub fn set_flex_wrap(&mut self, wrap: u32)
        ensures
            *final(self) == old(self).with_flex_wrap(wrap),
    {
        self.flex_wrap = flex_wrap_from_code(wrap);
    }

    /// The flex shorthand: grow `flex`, shrink 1, basis 0.
    pub fn set_flex(&mut self, flex: Points)
        ensures
            *final(self) == old(self).with_flex(flex),
    {
        self.flex_grow = flex;
        self.flex_shrink = Points::one();
        self.flex_basis = Dimension::Length(Points::zero());
    }

    /// Sets the flex grow factor.
    pub fn set_flex_grow(&mut self, flex_grow: Points)
        ensures
            *final(self) == old(self).with_flex_grow(flex_grow),
    {
        self.flex_grow = flex_grow;
    }

    /// Sets the flex shrink factor.
    pub fn set_flex_shrink(&mut self, flex_shrink: Points)
        ensures
            *final(self) == old(self).with_flex_shrink(flex_shrink),
    {
        self.flex_shrink = flex_shrink;
    }

    /// Sets the flex basis to a length.
    pub fn set_flex_basis(&mut self, flex_basis: Points)
        ensures
            *final(self) == old(self).with_flex_basis(flex_basis),
    {
        self.flex_basis = Dimension::Length(flex_basis);
    }

    /// Sets the padding of the sides that the edge code selects; an unknown
    /// code changes nothing.
    pub fn set_padding(&mut self, edge: u32, padding: Points)
        ensures
            *final(self) == old(self).with_padding(edge, padding),
    {
        let sides = edges_from_code(edge);
        self.padding = self.padding.assign(sides, padding);
    }

    /// Sets the margin of the sides that the edge code selects; an unknown
    /// code changes nothing.
    pub fn set_margin(&mut self, edge: u32, margin: Points)
        ensures
            *final(self) == old(self).with_margin(edge, margin),
    {
        let sides = edges_from_code(edge);
        self.margin = self.margin.assign(sides, Dimension::Length(margin));
    }

    /// Puts every field back to the default style.
    pub fn reset(&mut self)
        ensures
            *final(self) == spec_default_style(),
    {
        *self = NodeStyle::new();
    }
}

/// Setting an enumerated attribute from a code outside its documented range
/// gives the same style as setting it from the documented default code, 0;
/// setting padding or margin with an unknown edge code changes nothing.
pub proof fn lemma_unknown_codes_act_as_default(s: NodeStyle, code: u32, v: Points)
    ensures
        code > 3 ==> s.with_flex_direction(code) == s.with_flex_direction(0),
        code > 5 ==> s.with_justify_content(code) == s.with_justify_content(0),
        code > 7 ==> s.with_align_items(code) == s.with_align_items(0),
        code > 7 ==> s.with_align_content(code) == s.with_align_content(0),
        code > 7 ==> s.with_align_self(code) == s.with_align_self(0),
        code > 2 ==> s.with_flex_wrap(code) == s.with_flex_wrap(0),
        code > 8 ==> s.with_padding(code, v) == s,
        code > 8 ==> s.with_margin(code, v) == s,
{
}

/// The flex shorthand with `x` gives the same style as setting grow to `x`,
/// then shrink to 1, then basis to 0.
pub proof fn lemma_flex_shorthand(s: NodeStyle, x: Points)
    ensures
        s.with_flex(x) == s.with_flex_grow(x).with_flex_shrink(Points { bits: ONE_BITS })
            .with_flex_basis(Points { bits: ZERO_BITS }),
{
}

} // verus!
