//! Integer codes of the host interface and what each one selects.
//!
//! Every decoder is total: a code outside the documented range selects the
//! documented default, so that hosts that know newer codes keep working.
use vstd::prelude::*;

verus! {

/// Main-axis direction of a flex container.
#[derive(Clone, Copy, Debug, PartialEq, Eq, Structural)]
pub enum FlexDirection {
    Column,
    ColumnReverse,
    Row,
    RowReverse,
}

/// Distribution of items along the main axis.
#[derive(Clone, Copy, Debug, PartialEq, Eq, Structural)]
pub enum JustifyContent {
    Start,
    Center,
    End,
    SpaceBetween,
    SpaceAround,
    SpaceEvenly,
}

/// Placement of items on the cross axis (used for both align-items and
/// align-self).
#[derive(Clone, Copy, Debug, PartialEq, Eq, Structural)]
pub enum AlignItems {
    Start,
    Center,
    End,
    Stretch,
    Baseline,
}

/// Distribution of flex lines on the cross axis.
#[derive(Clone, Copy, Debug, PartialEq, Eq, Structural)]
pub enum AlignContent {
    Start,
    Center,
    End,
    Stretch,
    SpaceBetween,
    SpaceAround,
}

/// Whether items may wrap onto several lines.
#[derive(Clone, Copy, Debug, PartialEq, Eq, Structural)]
pub enum FlexWrap {
    NoWrap,
    Wrap,
    WrapReverse,
}

/// The sides of a box that an edge code designates.
#[derive(Clone, Copy, Debug, PartialEq, Eq, Structural)]
pub struct EdgeSet {
    pub left: bool,
    pub top: bool,
    pub right: bool,
    pub bottom: bool,
}

/// Flex-direction codes: 0 Column, 1 ColumnReverse, 2 Row, 3 RowReverse;
/// any other code selects Column.
pub open spec fn spec_flex_direction(code: u32) -> FlexDirection {
    if code == 1 {
        FlexDirection::ColumnReverse
    } else if code == 2 {
        FlexDirection::Row
    } else if code == 3 {
        FlexDirection::RowReverse
    } else {
        FlexDirection::Column
    }
}

/// Justify-content codes: 0 Start, 1 Center, 2 End, 3 SpaceBetween,
/// 4 SpaceAround, 5 SpaceEvenly; any other code selects Start.
pub open spec fn spec_justify_content(code: u32) -> JustifyContent {
    if code == 1 {
        JustifyContent::Center
    } else if code == 2 {
        JustifyContent::End
    } else if code == 3 {
        JustifyContent::SpaceBetween
    } else if code == 4 {
        JustifyContent::SpaceAround
    } else if code == 5 {
        JustifyContent::SpaceEvenly
    } else {
        JustifyContent::Start
    }
}

/// Align-items and align-self codes: 2 Center, 3 End, 4 Stretch,
/// 5 Baseline; 0 (auto), 1, 6, 7 and any other code select Start.
pub open spec fn spec_align_items(code: u32) -> AlignItems {
    if code == 2 {
        AlignItems::Center
    } else if code == 3 {
        AlignItems::End
    } else if code == 4 {
        AlignItems::Stretch
    } else if code == 5 {
        AlignItems::Baseline
    } else {
        AlignItems::Start
    }
}

/// Align-content codes: 2 Center, 3 End, 4 Stretch, 6 SpaceBetween,
/// 7 SpaceAround; 0 (auto), 1, 5 (baseline) and any other code select Start.
pub open spec fn spec_align_content(code: u32) -> AlignContent {
    if code == 2 {
        AlignContent::Center
    } else if code == 3 {
        AlignContent::End
    } else if code == 4 {
        AlignContent::Stretch
    } else if code == 6 {
        AlignContent::SpaceBetween
    } else if code == 7 {
        AlignContent::SpaceAround
    } else {
        AlignContent::Start
    }
}

/// Flex-wrap codes: 0 NoWrap, 1 Wrap, 2 WrapReverse; any other code selects
/// NoWrap.
pub open spec fn spec_flex_wrap(code: u32) -> FlexWrap {
    if code == 1 {
        FlexWrap::Wrap
    } else if code == 2 {
        FlexWrap::WrapReverse
    } else {
        FlexWrap::NoWrap
    }
}

/// Edge codes: 0 left, 1 top, 2 right, 3 bottom, 4 start (left, reading
/// left to right), 5 end (right), 6 horizontal (left and right), 7 vertical
/// (top and bottom), 8 all four sides; any other code selects no side.
pub open spec fn spec_edges(code: u32) -> EdgeSet {
    EdgeSet {
        left: code == 0 || code == 4 || code == 6 || code == 8,
        top: code == 1 || code == 7 || code == 8,
        right: code == 2 || code == 5 || code == 6 || code == 8,
        bottom: code == 3 || code == 7 || code == 8,
    }
}

/// Decodes a flex-direction code.
pub fn flex_direction_from_code(code: u32) -> (r: FlexDirection)
    ensures
        r == spec_flex_direction(code),
{
    match code {
        0 => FlexDirection::Column,
        1 => FlexDirection::ColumnReverse,
        2 => FlexDirection::Row,
        3 => FlexDirection::RowReverse,
        _ => FlexDirection::Column,
    }
}

/// Decodes a justify-content code.
pub fn justify_content_from_code(code: u32) -> (r: JustifyContent)
    ensures
        r == spec_justify_content(code),
{
    match code {
        0 => JustifyContent::Start,
        1 => JustifyContent::Center,
        2 => JustifyContent::End,
        3 => JustifyContent::SpaceBetween,
        4 => JustifyContent::SpaceAround,
        5 => JustifyContent::SpaceEvenly,
        _ => JustifyContent::Start,
    }
}

/// Decodes an align-items or align-self code.
pub fn align_items_from_code(code: u32) -> (r: AlignItems)
    ensures
        r == spec_align_items(code),
{
    match code {
        0 => AlignItems::Start,
        1 => AlignItems::Start,
        2 => AlignItems::Center,
        3 => AlignItems::End,
        4 => AlignItems::Stretch,
        5 => AlignItems::Baseline,
        6 => AlignItems::Start,
        7 => AlignItems::Start,
        _ => AlignItems::Start,
    }
}

/// Decodes an align-content code.
pub fn align_content_from_code(code: u32) -> (r: AlignContent)
    ensures
        r == spec_align_content(code),
{
    match code {
        0 => AlignContent::Start,
        1 => AlignContent::Start,
        2 => AlignContent::Center,
        3 => AlignContent::End,
        4 => AlignContent::Stretch,
        5 => AlignContent::Start,
        6 => AlignContent::SpaceBetween,
        7 => AlignContent::SpaceAround,
        _ => AlignContent::Start,
    }
}

/// Decodes a flex-wrap code.
pub fn flex_wrap_from_code(code: u32) -> (r: FlexWrap)
    ensures
        r == spec_flex_wrap(code),
{
    match code {
        0 => FlexWrap::NoWrap,
        1 => FlexWrap::Wrap,
        2 => FlexWrap::WrapReverse,
        _ => FlexWrap::NoWrap,
    }
}

/// Decodes an edge code into the sides it designates.
pub fn edges_from_code(code: u32) -> (r: EdgeSet)
    ensures
        r == spec_edges(code),
{
    match code {
        0 => EdgeSet { left: true, top: false, right: false, bottom: false },
        1 => EdgeSet { left: false, top: true, right: false, bottom: false },
        2 => EdgeSet { left: false, top: false, right: true, bottom: false },
        3 => EdgeSet { left: false, top: false, right: false, bottom: true },
        4 => EdgeSet { left: true, top: false, right: false, bottom: false },
        5 => EdgeSet { left: false, top: false, right: true, bottom: false },
        6 => EdgeSet { left: true, top: false, right: true, bottom: false },
        7 => EdgeSet { left: false, top: true, right: false, bottom: true },
        8 => EdgeSet { left: true, top: true, right: true, bottom: true },
        _ => EdgeSet { left: false, top: false, right: false, bottom: false },
    }
}

} // verus!
