use yoga_wasm::codes::{
    align_content_from_code, align_items_from_code, edges_from_code, flex_direction_from_code,
    flex_wrap_from_code, justify_content_from_code, AlignContent, AlignItems, EdgeSet,
    FlexDirection, FlexWrap, JustifyContent,
};

fn sides(left: bool, top: bool, right: bool, bottom: bool) -> EdgeSet {
    EdgeSet { left, top, right, bottom }
}

#[test]
fn flex_direction_codes() {
    assert_eq!(flex_direction_from_code(0), FlexDirection::Column);
    assert_eq!(flex_direction_from_code(1), FlexDirection::ColumnReverse);
    assert_eq!(flex_direction_from_code(2), FlexDirection::Row);
    assert_eq!(flex_direction_from_code(3), FlexDirection::RowReverse);
    assert_eq!(flex_direction_from_code(4), FlexDirection::Column);
    assert_eq!(flex_direction_from_code(99), FlexDirection::Column);
    assert_eq!(flex_direction_from_code(u32::MAX), FlexDirection::Column);
}

#[test]
fn justify_content_codes() {
    assert_eq!(justify_content_from_code(0), JustifyContent::Start);
    assert_eq!(justify_content_from_code(1), JustifyContent::Center);
    assert_eq!(justify_content_from_code(2), JustifyContent::End);
    assert_eq!(justify_content_from_code(3), JustifyContent::SpaceBetween);
    assert_eq!(justify_content_from_code(4), JustifyContent::SpaceAround);
    assert_eq!(justify_content_from_code(5), JustifyContent::SpaceEvenly);
    assert_eq!(justify_content_from_code(6), JustifyContent::Start);
}

#[test]
fn align_items_codes() {
    assert_eq!(align_items_from_code(0), AlignItems::Start);
    assert_eq!(align_items_from_code(1), AlignItems::Start);
    assert_eq!(align_items_from_code(2), AlignItems::Center);
    assert_eq!(align_items_from_code(3), AlignItems::End);
    assert_eq!(align_items_from_code(4), AlignItems::Stretch);
    assert_eq!(align_items_from_code(5), AlignItems::Baseline);
    assert_eq!(align_items_from_code(6), AlignItems::Start);
    assert_eq!(align_items_from_code(7), AlignItems::Start);
    assert_eq!(align_items_from_code(8), AlignItems::Start);
}

#[test]
fn align_content_codes() {
    assert_eq!(align_content_from_code(0), AlignContent::Start);
    assert_eq!(align_content_from_code(1), AlignContent::Start);
    assert_eq!(align_content_from_code(2), AlignContent::Center);
    assert_eq!(align_content_from_code(3), AlignContent::End);
    assert_eq!(align_content_from_code(4), AlignContent::Stretch);
    assert_eq!(align_content_from_code(5), AlignContent::Start);
    assert_eq!(align_content_from_code(6), AlignContent::SpaceBetween);
    assert_eq!(align_content_from_code(7), AlignContent::SpaceAround);
    assert_eq!(align_content_from_code(8), AlignContent::Start);
}

#[test]
fn flex_wrap_codes() {
    assert_eq!(flex_wrap_from_code(0), FlexWrap::NoWrap);
    assert_eq!(flex_wrap_from_code(1), FlexWrap::Wrap);
    assert_eq!(flex_wrap_from_code(2), FlexWrap::WrapReverse);
    assert_eq!(flex_wrap_from_code(3), FlexWrap::NoWrap);
}

#[test]
fn edge_codes() {
    assert_eq!(edges_from_code(0), sides(true, false, false, false));
    assert_eq!(edges_from_code(1), sides(false, true, false, false));
    assert_eq!(edges_from_code(2), sides(false, false, true, false));
    assert_eq!(edges_from_code(3), sides(false, false, false, true));
    assert_eq!(edges_from_code(4), sides(true, false, false, false));
    assert_eq!(edges_from_code(5), sides(false, false, true, false));
    assert_eq!(edges_from_code(6), sides(true, false, true, false));
    assert_eq!(edges_from_code(7), sides(false, true, false, true));
    assert_eq!(edges_from_code(8), sides(true, true, true, true));
    assert_eq!(edges_from_code(9), sides(false, false, false, false));
}
