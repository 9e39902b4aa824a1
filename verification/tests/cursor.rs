use plug_gui::cursor::{cursor_icon_to_baseview, CursorIcon, MouseCursor};

#[test]
fn cursors_with_a_counterpart_keep_their_shape() {
    assert_eq!(cursor_icon_to_baseview(CursorIcon::Text), MouseCursor::Text);
    assert_eq!(cursor_icon_to_baseview(CursorIcon::ZoomIn), MouseCursor::ZoomIn);
    assert_eq!(cursor_icon_to_baseview(CursorIcon::NwseResize), MouseCursor::NwseResize);
    assert_eq!(cursor_icon_to_baseview(CursorIcon::RowResize), MouseCursor::RowResize);
    assert_eq!(cursor_icon_to_baseview(CursorIcon::Default), MouseCursor::Default);
}

#[test]
fn hands_and_refusals_are_merged() {
    assert_eq!(cursor_icon_to_baseview(CursorIcon::Pointer), MouseCursor::Hand);
    assert_eq!(cursor_icon_to_baseview(CursorIcon::Grab), MouseCursor::Hand);
    assert_eq!(cursor_icon_to_baseview(CursorIcon::Grabbing), MouseCursor::HandGrabbing);
    assert_eq!(cursor_icon_to_baseview(CursorIcon::NoDrop), MouseCursor::NotAllowed);
    assert_eq!(cursor_icon_to_baseview(CursorIcon::NotAllowed), MouseCursor::NotAllowed);
}

#[test]
fn other_cursors_are_the_default() {
    for icon in [CursorIcon::Wait, CursorIcon::Help, CursorIcon::Progress, CursorIcon::Other] {
        assert_eq!(cursor_icon_to_baseview(icon), MouseCursor::Default);
    }
}
