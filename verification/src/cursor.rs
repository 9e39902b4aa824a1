//! Cursor shapes: from those of the document to those of the window.

use vstd::prelude::*;

verus! {

/// The cursor that the document asks for.
#[derive(Clone, Copy, Debug, PartialEq, Eq, Structural)]
pub enum CursorIcon {
    Default,
    Pointer,
    Grab,
    Grabbing,
    Text,
    VerticalText,
    Move,
    AllScroll,
    Crosshair,
    Cell,
    Alias,
    Copy,
    NoDrop,
    NotAllowed,
    ZoomIn,
    ZoomOut,
    EResize,
    NResize,
    NeResize,
    NwResize,
    SResize,
    SeResize,
    SwResize,
    WResize,
    EwResize,
    NsResize,
    NeswResize,
    NwseResize,
    ColResize,
    RowResize,
    ContextMenu,
    Help,
    Progress,
    Wait,
    DndAsk,
    AllResize,
    /// A shape that has no name here.
    Other,
}

/// A cursor that the window can show.
#[derive(Clone, Copy, Debug, PartialEq, Eq, Structural)]
pub enum MouseCursor {
    Default,
    Hand,
    HandGrabbing,
    Text,
    VerticalText,
    Move,
    AllScroll,
    Crosshair,
    Cell,
    Alias,
    Copy,
    NotAllowed,
    ZoomIn,
    ZoomOut,
    EResize,
    NResize,
    NeResize,
    NwResize,
    SResize,
    SeResize,
    SwResize,
    WResize,
    EwResize,
    NsResize,
    NeswResize,
    NwseResize,
    ColResize,
    RowResize,
}

/// The window's cursor for each shape that it has one for, and the default cursor for the others.
pub open spec fn baseview_cursor(icon: CursorIcon) -> MouseCursor {
    match icon {
        CursorIcon::Pointer => MouseCursor::Hand,
        CursorIcon::Grab => MouseCursor::Hand,
        CursorIcon::Grabbing => MouseCursor::HandGrabbing,
        CursorIcon::Text => MouseCursor::Text,
        CursorIcon::VerticalText => MouseCursor::VerticalText,
        CursorIcon::Move => MouseCursor::Move,
        CursorIcon::AllScroll => MouseCursor::AllScroll,
        CursorIcon::Crosshair => MouseCursor::Crosshair,
        CursorIcon::Cell => MouseCursor::Cell,
        CursorIcon::Alias => MouseCursor::Alias,
        CursorIcon::Copy => MouseCursor::Copy,
        CursorIcon::NoDrop => MouseCursor::NotAllowed,
        CursorIcon::NotAllowed => MouseCursor::NotAllowed,
        CursorIcon::ZoomIn => MouseCursor::ZoomIn,
        CursorIcon::ZoomOut => MouseCursor::ZoomOut,
        CursorIcon::EResize => MouseCursor::EResize,
        CursorIcon::NResize => MouseCursor::NResize,
        CursorIcon::NeResize => MouseCursor::NeResize,
        CursorIcon::NwResize => MouseCursor::NwResize,
        CursorIcon::SResize => MouseCursor::SResize,
        CursorIcon::SeResize => MouseCursor::SeResize,
        CursorIcon::SwResize => MouseCursor::SwResize,
        CursorIcon::WResize => MouseCursor::WResize,
        CursorIcon::EwResize => MouseCursor::EwResize,
        CursorIcon::NsResize => MouseCursor::NsResize,
        CursorIcon::NeswResize => MouseCursor::NeswResize,
        CursorIcon::NwseResize => MouseCursor::NwseResize,
        CursorIcon::ColResize => MouseCursor::ColResize,
        CursorIcon::RowResize => MouseCursor::RowResize,
        _ => MouseCursor::Default,
    }
}

/// The window's cursor for a shape.
pub fn cursor_icon_to_baseview(icon: CursorIcon) -> (r: MouseCursor)
    ensures
        r == baseview_cursor(icon),
{
    match icon {
        CursorIcon::Default => MouseCursor::Default,
        CursorIcon::Pointer => MouseCursor::Hand,
        CursorIcon::Grab => MouseCursor::Hand,
        CursorIcon::Grabbing => MouseCursor::HandGrabbing,
        CursorIcon::Text => MouseCursor::Text,
        CursorIcon::VerticalText => MouseCursor::VerticalText,
        CursorIcon::Move => MouseCursor::Move,
        CursorIcon::AllScroll => MouseCursor::AllScroll,
        CursorIcon::Crosshair => MouseCursor::Crosshair,
        CursorIcon::Cell => MouseCursor::Cell,
        CursorIcon::Alias => MouseCursor::Alias,
        CursorIcon::Copy => MouseCursor::Copy,
        CursorIcon::NoDrop => MouseCursor::NotAllowed,
        CursorIcon::NotAllowed => MouseCursor::NotAllowed,
        CursorIcon::ZoomIn => MouseCursor::ZoomIn,
        CursorIcon::ZoomOut => MouseCursor::ZoomOut,
        CursorIcon::EResize => MouseCursor::EResize,
        CursorIcon::NResize => MouseCursor::NResize,
        CursorIcon::NeResize => MouseCursor::NeResize,
        CursorIcon::NwResize => MouseCursor::NwResize,
        CursorIcon::SResize => MouseCursor::SResize,
        CursorIcon::SeResize => MouseCursor::SeResize,
        CursorIcon::SwResize => MouseCursor::SwResize,
        CursorIcon::WResize => MouseCursor::WResize,
        CursorIcon::EwResize => MouseCursor::EwResize,
        CursorIcon::NsResize => MouseCursor::NsResize,
        CursorIcon::NeswResize => MouseCursor::NeswResize,
        CursorIcon::NwseResize => MouseCursor::NwseResize,
        CursorIcon::ColResize => MouseCursor::ColResize,
        CursorIcon::RowResize => MouseCursor::RowResize,
        _ => MouseCursor::Default,
    }
}

/// Every cursor of [`MouseCursor`] is shown for some shape.
pub proof fn every_cursor_is_used(cursor: MouseCursor)
    ensures
        exists|icon: CursorIcon| #[trigger] baseview_cursor(icon) == cursor,
{
    let icon = match cursor {
        MouseCursor::Default => CursorIcon::Default,
        MouseCursor::Hand => CursorIcon::Pointer,
        MouseCursor::HandGrabbing => CursorIcon::Grabbing,
        MouseCursor::Text => CursorIcon::Text,
        MouseCursor::VerticalText => CursorIcon::VerticalText,
        MouseCursor::Move => CursorIcon::Move,
        MouseCursor::AllScroll => CursorIcon::AllScroll,
        MouseCursor::Crosshair => CursorIcon::Crosshair,
        MouseCursor::Cell => CursorIcon::Cell,
        MouseCursor::Alias => CursorIcon::Alias,
        MouseCursor::Copy => CursorIcon::Copy,
        MouseCursor::NotAllowed => CursorIcon::NoDrop,
        MouseCursor::ZoomIn => CursorIcon::ZoomIn,
        MouseCursor::ZoomOut => CursorIcon::ZoomOut,
        MouseCursor::EResize => CursorIcon::EResize,
        MouseCursor::NResize => CursorIcon::NResize,
        MouseCursor::NeResize => CursorIcon::NeResize,
        MouseCursor::NwResize => CursorIcon::NwResize,
        MouseCursor::SResize => CursorIcon::SResize,
        MouseCursor::SeResize => CursorIcon::SeResize,
        MouseCursor::SwResize => CursorIcon::SwResize,
        MouseCursor::WResize => CursorIcon::WResize,
        MouseCursor::EwResize => CursorIcon::EwResize,
        MouseCursor::NsResize => CursorIcon::NsResize,
        MouseCursor::NeswResize => CursorIcon::NeswResize,
        MouseCursor::NwseResize => CursorIcon::NwseResize,
        MouseCursor::ColResize => CursorIcon::ColResize,
        MouseCursor::RowResize => CursorIcon::RowResize,
    };
    assert(baseview_cursor(icon) == cursor);
}

/// Each cursor of the window is shown for the shapes of its own name and for no other: a hand also
/// for what can be grabbed, a refusal for both kinds of it, and the default one for every shape that
/// the window has no cursor for.
pub proof fn each_cursor_is_shown_for_its_shapes(icon: CursorIcon)
    ensures
        baseview_cursor(icon) is Hand <==> icon is Pointer || icon is Grab,
        baseview_cursor(icon) is NotAllowed <==> icon is NotAllowed || icon is NoDrop,
        baseview_cursor(icon) is HandGrabbing <==> icon is Grabbing,
        baseview_cursor(icon) is Text <==> icon is Text,
        baseview_cursor(icon) is VerticalText <==> icon is VerticalText,
        baseview_cursor(icon) is Move <==> icon is Move,
        baseview_cursor(icon) is AllScroll <==> icon is AllScroll,
        baseview_cursor(icon) is Crosshair <==> icon is Crosshair,
        baseview_cursor(icon) is Cell <==> icon is Cell,
        baseview_cursor(icon) is Alias <==> icon is Alias,
        baseview_cursor(icon) is Copy <==> icon is Copy,
        baseview_cursor(icon) is ZoomIn <==> icon is ZoomIn,
        baseview_cursor(icon) is ZoomOut <==> icon is ZoomOut,
        baseview_cursor(icon) is EResize <==> icon is EResize,
        baseview_cursor(icon) is NResize <==> icon is NResize,
        baseview_cursor(icon) is NeResize <==> icon is NeResize,
        baseview_cursor(icon) is NwResize <==> icon is NwResize,
        baseview_cursor(icon) is SResize <==> icon is SResize,
        baseview_cursor(icon) is SeResize <==> icon is SeResize,
        baseview_cursor(icon) is SwResize <==> icon is SwResize,
        baseview_cursor(icon) is WResize <==> icon is WResize,
        baseview_cursor(icon) is EwResize <==> icon is EwResize,
        baseview_cursor(icon) is NsResize <==> icon is NsResize,
        baseview_cursor(icon) is NeswResize <==> icon is NeswResize,
        baseview_cursor(icon) is NwseResize <==> icon is NwseResize,
        baseview_cursor(icon) is ColResize <==> icon is ColResize,
        baseview_cursor(icon) is RowResize <==> icon is RowResize,
        baseview_cursor(icon) is Default <==> icon is Default || icon is ContextMenu || icon is Help
            || icon is Progress || icon is Wait || icon is DndAsk || icon is AllResize
            || icon is Other,
{
}

} // verus!
