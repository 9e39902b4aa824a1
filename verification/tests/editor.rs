use plug_gui::editor::{
    DioxusEditor, DioxusEditorHandle, HandleStep, ParentWindowHandle, Platform, RawDisplayHandle,
    RawWindowHandle, SetSizeError, SizeRequest, SpawnStep,
};
use plug_gui::scalar::Scalar;
use plug_gui::size::PixelSize;

type Editor = DioxusEditor<u8, &'static str, u16, char>;

fn handle() -> DioxusEditorHandle<u8, char> {
    Editor::new(Platform::Other, 5, "app", 'r').opened()
}

fn size(width: u32, height: u32) -> PixelSize {
    PixelSize { width, height }
}

fn one() -> Scalar {
    Scalar { bits: 1.0f32.to_bits() }
}

#[test]
fn the_system_scales_on_macos() {
    let editor = Editor::new(Platform::MacOs, 1, "app", 'r');
    assert_eq!(editor.scaling_factor, None);
    assert_eq!(editor.scale_factor(), one());
    let editor = Editor::new(Platform::Other, 1, "app", 'r');
    assert_eq!(editor.scaling_factor, Some(one()));
    assert_eq!((editor.state, editor.app, editor.shared_state), (1, "app", None));
}

#[test]
fn shared_state_is_kept() {
    let editor = Editor::new_with_state(Platform::Other, 1, 7, "app", 'r');
    assert_eq!(editor.shared_state, Some(7));
    assert_eq!(editor.scaling_factor, Some(one()));
}

#[test]
fn the_known_scale_factor_is_used() {
    let mut editor = Editor::new(Platform::Other, 1, "app", 'r');
    editor.scaling_factor = Some(Scalar { bits: 1.5f32.to_bits() });
    assert_eq!(f32::from_bits(editor.scale_factor().bits), 1.5);
}

#[test]
fn a_window_is_planned() {
    let editor = Editor::new(Platform::Other, 1, "app", 'r');
    let plan = editor.spawn(size(640, 480), true);
    assert_eq!(plan.title, "Plugin Editor");
    assert_eq!(plan.size, size(640, 480));
    assert!(plan.wait_for_parent);
    assert_eq!(plan.fallback_scale_factor, Some(one()));
    assert!(!editor.spawn(size(1, 1), false).wait_for_parent);
}

#[test]
fn an_editor_opens_after_its_window() {
    let editor = Editor::new(Platform::Other, 1, "app", 'r');
    assert!(matches!(editor.window_created::<u8>(false, None), SpawnStep::Fail));
    assert!(matches!(editor.window_created(false, Some(2)), SpawnStep::Fail));
    assert!(matches!(editor.window_created::<u8>(true, None), SpawnStep::Open));
    assert!(matches!(editor.window_created(true, Some(2)), SpawnStep::SuggestScale(2)));
    assert!(matches!(editor.scale_suggested::<u8>(true), SpawnStep::Open));
    assert!(matches!(editor.scale_suggested::<u8>(false), SpawnStep::Fail));
}

#[test]
fn sizes_are_reported_in_the_platforms_unit() {
    let editor = Editor::new(Platform::MacOs, 1, "app", 'r');
    assert_eq!(editor.size(Platform::MacOs, size(400, 300), size(800, 600)), size(400, 300));
    assert_eq!(editor.size(Platform::Other, size(400, 300), size(800, 600)), size(800, 600));
}

#[test]
fn a_reported_size_is_read_back() {
    let handle = handle();
    assert_eq!(
        handle.read_size(Platform::MacOs, size(400, 300), size(800, 600)),
        SizeRequest { logical: size(400, 300), physical: size(800, 600) }
    );
    assert_eq!(
        handle.read_size(Platform::Other, size(800, 600), size(400, 300)),
        SizeRequest { logical: size(400, 300), physical: size(800, 600) }
    );
}

#[test]
fn a_size_outside_the_hint_is_refused() {
    let handle = handle();
    let request = SizeRequest { logical: size(400, 300), physical: size(800, 600) };
    assert_eq!(handle.set_size(request, false), Err(SetSizeError::OutsideResizeHint));
    assert_eq!(
        handle.set_size(request, true),
        Ok(vec![HandleStep::HostSetSize(size(400, 300)), HandleStep::ResizeWindow])
    );
}

#[test]
fn a_window_that_is_not_resized_is_not_redrawn() {
    let handle = handle();
    assert_eq!(handle.window_resized(true), Ok(HandleStep::RequestRedraw));
    assert_eq!(handle.window_resized(false), Err(SetSizeError::WindowNotResized));
}

#[test]
fn moving_the_window_revalidates() {
    let handle = handle();
    assert_eq!(handle.set_parent(), vec![HandleStep::AttachParent, HandleStep::Revalidate(6)]);
    assert_eq!(handle.show(), vec![HandleStep::Revalidate(6), HandleStep::ShowWindow]);
    assert_eq!((handle.state, handle.needs_redraw), (5, 'r'));
}

#[test]
fn changes_are_redrawn() {
    let handle = handle();
    assert_eq!(handle.state_changed(), HandleStep::RequestRedraw);
    assert_eq!(handle.param_value_changed(), HandleStep::RequestRedraw);
    assert_eq!(handle.param_modulation_changed(), HandleStep::RequestRedraw);
    assert_eq!(handle.closed(), HandleStep::MarkClosed);
}

#[test]
fn x11_parents_are_xcb_windows() {
    let xlib = ParentWindowHandle::XlibWindow(0x1_0000_0007);
    assert_eq!(xlib.window_handle(), RawWindowHandle::Xcb(7));
    assert_eq!(xlib.display_handle(), RawDisplayHandle::Xcb);
    let xcb = ParentWindowHandle::XcbWindow(9);
    assert_eq!(xcb.window_handle(), RawWindowHandle::Xcb(9));
    assert_eq!(xcb.display_handle(), RawDisplayHandle::Xcb);
}

#[test]
fn other_parents_keep_their_kind() {
    let view = ParentWindowHandle::AppKitNsView(64);
    assert_eq!(view.window_handle(), RawWindowHandle::AppKit(64));
    assert_eq!(view.display_handle(), RawDisplayHandle::AppKit);
    let hwnd = ParentWindowHandle::Win32Hwnd(-3);
    assert_eq!(hwnd.window_handle(), RawWindowHandle::Win32(-3));
    assert_eq!(hwnd.display_handle(), RawDisplayHandle::Windows);
}
