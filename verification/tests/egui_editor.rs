use plug_gui::egui_editor::{
    AppNotice, EguiEditor, EguiEditorHandle, EguiEditorState, EguiNiceSettings, EguiStep, WindowSize,
};
use plug_gui::resizable_window::{CornerResponse, ResizableWindow};
use plug_gui::resize_hint::{ResizeHint, SizeConstraints};
use plug_gui::scalar::{Scalar, Vec2};
use plug_gui::size::{PixelSize, Size};

type Logical = (f64, f64);

fn pixels(width: u32, height: u32) -> PixelSize {
    PixelSize { width, height }
}

fn num(n: f32) -> Scalar {
    Scalar { bits: n.to_bits() }
}

fn vec(x: f32, y: f32) -> Vec2 {
    Vec2 { x: num(x), y: num(y) }
}

fn state(size: Size<Logical>) -> EguiEditorState<Logical> {
    EguiEditorState { size, scale_factor: None, zoom_factor: num(1.0), open: false }
}

fn window_size() -> WindowSize<Logical> {
    WindowSize { logical: (400.5, 300.0), physical: pixels(801, 600), scale_factor: num(2.0) }
}

fn editor(resize_hint: ResizeHint<Logical, u16>) -> EguiEditor<&'static str, u8, Logical, u16> {
    EguiEditor {
        egui_state: state(Size::Logical((640.0, 480.0))),
        user_app: "app",
        settings: EguiNiceSettings::new(3, 0)
            .with_tile("Gain".to_string())
            .with_resize_hint(resize_hint),
    }
}

fn corner(delta: Option<(f32, f32)>, stopped: bool) -> CornerResponse {
    CornerResponse {
        dragged: delta.is_some(),
        total_drag_delta: delta.map(|(x, y)| vec(x, y)),
        drag_stopped: stopped,
    }
}

#[test]
fn an_editor_is_not_resizable_by_default() {
    let settings: EguiNiceSettings<u8, Logical, u16> = EguiNiceSettings::new(1, 8);
    assert_eq!(settings.title, "");
    assert_eq!(settings.graphics, 1);
    assert!(!settings.resize_hint.can_resize);
    assert_eq!(settings.resize_hint.refinement, 8);
    let settings = settings.with_graphics_config(2);
    assert_eq!(settings.graphics, 2);
}

#[test]
fn a_resize_keeps_the_unit() {
    let mut logical = state(Size::Logical((640.0, 480.0)));
    logical.resized(window_size());
    assert!(matches!(logical.size, Size::Logical((w, h)) if w == 400.5 && h == 300.0));
    assert_eq!(logical.scale_factor, Some(num(2.0)));
    let mut physical = state(Size::Physical(pixels(640, 480)));
    physical.resized(window_size());
    assert!(matches!(physical.size, Size::Physical(p) if p == pixels(801, 600)));
    physical.zoom_factor_changed(num(1.25));
    assert_eq!(physical.zoom_factor, num(1.25));
}

#[test]
fn a_window_has_the_limits_of_its_hint() {
    let hint = ResizeHint {
        can_resize: true,
        size_constraints: SizeConstraints::Logical {
            min_size: Some((100.0, 50.0)),
            max_size: None,
        },
        refinement: 9,
    };
    let editor = editor(hint);
    let plan = editor.spawn(true, Some(1.5f64));
    assert_eq!(plan.title, "Gain");
    assert!(matches!(plan.size, Size::Logical((w, _)) if w == 640.0));
    assert!(matches!(plan.min_size, Some(Size::Logical((w, h))) if w == 100.0 && h == 50.0));
    assert!(plan.max_size.is_none());
    assert!(plan.resizable);
    assert_eq!(plan.zoom_factor, num(1.0));
    assert_eq!(*plan.graphics, 3);
    assert_eq!(plan.fallback_scale_factor, Some(1.5));
    assert!(plan.wait_for_parent);
}

#[test]
fn physical_limits_stay_physical() {
    let limits = SizeConstraints::<Logical>::Physical {
        min_size: None,
        max_size: Some(pixels(1920, 1080)),
    }
    .limits();
    assert!(limits.min_size.is_none());
    assert!(matches!(limits.max_size, Some(Size::Physical(p)) if p == pixels(1920, 1080)));
}

#[test]
fn a_created_window_opens_the_editor() {
    let mut editor = editor(ResizeHint::new(4));
    assert!(editor.window_created(false).is_none());
    assert!(!editor.egui_state.open);
    let handle = editor.window_created(true).unwrap();
    assert!(editor.egui_state.open);
    assert!(!handle.resize_hint.can_resize);
    assert_eq!(handle.resize_hint.refinement, 4);
    assert!(!editor.resize_hint().can_resize);
    editor.closed();
    assert!(!editor.egui_state.open);
    assert_eq!(editor.track_info_updated(), vec![EguiStep::NotifyApp, EguiStep::RequestRepaint]);
}

#[test]
fn the_handle_repaints() {
    let handle: EguiEditorHandle<Logical, u16> = EguiEditorHandle { resize_hint: ResizeHint::new(4) };
    assert_eq!(handle.show(), vec![EguiStep::ShowWindow, EguiStep::RequestRepaint]);
    assert_eq!(handle.set_size(pixels(5, 6)), EguiStep::ResizeWindow(pixels(5, 6)));
    assert_eq!(handle.state_changed(), EguiStep::RequestRepaint);
    assert_eq!(handle.param_value_changed(), EguiStep::RequestRepaint);
    assert_eq!(handle.param_modulation_changed(), EguiStep::RequestRepaint);
    assert!(!handle.on_virtual_key_from_host());
}

#[test]
fn a_drag_is_measured_from_its_first_frame() {
    let window = ResizableWindow::new("corner");
    let mut start = None;
    let drag = window.show(&mut start, corner(Some((5.0, 6.0)), false), vec(400.0, 300.0)).unwrap();
    assert_eq!((drag.start_window_size, drag.delta), (vec(400.0, 300.0), vec(5.0, 6.0)));
    // The window has followed the pointer, the start has not.
    let drag = window.show(&mut start, corner(Some((9.0, 9.0)), false), vec(405.0, 306.0)).unwrap();
    assert_eq!((drag.start_window_size, drag.delta), (vec(400.0, 300.0), vec(9.0, 9.0)));
    // Between two frames of a drag nothing is forgotten.
    assert!(window.show(&mut start, corner(None, false), vec(409.0, 309.0)).is_none());
    assert_eq!(start, Some(vec(400.0, 300.0)));
    assert!(window.show(&mut start, corner(None, true), vec(409.0, 309.0)).is_none());
    assert_eq!(start, None);
    let drag = window.show(&mut start, corner(Some((1.0, 1.0)), false), vec(409.0, 309.0)).unwrap();
    assert_eq!(drag.start_window_size, vec(409.0, 309.0));
}

#[test]
fn a_drag_without_a_distance_is_none() {
    let window = ResizableWindow::new(1u8);
    let mut start = Some(vec(1.0, 2.0));
    let response = CornerResponse { dragged: true, total_drag_delta: None, drag_stopped: true };
    assert!(window.show(&mut start, response, vec(3.0, 4.0)).is_none());
    assert_eq!(start, None);
}

#[test]
fn desired_sizes_stay_in_bounds() {
    let window = ResizableWindow::new(1u8);
    assert_eq!(window.desired_size(vec(-40.0, 0.5)), vec(1.0, 1.0));
    assert_eq!(window.desired_size(vec(5000.0, 7.0)), vec(5000.0, 7.0));
    let window = window.min_size(vec(100.0, 50.0)).max_size(vec(800.0, 600.0));
    assert_eq!(window.desired_size(vec(99.0, 601.0)), vec(100.0, 600.0));
    assert_eq!(window.desired_size(vec(300.5, 200.0)), vec(300.5, 200.0));
    assert_eq!(window.desired_size(vec(f32::NAN, 20.0)), vec(100.0, 50.0));
    assert_eq!(window.id, 1);
}

#[test]
fn the_greatest_size_prevails() {
    let window = ResizableWindow::new(1u8).min_size(vec(100.0, 100.0)).max_size(vec(50.0, 50.0));
    assert_eq!(window.desired_size(vec(70.0, 10.0)), vec(50.0, 50.0));
}

#[test]
fn the_application_is_told_after_the_state_changed() {
    let mut editor = editor(ResizeHint::new(4));
    match editor.resized(window_size()) {
        AppNotice::Resized(size) => assert_eq!(size.physical, pixels(801, 600)),
        AppNotice::ZoomFactorChanged(_) => panic!("not resized"),
    }
    assert!(matches!(editor.egui_state.size, Size::Logical((w, _)) if w == 400.5));
    assert_eq!(editor.egui_state.scale_factor, Some(num(2.0)));
    assert!(matches!(editor.zoom_factor_changed(num(1.5)), AppNotice::ZoomFactorChanged(z) if z == num(1.5)));
    assert_eq!(editor.egui_state.zoom_factor, num(1.5));
}
