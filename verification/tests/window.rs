use plug_gui::cursor::{CursorIcon, MouseCursor};
use plug_gui::editor::Platform;
use plug_gui::events::{Event, MouseButton, MouseEvent, UiEvent, WindowEvent, WindowInfo};
use plug_gui::scalar::{Scalar, Vec2};
use plug_gui::size::PixelSize;
use plug_gui::window::{
    init_steps, initial_scale_factor, DioxusWindowHandler, Effect, EventOutcome, EventStatus, FrameEvent,
    FrameRequest, FrameStart, FrameStep, HostResize, InitStep, RenderPlan, RenderStep,
};

type Handler = DioxusWindowHandler<&'static str>;

fn size(width: u32, height: u32) -> PixelSize {
    PixelSize { width, height }
}

fn num(n: f32) -> Scalar {
    Scalar { bits: n.to_bits() }
}

fn opened() -> Handler {
    Handler::new_with_state(Platform::Other, size(800, 600), true, Some("shared"))
}

fn send(handler: &mut Handler, event: Event) -> EventOutcome {
    handler.on_event(&event, Vec2 { x: num(799.0), y: num(599.0) })
}

fn resize(handler: &mut Handler, physical: PixelSize, logical: PixelSize, scale: f32) -> EventOutcome {
    let info = WindowInfo { physical, logical, scale_factor: num(scale) };
    send(handler, Event::Window(WindowEvent::Resized(info)))
}

fn initialized() -> Handler {
    let mut handler = opened();
    resize(&mut handler, size(1600, 1200), size(800, 600), 2.0);
    assert!(matches!(handler.on_frame(FrameEvent::Started).request, FrameRequest::Initialize(_)));
    handler
}

#[test]
fn the_scale_starts_with_the_platform() {
    assert_eq!(f32::from_bits(initial_scale_factor(Platform::MacOs).bits), 2.0);
    assert_eq!(f32::from_bits(initial_scale_factor(Platform::Other).bits), 1.0);
}

#[test]
fn a_new_handler_has_no_document() {
    let handler: DioxusWindowHandler<u8> = DioxusWindowHandler::new(Platform::MacOs, size(4, 3), true);
    assert!(!handler.initialized);
    assert!(!handler.received_resize);
    assert_eq!(handler.shared_state, None);
    assert_eq!(handler.size, size(4, 3));
    assert_eq!(handler.scale_factor, num(2.0));
    assert_eq!(handler.mouse_pos, Vec2 { x: num(0.0), y: num(0.0) });
    assert!(handler.mouse_buttons.is_empty());
    assert_eq!(handler.modifiers, 0);
    assert_eq!(handler.fps_frame_count, 0);
    assert_eq!(handler.begin_frame(), FrameStart::Wait);
}

#[test]
fn frames_wait_for_the_first_resize() {
    let mut handler = opened();
    let FrameStep { effects, request } = handler.on_frame(FrameEvent::Started);
    assert!(effects.is_empty());
    assert!(matches!(request, FrameRequest::Stop));
    let outcome = resize(&mut handler, size(1600, 1200), size(800, 600), 2.0);
    assert_eq!(outcome.status, EventStatus::Captured);
    // There is no document yet, and no surface.
    assert_eq!(outcome.effects, vec![Effect::StoreSize(size(800, 600)), Effect::RequestRedraw]);
    assert_eq!(handler.begin_frame(), FrameStart::Initialize);
}

#[test]
fn the_document_gets_the_shared_state_once() {
    let mut handler = opened();
    resize(&mut handler, size(1600, 0), size(800, 0), 2.0);
    let plan = match handler.on_frame(FrameEvent::Started).request {
        FrameRequest::Initialize(plan) => plan,
        _ => panic!("not initialized"),
    };
    assert_eq!(plan.surface, size(1600, 1));
    assert_eq!(plan.viewport, size(1600, 0));
    assert_eq!(plan.scale_factor, num(2.0));
    assert_eq!(plan.shared_state, Some("shared"));
    assert!(handler.initialized);
    assert_eq!(handler.shared_state, None);
    assert!(matches!(handler.on_frame(FrameEvent::Initialized).request, FrameRequest::TakeUiResize));
    assert!(matches!(handler.on_frame(FrameEvent::Started).request, FrameRequest::TakeUiResize));
}

#[test]
fn without_handles_nothing_is_created() {
    let mut handler: Handler = DioxusWindowHandler::new(Platform::Other, size(8, 6), false);
    resize(&mut handler, size(8, 6), size(8, 6), 1.0);
    // Resizes are still taken, and then the frame stops.
    assert!(matches!(handler.on_frame(FrameEvent::Started).request, FrameRequest::TakeUiResize));
    assert!(handler.initialize().is_none());
    assert!(!handler.initialized);
    let step = handler.on_frame(FrameEvent::UiResize(Some(size(300, 200))));
    assert_eq!(step.effects.len(), 3);
    let step = handler.on_frame(FrameEvent::HostResize(None));
    assert!(step.effects.is_empty());
    assert!(matches!(step.request, FrameRequest::Stop));
    assert!(handler.prepare_render(100, true).is_none());
}

#[test]
fn a_ui_resize_asks_the_window_and_the_host() {
    let mut handler = initialized();
    let step = handler.on_frame(FrameEvent::UiResize(Some(size(640, 480))));
    assert_eq!(
        step.effects,
        vec![
            Effect::ResizeWindow(size(640, 480)),
            Effect::StoreSize(size(640, 480)),
            Effect::NotifyHost
        ]
    );
    assert!(matches!(step.request, FrameRequest::TakeHostResize));
    assert_eq!(handler.size, size(1600, 1200));
}

#[test]
fn unreasonable_ui_resizes_are_dropped() {
    let handler = initialized();
    assert_eq!(handler.ui_resize(Some(size(100, 4096))).len(), 3);
    assert_eq!(handler.ui_resize(Some(size(4096, 100))).len(), 3);
    assert!(handler.ui_resize(Some(size(99, 500))).is_empty());
    assert!(handler.ui_resize(Some(size(500, 99))).is_empty());
    assert!(handler.ui_resize(Some(size(4097, 500))).is_empty());
    assert!(handler.ui_resize(Some(size(500, 4097))).is_empty());
    assert!(handler.ui_resize(None).is_empty());
}

#[test]
fn a_host_resize_does_not_call_back() {
    let mut handler = initialized();
    let pending = HostResize { logical: size(400, 300), physical: size(800, 600) };
    let step = handler.on_frame(FrameEvent::HostResize(Some(pending)));
    assert_eq!(
        step.effects,
        vec![
            Effect::ResizeWindow(size(400, 300)),
            Effect::StoreSize(size(400, 300)),
            Effect::SetViewport(size(800, 600), num(2.0)),
            Effect::ResizeSurface(size(800, 600)),
            Effect::RequestRedraw
        ]
    );
    assert!(matches!(step.request, FrameRequest::Configure));
    assert_eq!(handler.size, size(800, 600));
}

#[test]
fn a_surface_that_is_not_configured_stops_the_frame() {
    let mut handler = initialized();
    assert!(matches!(handler.on_frame(FrameEvent::Configured(false)).request, FrameRequest::Stop));
    assert!(matches!(
        handler.on_frame(FrameEvent::Configured(true)).request,
        FrameRequest::DeliverMessages
    ));
}

#[test]
fn layout_is_throttled() {
    let handler = initialized();
    assert!(!handler.prepare_render(32, false).unwrap().dom_update);
    assert!(handler.prepare_render(33, false).unwrap().dom_update);
    assert!(handler.prepare_render(0, true).unwrap().dom_update);
}

#[test]
fn rendering_is_capped() {
    let mut handler = initialized();
    resize(&mut handler, size(5000, 4096), size(2500, 2048), 2.0);
    let event = FrameEvent::Delivered { dom_age_ms: 0, needs_redraw: false };
    match handler.on_frame(event).request {
        FrameRequest::Render(plan) => {
            assert_eq!(plan.size, size(4096, 4096));
            assert_eq!(plan.scale_factor, num(2.0));
        }
        _ => panic!("not rendered"),
    }
}

#[test]
fn frames_are_counted_until_they_are_reported() {
    let mut handler = initialized();
    for _ in 0..2 {
        let end = handler.finish_frame(false, None);
        assert_eq!((end.frames, end.cursor, end.needs_redraw), (None, None, false));
    }
    assert_eq!(handler.fps_frame_count, 2);
    let event = FrameEvent::Rendered { report_due: true, cursor: Some(CursorIcon::Pointer) };
    match handler.on_frame(event).request {
        FrameRequest::Finish(end) => {
            assert_eq!(end.frames, Some(3));
            assert_eq!(end.cursor, Some(MouseCursor::Hand));
            assert!(!end.needs_redraw);
        }
        _ => panic!("not finished"),
    }
    assert_eq!(handler.fps_frame_count, 0);
}

#[test]
fn a_resize_reaches_the_document_and_the_surface() {
    let mut handler = initialized();
    let outcome = resize(&mut handler, size(900, 700), size(600, 466), 1.5);
    assert_eq!(outcome.status, EventStatus::Captured);
    assert!(outcome.dispatch.is_none());
    assert_eq!(
        outcome.effects,
        vec![
            Effect::StoreSize(size(600, 466)),
            Effect::SetSizeSignal(size(600, 466)),
            Effect::SetViewport(size(900, 700), num(1.5)),
            Effect::ResizeSurface(size(900, 700)),
            Effect::RequestRedraw
        ]
    );
    assert_eq!(handler.size, size(900, 700));
    assert_eq!(handler.scale_factor, num(1.5));
    assert!(handler.received_resize);
}

#[test]
fn input_is_ignored_without_a_document() {
    let mut handler = opened();
    let press = MouseEvent::ButtonPressed { button: MouseButton::Left, modifiers: 0 };
    let outcome = send(&mut handler, Event::Mouse(press));
    assert_eq!(outcome.status, EventStatus::Ignored);
    assert!(outcome.dispatch.is_none());
    assert!(outcome.effects.is_empty());
    assert!(handler.mouse_buttons.is_empty());
}

#[test]
fn input_is_dispatched_and_redrawn() {
    let mut handler = initialized();
    let press = MouseEvent::ButtonPressed { button: MouseButton::Left, modifiers: 0 };
    let outcome = send(&mut handler, Event::Mouse(press));
    assert_eq!(outcome.status, EventStatus::Captured);
    assert!(matches!(outcome.dispatch, Some(UiEvent::PointerDown(_))));
    assert_eq!(outcome.effects, vec![Effect::RequestRedraw]);
    let drag = MouseEvent::CursorMoved {
        position: Vec2 { x: num(-5.0), y: num(9.0) },
        modifiers: 0,
    };
    send(&mut handler, Event::Mouse(drag));
    assert_eq!(handler.mouse_pos, Vec2 { x: num(0.0), y: num(9.0) });
    let outcome = send(&mut handler, Event::Window(WindowEvent::Focused));
    assert_eq!(outcome.status, EventStatus::Ignored);
    assert!(outcome.effects.is_empty());
}

#[test]
fn the_first_layout_comes_last() {
    let steps = init_steps();
    let at = |step: InitStep| steps.iter().position(|s| *s == step).unwrap();
    assert_eq!(steps.len(), 8);
    assert!(at(InitStep::Build) < at(InitStep::DeliverMessages));
    assert!(at(InitStep::DeliverMessages) < at(InitStep::Resolve));
    assert_eq!(at(InitStep::CreateSurface), 0);
}

#[test]
fn a_layout_is_polled_between_marking_and_resolving() {
    let plan = RenderPlan { dom_update: true, size: size(8, 6), scale_factor: num(1.0) };
    assert_eq!(
        plan.steps(),
        vec![
            RenderStep::MarkAllDirty,
            RenderStep::Poll,
            RenderStep::Resolve,
            RenderStep::RestartLayoutClock,
            RenderStep::Render(size(8, 6), num(1.0))
        ]
    );
}

#[test]
fn without_a_layout_the_document_is_only_polled() {
    let plan = RenderPlan { dom_update: false, size: size(8, 6), scale_factor: num(2.0) };
    assert_eq!(plan.steps(), vec![RenderStep::Poll, RenderStep::Render(size(8, 6), num(2.0))]);
}

#[test]
fn components_find_the_size_and_the_shared_state() {
    let mut handler = opened();
    let contexts = handler.initialize().unwrap().contexts(size(400, 300));
    assert_eq!(contexts.size_signal, size(400, 300));
    assert_eq!(contexts.shared_state, Some("shared"));
}

#[test]
fn a_frame_takes_each_step_once() {
    let mut handler = opened();
    resize(&mut handler, size(1600, 1200), size(800, 600), 2.0);
    let mut event = FrameEvent::Started;
    let mut requests = vec![];
    loop {
        let (name, answer) = match handler.on_frame(event).request {
            FrameRequest::Stop => ("stop", None),
            FrameRequest::Initialize(_) => ("initialize", Some(FrameEvent::Initialized)),
            FrameRequest::TakeUiResize => ("ui", Some(FrameEvent::UiResize(None))),
            FrameRequest::TakeHostResize => ("host", Some(FrameEvent::HostResize(None))),
            FrameRequest::Configure => ("configure", Some(FrameEvent::Configured(true))),
            FrameRequest::DeliverMessages => (
                "deliver",
                Some(FrameEvent::Delivered { dom_age_ms: 0, needs_redraw: false }),
            ),
            FrameRequest::Render(_) => (
                "render",
                Some(FrameEvent::Rendered { report_due: false, cursor: None }),
            ),
            FrameRequest::Finish(_) => ("finish", None),
        };
        requests.push(name);
        match answer {
            Some(answer) => event = answer,
            None => break,
        }
    }
    assert_eq!(
        requests,
        vec!["initialize", "ui", "host", "configure", "deliver", "render", "finish"]
    );
}
