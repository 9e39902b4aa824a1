//! The window handler: what happens to the window, frame by frame and event by event.
//!
//! The handler keeps the plain state of the window and decides; the caller owns the window, the
//! document and the surface, and carries out the effects in order.

use vstd::prelude::*;

use crate::cursor::{baseview_cursor, cursor_icon_to_baseview, CursorIcon, MouseCursor};
use crate::editor::Platform;
use crate::events::{
    buttons_after, buttons_stay_well_formed, modifiers_after, position_after, translate_event,
    translated, ui_event_view, valid_limits, Event, MouseButton, MouseEvent, MouseEventButtons,
    UiEvent, WindowEvent, WindowInfo,
};
use crate::scalar::{Scalar, Vec2, ONE, TWO, ZERO};
use crate::size::PixelSize;
use crate::surface::at_least_one;

verus! {

/// The largest extent, in physical pixels, that is rendered: the renderer's textures are limited.
pub const MAX_RENDER_SIZE: u32 = 4096;

/// The document is laid out anew after this many milliseconds, about 30 times a second. Frames in
/// between are rendered from the existing layout.
pub const DOM_UPDATE_INTERVAL_MS: u128 = 33;

/// The least side, in logical pixels, that the UI may resize the window to.
pub const MIN_WINDOW_SIDE: u32 = 100;

/// The greatest side, in logical pixels, that the UI may resize the window to.
pub const MAX_WINDOW_SIDE: u32 = 4096;

/// Something that the caller does for the handler.
#[derive(Clone, Copy, Debug, PartialEq, Eq, Structural)]
pub enum Effect {
    /// Ask the window system for this logical size.
    ResizeWindow(PixelSize),
    /// Store this logical size, for persistence and for the host to query.
    StoreSize(PixelSize),
    /// Tell the host that the editor wants to be resized.
    NotifyHost,
    /// Set the size that components observe to this logical size.
    SetSizeSignal(PixelSize),
    /// Give the document a viewport of this physical size and this scale factor.
    SetViewport(PixelSize, Scalar),
    /// Resize the surface to this physical size.
    ResizeSurface(PixelSize),
    /// Redraw at the next frame.
    RequestRedraw,
}

/// How a frame begins.
#[derive(Clone, Copy, Debug, PartialEq, Eq, Structural)]
pub enum FrameStart {
    /// Skip the frame: the window has not reported its size and scale factor yet.
    Wait,
    /// Call [`DioxusWindowHandler::initialize`], then go on.
    Initialize,
    /// Go on.
    Proceed,
}

/// What the document, the renderer and the surface are created with.
pub struct InitPlan<Sh> {
    /// The surface's physical size.
    pub surface: PixelSize,
    /// The viewport's physical size.
    pub viewport: PixelSize,
    pub scale_factor: Scalar,
    /// The shared state to inject into the document's context.
    pub shared_state: Option<Sh>,
}

/// What components find in their context, beside the means to reach the editor.
pub struct RootContexts<Sh> {
    /// The logical size that components observe, to begin with.
    pub size_signal: PixelSize,
    /// The shared state, where the editor has one.
    pub shared_state: Option<Sh>,
}

impl<Sh> InitPlan<Sh> {
    /// What is provided to components, beside the means to reach the editor.
    pub open spec fn provided(self, logical: PixelSize) -> RootContexts<Sh> {
        RootContexts { size_signal: logical, shared_state: self.shared_state }
    }

    /// What to provide to components before they run for the first time. `logical` is the editor's
    /// inner size in logical pixels at that time.
    pub fn contexts(self, logical: PixelSize) -> (r: RootContexts<Sh>)
        ensures
            r.size_signal == logical,
            r.shared_state == self.shared_state,
            r == self.provided(logical),
    {
        RootContexts { size_signal: logical, shared_state: self.shared_state }
    }
}

/// A step of creating the document, the renderer and the surface.
#[derive(Clone, Copy, Debug, PartialEq, Eq, Structural)]
pub enum InitStep {
    CreateSurface,
    CreateRenderer,
    /// With the viewport of the plan.
    CreateDocument,
    /// Cursors that the document asks for are queued from here on.
    ConnectShell,
    /// Provide what components find in their context: [`InitPlan::contexts`] among it.
    ProvideContexts,
    /// Run the components for the first time. They may ask for head elements.
    Build,
    /// Create the head elements that components asked for, by [`crate::document::HeadTally`].
    DeliverMessages,
    /// Lay the document out for the first time.
    Resolve,
}

/// A resize that the host drives.
#[derive(Clone, Copy, Debug, PartialEq, Eq, Structural)]
pub struct HostResize {
    pub logical: PixelSize,
    /// The logical size, scaled by the window's scale factor.
    pub physical: PixelSize,
}

/// How a frame is rendered.
#[derive(Clone, Copy, Debug, PartialEq, Eq, Structural)]
pub struct RenderPlan {
    /// Whether the document is laid out anew first.
    pub dom_update: bool,
    /// The physical size to render at.
    pub size: PixelSize,
    pub scale_factor: Scalar,
}

/// A step of rendering a frame.
#[derive(Clone, Copy, Debug, PartialEq, Eq, Structural)]
pub enum RenderStep {
    /// Have every component run anew.
    MarkAllDirty,
    /// Let the document take in what happened, user interactions among it.
    Poll,
    /// Lay the document out.
    Resolve,
    /// Note that the document was laid out now.
    RestartLayoutClock,
    /// Render the document at this physical size and scale factor.
    Render(PixelSize, Scalar),
}

impl RenderPlan {
    /// The steps of rendering a frame, in order.
    pub open spec fn in_order(self) -> Seq<RenderStep> {
        if self.dom_update {
            seq![
                RenderStep::MarkAllDirty,
                RenderStep::Poll,
                RenderStep::Resolve,
                RenderStep::RestartLayoutClock,
                RenderStep::Render(self.size, self.scale_factor),
            ]
        } else {
            seq![RenderStep::Poll, RenderStep::Render(self.size, self.scale_factor)]
        }
    }

    /// The steps of rendering a frame, in order. Without a layout, the document is only polled and
    /// rendered from the layout that it has.
    pub fn steps(self) -> (r: Vec<RenderStep>)
        ensures
            r@ == self.in_order(),
    {
        if self.dom_update {
            vec![
                RenderStep::MarkAllDirty,
                RenderStep::Poll,
                RenderStep::Resolve,
                RenderStep::RestartLayoutClock,
                RenderStep::Render(self.size, self.scale_factor),
            ]
        } else {
            vec![RenderStep::Poll, RenderStep::Render(self.size, self.scale_factor)]
        }
    }
}

/// What is left to do at the end of a frame.
#[derive(Clone, Copy, Debug, PartialEq, Eq, Structural)]
pub struct FrameEnd {
    /// The frames since the last report, where one is due.
    pub frames: Option<u32>,
    /// The cursor to show, where the document asked for one.
    pub cursor: Option<MouseCursor>,
    /// What the redraw flag is set to.
    pub needs_redraw: bool,
}

/// What a frame has come to.
#[derive(Clone, Copy, Debug, PartialEq, Eq, Structural)]
pub enum FrameEvent {
    /// The window system asks for a frame.
    Started,
    /// The document, the renderer and the surface were created.
    Initialized,
    /// The resize that the UI asked for since the last frame, if any.
    UiResize(Option<PixelSize>),
    /// The resize that the host drove since the last frame, if any.
    HostResize(Option<HostResize>),
    /// Whether the surface can be presented to.
    Configured(bool),
    /// The head elements that components asked for were created.
    Delivered {
        /// How many milliseconds ago the document was last laid out.
        dom_age_ms: u128,
        needs_redraw: bool,
    },
    /// The frame was rendered.
    Rendered {
        /// Whether a second has passed since the frame rate was last reported.
        report_due: bool,
        /// The cursor that the document asked for.
        cursor: Option<CursorIcon>,
    },
}

/// What a frame needs next. The caller does it, and reports the event that it led to.
pub enum FrameRequest<Sh> {
    /// Nothing: the frame ends here.
    Stop,
    /// Create the document, the renderer and the surface.
    Initialize(InitPlan<Sh>),
    /// Take the resize that the UI asked for.
    TakeUiResize,
    /// Take the resize that the host drove.
    TakeHostResize,
    /// Configure the surface, if it is not.
    Configure,
    /// Create the head elements that components asked for.
    DeliverMessages,
    /// Take the steps of the plan.
    Render(RenderPlan),
    /// Report and show what has to be, and end the frame.
    Finish(FrameEnd),
}

/// A step of a frame: effects to carry out, and what follows them.
pub struct FrameStep<Sh> {
    pub effects: Vec<Effect>,
    pub request: FrameRequest<Sh>,
}

/// Whether an event was used.
#[derive(Clone, Copy, Debug, PartialEq, Eq, Structural)]
pub enum EventStatus {
    /// The event was handled, and is not sent on.
    Captured,
    /// The event was not handled; the platform gets it back.
    Ignored,
}

/// What an event leads to.
pub struct EventOutcome {
    pub status: EventStatus,
    /// The event for the document, to be handed to it before the effects.
    pub dispatch: Option<UiEvent>,
    pub effects: Vec<Effect>,
}

/// The state of an editor's window.
pub struct DioxusWindowHandler<Sh> {
    /// Whether the window gave its native handles: nothing can be rendered without them.
    pub has_handles: bool,
    /// Whether the document, the renderer and the surface exist.
    pub initialized: bool,
    /// State for the document's context, until the document exists.
    pub shared_state: Option<Sh>,
    pub mouse_pos: Vec2,
    pub mouse_buttons: MouseEventButtons,
    /// The bits of the modifiers that are held.
    pub modifiers: u32,
    /// The window's size in physical pixels.
    pub size: PixelSize,
    pub scale_factor: Scalar,
    /// Whether the window has reported its size and scale factor.
    pub received_resize: bool,
    pub fps_frame_count: u32,
}

/// The scale factor to start from: 2.0 on macOS, where displays mostly have it, else 1.0. It is
/// corrected at the first resize.
pub open spec fn starting_scale(platform: Platform) -> Scalar {
    match platform {
        Platform::MacOs => Scalar { bits: TWO },
        Platform::Other => Scalar { bits: ONE },
    }
}

/// The scale factor to start from.
pub fn initial_scale_factor(platform: Platform) -> (r: Scalar)
    ensures
        r == starting_scale(platform),
{
    match platform {
        Platform::MacOs => Scalar { bits: TWO },
        Platform::Other => Scalar { bits: ONE },
    }
}

/// The steps of creating the document, the renderer and the surface, in order.
pub open spec fn initialization() -> Seq<InitStep> {
    seq![
        InitStep::CreateSurface,
        InitStep::CreateRenderer,
        InitStep::CreateDocument,
        InitStep::ConnectShell,
        InitStep::ProvideContexts,
        InitStep::Build,
        InitStep::DeliverMessages,
        InitStep::Resolve,
    ]
}

/// The steps to take once there is an [`InitPlan`], in order.
pub fn init_steps() -> (r: Vec<InitStep>)
    ensures
        r@ == initialization(),
{
    vec![
        InitStep::CreateSurface,
        InitStep::CreateRenderer,
        InitStep::CreateDocument,
        InitStep::ConnectShell,
        InitStep::ProvideContexts,
        InitStep::Build,
        InitStep::DeliverMessages,
        InitStep::Resolve,
    ]
}

/// Whether the UI may resize the window to this logical size.
pub open spec fn acceptable_size(size: PixelSize) -> bool {
    &&& MIN_WINDOW_SIDE <= size.width <= MAX_WINDOW_SIDE
    &&& MIN_WINDOW_SIDE <= size.height <= MAX_WINDOW_SIDE
}

/// What a resize request of the UI leads to: the window and the host are asked, or the request is
/// dropped where the size makes no sense.
pub open spec fn ui_resize_effects(pending: Option<PixelSize>) -> Seq<Effect> {
    match pending {
        Some(size) => if acceptable_size(size) {
            seq![Effect::ResizeWindow(size), Effect::StoreSize(size), Effect::NotifyHost]
        } else {
            seq![]
        },
        None => seq![],
    }
}

/// What a new physical size means for the document and the surface, if they exist.
pub open spec fn redraw_effects(initialized: bool, physical: PixelSize, scale_factor: Scalar)
    -> Seq<Effect> {
    if initialized {
        seq![
            Effect::SetViewport(physical, scale_factor),
            Effect::ResizeSurface(physical),
            Effect::RequestRedraw,
        ]
    } else {
        seq![Effect::RequestRedraw]
    }
}

/// What a resize that the window system reports leads to.
pub open spec fn resized_effects(initialized: bool, info: WindowInfo) -> Seq<Effect> {
    let observed = if initialized {
        seq![Effect::StoreSize(info.logical), Effect::SetSizeSignal(info.logical)]
    } else {
        seq![Effect::StoreSize(info.logical)]
    };
    observed + redraw_effects(initialized, info.physical, info.scale_factor)
}

/// What input leads to: a redraw, where the document was told of it.
pub open spec fn input_effects(dispatched: bool) -> Seq<Effect> {
    if dispatched {
        seq![Effect::RequestRedraw]
    } else {
        seq![]
    }
}

/// An extent, cut to what is rendered.
pub open spec fn capped(extent: u32) -> u32 {
    if extent > MAX_RENDER_SIZE {
        MAX_RENDER_SIZE
    } else {
        extent
    }
}

impl<Sh> DioxusWindowHandler<Sh> {
    /// Only the bits of buttons are set.
    pub open spec fn wf(self) -> bool {
        self.mouse_buttons.wf()
    }

    /// The state of a window that was just opened.
    pub open spec fn opened(
        platform: Platform,
        physical: PixelSize,
        has_handles: bool,
        shared_state: Option<Sh>,
    ) -> DioxusWindowHandler<Sh> {
        let zero = Scalar { bits: ZERO };
        DioxusWindowHandler {
            has_handles,
            initialized: false,
            shared_state,
            mouse_pos: Vec2 { x: zero, y: zero },
            mouse_buttons: MouseEventButtons { bits: 0 },
            modifiers: 0,
            size: physical,
            scale_factor: starting_scale(platform),
            received_resize: false,
            fps_frame_count: 0,
        }
    }

    /// Creates a window handler. `physical` is the editor's logical size, scaled by
    /// [`initial_scale_factor`].
    pub fn new(platform: Platform, physical: PixelSize, has_handles: bool) -> (r:
        DioxusWindowHandler<Sh>)
        ensures
            r == Self::opened(platform, physical, has_handles, None),
            r.wf(),
    {
        Self::new_with_state(platform, physical, has_handles, None)
    }

    /// Creates a window handler with shared state, which will be injected into the document's
    /// context.
    pub fn new_with_state(
        platform: Platform,
        physical: PixelSize,
        has_handles: bool,
        shared_state: Option<Sh>,
    ) -> (r: DioxusWindowHandler<Sh>)
        ensures
            r == Self::opened(platform, physical, has_handles, shared_state),
            r.wf(),
    {
        let zero: Scalar = Scalar { bits: ZERO };
        DioxusWindowHandler {
            has_handles,
            initialized: false,
            shared_state,
            mouse_pos: Vec2 { x: zero, y: zero },
            mouse_buttons: MouseEventButtons::empty(),
            modifiers: 0,
            size: physical,
            scale_factor: initial_scale_factor(platform),
            received_resize: false,
            fps_frame_count: 0,
        }
    }

    /// How the next frame begins.
    pub open spec fn frame_start(self) -> FrameStart {
        if self.initialized {
            FrameStart::Proceed
        } else if self.received_resize {
            FrameStart::Initialize
        } else {
            FrameStart::Wait
        }
    }

    /// Begins a frame. Nothing is created before the first resize, which brings the actual scale
    /// factor.
    pub fn begin_frame(&self) -> (r: FrameStart)
        ensures
            r == self.frame_start(),
    {
        if self.initialized {
            FrameStart::Proceed
        } else if self.received_resize {
            FrameStart::Initialize
        } else {
            FrameStart::Wait
        }
    }

    /// What the document, the renderer and the surface are created with.
    pub open spec fn init_plan(self) -> InitPlan<Sh> {
        InitPlan {
            surface: PixelSize {
                width: at_least_one(self.size.width),
                height: at_least_one(self.size.height),
            },
            viewport: self.size,
            scale_factor: self.scale_factor,
            shared_state: self.shared_state,
        }
    }

    /// The handler once the document, the renderer and the surface are planned: the shared state
    /// went into the plan.
    pub open spec fn after_initialize(self) -> DioxusWindowHandler<Sh> {
        DioxusWindowHandler { initialized: true, shared_state: None, ..self }
    }

    /// Plans the document, the renderer and the surface. The caller creates all three.
    ///
    /// Without the window's native handles there is no plan and nothing changes.
    pub fn initialize(&mut self) -> (r: Option<InitPlan<Sh>>)
        ensures
            old(self).has_handles ==> r == Some(old(self).init_plan()),
            old(self).has_handles ==> *final(self) == old(self).after_initialize(),
            !old(self).has_handles ==> r is None,
            !old(self).has_handles ==> *final(self) == *old(self),
    {
        if !self.has_handles {
            return None;
        }
        let shared_state: Option<Sh> = self.shared_state.take();
        self.initialized = true;
        let width: u32 = self.size.width;
        let height: u32 = self.size.height;
        Some(
            InitPlan {
                surface: PixelSize {
                    width: if width == 0 { 1 } else { width },
                    height: if height == 0 { 1 } else { height },
                },
                viewport: self.size,
                scale_factor: self.scale_factor,
                shared_state,
            },
        )
    }

    /// Takes in a resize that the UI asked for, in logical pixels.
    ///
    /// The resize is only requested here. The size, the viewport and the surface change when the
    /// window system reports the resize: to change them now would render at a size that the
    /// window does not have.
    pub fn ui_resize(&self, pending: Option<PixelSize>) -> (r: Vec<Effect>)
        ensures
            r@ == ui_resize_effects(pending),
    {
        match pending {
            Some(size) => {
                if size.width > MAX_WINDOW_SIDE || size.height > MAX_WINDOW_SIDE || size.width
                    < MIN_WINDOW_SIDE || size.height < MIN_WINDOW_SIDE {
                    vec![]
                } else {
                    vec![Effect::ResizeWindow(size), Effect::StoreSize(size), Effect::NotifyHost]
                }
            },
            None => vec![],
        }
    }

    /// What a resize by the host leads to. The host is not told: it is driving the resize, and
    /// calling back would loop.
    pub open spec fn host_resize_effects(self, pending: Option<HostResize>) -> Seq<Effect> {
        match pending {
            Some(resize) => seq![
                Effect::ResizeWindow(resize.logical),
                Effect::StoreSize(resize.logical),
            ] + redraw_effects(self.initialized, resize.physical, self.scale_factor),
            None => seq![],
        }
    }

    /// The handler after a resize by the host.
    pub open spec fn after_host_resize(self, pending: Option<HostResize>) -> DioxusWindowHandler<
        Sh,
    > {
        match pending {
            Some(resize) => DioxusWindowHandler { size: resize.physical, ..self },
            None => self,
        }
    }

    /// Takes in a resize that the host drives.
    pub fn host_resize(&mut self, pending: Option<HostResize>) -> (r: Vec<Effect>)
        ensures
            r@ == old(self).host_resize_effects(pending),
            *final(self) == old(self).after_host_resize(pending),
    {
        match pending {
            Some(resize) => {
                let mut effects: Vec<Effect> = vec![
                    Effect::ResizeWindow(resize.logical),
                    Effect::StoreSize(resize.logical),
                ];
                self.size = resize.physical;
                if self.initialized {
                    effects.push(Effect::SetViewport(resize.physical, self.scale_factor));
                    effects.push(Effect::ResizeSurface(resize.physical));
                }
                effects.push(Effect::RequestRedraw);
                proof {
                    assert(effects@ =~= old(self).host_resize_effects(pending));
                }
                effects
            },
            None => vec![],
        }
    }

    /// How a frame is rendered, where it is.
    pub open spec fn render_plan(self, dom_age_ms: u128, needs_redraw: bool)
        -> Option<RenderPlan> {
        if self.initialized {
            Some(
                RenderPlan {
                    dom_update: dom_age_ms >= DOM_UPDATE_INTERVAL_MS || needs_redraw,
                    size: PixelSize {
                        width: capped(self.size.width),
                        height: capped(self.size.height),
                    },
                    scale_factor: self.scale_factor,
                },
            )
        } else {
            None
        }
    }

    /// Plans the rendering of a frame. `dom_age_ms` says how many milliseconds ago the document was
    /// last laid out. Without a document there is no plan.
    pub fn prepare_render(&self, dom_age_ms: u128, needs_redraw: bool) -> (r: Option<RenderPlan>)
        ensures
            r == self.render_plan(dom_age_ms, needs_redraw),
    {
        if !self.initialized {
            return None;
        }
        let width: u32 = self.size.width;
        let height: u32 = self.size.height;
        Some(
            RenderPlan {
                dom_update: dom_age_ms >= DOM_UPDATE_INTERVAL_MS || needs_redraw,
                size: PixelSize {
                    width: if width > MAX_RENDER_SIZE { MAX_RENDER_SIZE } else { width },
                    height: if height > MAX_RENDER_SIZE { MAX_RENDER_SIZE } else { height },
                },
                scale_factor: self.scale_factor,
            },
        )
    }

    /// What is left to do at the end of a frame.
    pub open spec fn frame_end(self, report_due: bool, cursor: Option<CursorIcon>) -> FrameEnd {
        FrameEnd {
            frames: if report_due {
                Some((self.fps_frame_count + 1) as u32)
            } else {
                None
            },
            cursor: match cursor {
                Some(icon) => Some(baseview_cursor(icon)),
                None => None,
            },
            needs_redraw: false,
        }
    }

    /// The handler after a frame: one more frame was counted, and a report starts the count anew.
    pub open spec fn after_frame(self, report_due: bool) -> DioxusWindowHandler<Sh> {
        DioxusWindowHandler {
            fps_frame_count: if report_due {
                0
            } else {
                (self.fps_frame_count + 1) as u32
            },
            ..self
        }
    }

    /// Ends a frame that was rendered. `report_due` says whether a second has passed since the
    /// frame rate was last reported, `cursor` is the cursor that the document asked for.
    pub fn finish_frame(&mut self, report_due: bool, cursor: Option<CursorIcon>) -> (r: FrameEnd)
        requires
            old(self).fps_frame_count < u32::MAX,
        ensures
            r == old(self).frame_end(report_due, cursor),
            *final(self) == old(self).after_frame(report_due),
    {
        let count: u32 = self.fps_frame_count + 1;
        self.fps_frame_count = if report_due { 0 } else { count };
        FrameEnd {
            frames: if report_due { Some(count) } else { None },
            cursor: match cursor {
                Some(icon) => Some(cursor_icon_to_baseview(icon)),
                None => None,
            },
            needs_redraw: false,
        }
    }

    /// What a frame needs after an event.
    pub open spec fn requested(self, event: FrameEvent) -> FrameRequest<Sh> {
        match event {
            FrameEvent::Started => match self.frame_start() {
                FrameStart::Wait => FrameRequest::Stop,
                FrameStart::Initialize => if self.has_handles {
                    FrameRequest::Initialize(self.init_plan())
                } else {
                    FrameRequest::TakeUiResize
                },
                FrameStart::Proceed => FrameRequest::TakeUiResize,
            },
            FrameEvent::Initialized => FrameRequest::TakeUiResize,
            FrameEvent::UiResize(_) => FrameRequest::TakeHostResize,
            FrameEvent::HostResize(_) => if self.initialized {
                FrameRequest::Configure
            } else {
                FrameRequest::Stop
            },
            FrameEvent::Configured(configured) => if configured {
                FrameRequest::DeliverMessages
            } else {
                FrameRequest::Stop
            },
            FrameEvent::Delivered { dom_age_ms, needs_redraw } => match self.render_plan(
                dom_age_ms,
                needs_redraw,
            ) {
                Some(plan) => FrameRequest::Render(plan),
                None => FrameRequest::Stop,
            },
            FrameEvent::Rendered { report_due, cursor } => FrameRequest::Finish(
                self.frame_end(report_due, cursor),
            ),
        }
    }

    /// What a frame does to the window on an event: only resizes have effects.
    pub open spec fn frame_effects(self, event: FrameEvent) -> Seq<Effect> {
        match event {
            FrameEvent::UiResize(pending) => ui_resize_effects(pending),
            FrameEvent::HostResize(pending) => self.host_resize_effects(pending),
            _ => seq![],
        }
    }

    /// The handler after an event of a frame.
    pub open spec fn after_frame_event(self, event: FrameEvent) -> DioxusWindowHandler<Sh> {
        match event {
            FrameEvent::Started => if self.frame_start() is Initialize && self.has_handles {
                self.after_initialize()
            } else {
                self
            },
            FrameEvent::HostResize(pending) => self.after_host_resize(pending),
            FrameEvent::Rendered { report_due, .. } => self.after_frame(report_due),
            _ => self,
        }
    }

    /// Takes a frame one step further.
    ///
    /// A frame starts with [`FrameEvent::Started`] and goes on until the request is
    /// [`FrameRequest::Stop`] or [`FrameRequest::Finish`]. The frame before the first resize stops
    /// at once, so that the resizes that are pending stay so.
    pub fn on_frame(&mut self, event: FrameEvent) -> (r: FrameStep<Sh>)
        requires
            event is Rendered ==> old(self).fps_frame_count < u32::MAX,
        ensures
            r.request == old(self).requested(event),
            r.effects@ == old(self).frame_effects(event),
            *final(self) == old(self).after_frame_event(event),
    {
        match event {
            FrameEvent::Started => {
                let request: FrameRequest<Sh> = match self.begin_frame() {
                    FrameStart::Wait => FrameRequest::Stop,
                    FrameStart::Initialize => match self.initialize() {
                        Some(plan) => FrameRequest::Initialize(plan),
                        None => FrameRequest::TakeUiResize,
                    },
                    FrameStart::Proceed => FrameRequest::TakeUiResize,
                };
                FrameStep { effects: vec![], request }
            },
            FrameEvent::Initialized => FrameStep {
                effects: vec![],
                request: FrameRequest::TakeUiResize,
            },
            FrameEvent::UiResize(pending) => FrameStep {
                effects: self.ui_resize(pending),
                request: FrameRequest::TakeHostResize,
            },
            FrameEvent::HostResize(pending) => {
                let effects: Vec<Effect> = self.host_resize(pending);
                let request: FrameRequest<Sh> = if self.initialized {
                    FrameRequest::Configure
                } else {
                    FrameRequest::Stop
                };
                FrameStep { effects, request }
            },
            FrameEvent::Configured(configured) => FrameStep {
                effects: vec![],
                request: if configured {
                    FrameRequest::DeliverMessages
                } else {
                    FrameRequest::Stop
                },
            },
            FrameEvent::Delivered { dom_age_ms, needs_redraw } => {
                let request: FrameRequest<Sh> = match self.prepare_render(dom_age_ms, needs_redraw) {
                    Some(plan) => FrameRequest::Render(plan),
                    None => FrameRequest::Stop,
                };
                FrameStep { effects: vec![], request }
            },
            FrameEvent::Rendered { report_due, cursor } => {
                let end: FrameEnd = self.finish_frame(report_due, cursor);
                FrameStep { effects: vec![], request: FrameRequest::Finish(end) }
            },
        }
    }

    /// What an event does to the handler. A resize replaces the size and the scale factor. Other
    /// events are input, which is not tracked before there is a document.
    pub open spec fn after_event(self, event: Event, limits: Vec2) -> DioxusWindowHandler<Sh> {
        match event {
            Event::Window(WindowEvent::Resized(info)) => DioxusWindowHandler {
                size: info.physical,
                scale_factor: info.scale_factor,
                received_resize: true,
                ..self
            },
            _ => if self.initialized {
                DioxusWindowHandler {
                    mouse_pos: position_after(event, self.mouse_pos, self.mouse_buttons, limits),
                    mouse_buttons: buttons_after(event, self.mouse_buttons),
                    modifiers: modifiers_after(event, self.modifiers),
                    ..self
                }
            } else {
                self
            },
        }
    }

    /// What an event leads to: its outcome `status`, `dispatch` and `effects`.
    pub open spec fn event_outcome(self, event: Event, limits: Vec2, outcome: EventOutcome) -> bool {
        match event {
            Event::Window(WindowEvent::Resized(info)) => {
                &&& outcome.status == EventStatus::Captured
                &&& outcome.dispatch is None
                &&& outcome.effects@ == resized_effects(self.initialized, info)
            },
            _ => {
                let ui_event = if self.initialized {
                    translated(event, self.mouse_pos, self.mouse_buttons, limits)
                } else {
                    None
                };
                &&& ui_event_view(outcome.dispatch) == ui_event
                &&& outcome.status == if ui_event is Some {
                    EventStatus::Captured
                } else {
                    EventStatus::Ignored
                }
                &&& outcome.effects@ == input_effects(ui_event is Some)
            },
        }
    }

    /// Takes in an event of the window. `limits` is the last position inside the window.
    pub fn on_event(&mut self, event: &Event, limits: Vec2) -> (r: EventOutcome)
        requires
            valid_limits(limits),
        ensures
            *final(self) == old(self).after_event(*event, limits),
            old(self).event_outcome(*event, limits, r),
            old(self).wf() ==> final(self).wf(),
    {
        proof {
            if self.wf() {
                buttons_stay_well_formed(*event, self.mouse_buttons);
            }
        }
        match event {
            Event::Window(WindowEvent::Resized(info)) => {
                self.size = info.physical;
                self.scale_factor = info.scale_factor;
                self.received_resize = true;
                let mut effects: Vec<Effect> = vec![Effect::StoreSize(info.logical)];
                if self.initialized {
                    effects.push(Effect::SetSizeSignal(info.logical));
                    effects.push(Effect::SetViewport(info.physical, info.scale_factor));
                    effects.push(Effect::ResizeSurface(info.physical));
                }
                effects.push(Effect::RequestRedraw);
                proof {
                    assert(effects@ =~= resized_effects(old(self).initialized, *info));
                }
                EventOutcome { status: EventStatus::Captured, dispatch: None, effects }
            },
            _ => {
                let mut effects: Vec<Effect> = vec![];
                let mut dispatch: Option<UiEvent> = None;
                let mut status: EventStatus = EventStatus::Ignored;
                if self.initialized {
                    dispatch = translate_event(
                        event,
                        &mut self.mouse_pos,
                        &mut self.mouse_buttons,
                        &mut self.modifiers,
                        limits,
                    );
                    if dispatch.is_some() {
                        status = EventStatus::Captured;
                        effects.push(Effect::RequestRedraw);
                    }
                }
                proof {
                    assert(effects@ =~= input_effects(dispatch is Some));
                }
                EventOutcome { status, dispatch, effects }
            },
        }
    }
}

/// The host is never told of a resize that it drives itself: calling back would loop.
pub proof fn a_host_resize_does_not_notify_the_host<Sh>(
    handler: DioxusWindowHandler<Sh>,
    pending: Option<HostResize>,
)
    ensures
        !handler.frame_effects(FrameEvent::HostResize(pending)).contains(Effect::NotifyHost),
{
    let effects = handler.frame_effects(FrameEvent::HostResize(pending));
    assert forall|i: int| 0 <= i < effects.len() implies effects[i] != Effect::NotifyHost by {
        match pending {
            Some(resize) => {
                let redraw = redraw_effects(
                    handler.initialized,
                    resize.physical,
                    handler.scale_factor,
                );
                if i >= 2 {
                    assert(effects[i] == redraw[i - 2]);
                }
            },
            None => {},
        }
    }
}

/// Of everything that happens to a window, only a resize that the UI asks for notifies the host,
/// and only where its size is acceptable.
pub proof fn only_an_acceptable_ui_resize_notifies_the_host<Sh>(
    handler: DioxusWindowHandler<Sh>,
    event: FrameEvent,
)
    ensures
        handler.frame_effects(event).contains(Effect::NotifyHost) <==> (event matches
            FrameEvent::UiResize(Some(size)) && acceptable_size(size)),
{
    match event {
        FrameEvent::UiResize(Some(size)) => {
            if acceptable_size(size) {
                assert(handler.frame_effects(event)[2] == Effect::NotifyHost);
            }
        },
        FrameEvent::HostResize(pending) => {
            a_host_resize_does_not_notify_the_host(handler, pending);
        },
        _ => {},
    }
}

/// A resize that the UI asks for only asks: the handler keeps its size, and neither the viewport
/// nor the surface changes, until the window system reports the resize.
pub proof fn a_ui_resize_only_asks<Sh>(
    handler: DioxusWindowHandler<Sh>,
    pending: Option<PixelSize>,
    size: PixelSize,
    scale_factor: Scalar,
)
    ensures
        handler.after_frame_event(FrameEvent::UiResize(pending)) == handler,
        !handler.frame_effects(FrameEvent::UiResize(pending)).contains(Effect::ResizeSurface(size)),
        !handler.frame_effects(FrameEvent::UiResize(pending)).contains(
            Effect::SetViewport(size, scale_factor),
        ),
{
}

/// Until the window system has reported a size, a frame stops at once and changes nothing.
pub proof fn no_frame_before_the_first_resize<Sh>(handler: DioxusWindowHandler<Sh>)
    requires
        !handler.received_resize,
        !handler.initialized,
    ensures
        handler.requested(FrameEvent::Started) is Stop,
        handler.after_frame_event(FrameEvent::Started) == handler,
        handler.frame_effects(FrameEvent::Started) == Seq::<Effect>::empty(),
{
}

/// After a resize the handler has the window's physical size and scale factor, and the next frame
/// does not wait. Where the window gave its handles the next frame leads to a document.
pub proof fn a_resize_starts_the_window<Sh>(
    handler: DioxusWindowHandler<Sh>,
    info: WindowInfo,
    limits: Vec2,
)
    ensures
        ({
            let resized = handler.after_event(Event::Window(WindowEvent::Resized(info)), limits);
            &&& resized.size == info.physical
            &&& resized.scale_factor == info.scale_factor
            &&& !(resized.requested(FrameEvent::Started) is Stop)
            &&& handler.has_handles ==> resized.after_frame_event(FrameEvent::Started).initialized
        }),
{
}

/// A document is created once: an initialized handler stays initialized, and never asks to be
/// initialized again.
pub proof fn a_document_is_created_once<Sh>(
    handler: DioxusWindowHandler<Sh>,
    event: Event,
    limits: Vec2,
    frame_event: FrameEvent,
)
    requires
        handler.initialized,
    ensures
        handler.after_event(event, limits).initialized,
        handler.after_frame_event(frame_event).initialized,
        !(handler.requested(frame_event) is Initialize),
{
}

/// A window that has reported its size stays ready, whatever happens to it.
pub proof fn a_window_stays_ready<Sh>(
    handler: DioxusWindowHandler<Sh>,
    event: Event,
    limits: Vec2,
    frame_event: FrameEvent,
)
    requires
        handler.received_resize,
    ensures
        handler.after_event(event, limits).received_resize,
        handler.after_frame_event(frame_event).received_resize,
{
}

/// The shared state goes to the document that is created, and to no other: initializing hands it
/// out and keeps nothing.
pub proof fn shared_state_is_handed_out_once<Sh>(handler: DioxusWindowHandler<Sh>)
    requires
        handler.received_resize,
        !handler.initialized,
        handler.has_handles,
    ensures
        handler.requested(FrameEvent::Started) matches FrameRequest::Initialize(plan)
            && plan.shared_state == handler.shared_state,
        handler.after_frame_event(FrameEvent::Started).shared_state is None,
{
}

/// What is rendered is no larger than the window, and no larger than the renderer's limit.
pub proof fn rendering_is_bounded<Sh>(
    handler: DioxusWindowHandler<Sh>,
    dom_age_ms: u128,
    needs_redraw: bool,
)
    ensures
        handler.requested(FrameEvent::Delivered { dom_age_ms, needs_redraw }) matches
            FrameRequest::Render(plan) ==> {
            &&& plan.size.width <= MAX_RENDER_SIZE && plan.size.width <= handler.size.width
            &&& plan.size.height <= MAX_RENDER_SIZE && plan.size.height <= handler.size.height
        },
{
}

/// Nothing is rendered without a document.
pub proof fn nothing_is_rendered_without_a_document<Sh>(
    handler: DioxusWindowHandler<Sh>,
    event: FrameEvent,
)
    requires
        !handler.initialized,
    ensures
        !(handler.requested(event) is Render),
{
}

/// A redraw that was requested is laid out in the next frame, however recent the last layout is,
/// and the frame's end clears the request.
pub proof fn a_requested_redraw_is_laid_out<Sh>(
    handler: DioxusWindowHandler<Sh>,
    dom_age_ms: u128,
    report_due: bool,
    cursor: Option<CursorIcon>,
)
    requires
        handler.initialized,
    ensures
        handler.requested(FrameEvent::Delivered { dom_age_ms, needs_redraw: true }) matches
            FrameRequest::Render(plan) && plan.dom_update,
        handler.requested(FrameEvent::Rendered { report_due, cursor }) matches
            FrameRequest::Finish(end) && !end.needs_redraw,
{
}

/// Without a document, input is ignored and leaves no trace.
pub proof fn input_before_the_document_is_ignored<Sh>(
    handler: DioxusWindowHandler<Sh>,
    event: Event,
    limits: Vec2,
    outcome: EventOutcome,
)
    requires
        !handler.initialized,
        !(event matches Event::Window(WindowEvent::Resized(_))),
        handler.event_outcome(event, limits, outcome),
    ensures
        handler.after_event(event, limits) == handler,
        outcome.status == EventStatus::Ignored,
        outcome.dispatch is None,
        outcome.effects@.len() == 0,
{
}

/// An event is captured exactly where it is a resize or the document is told of it, and every
/// event that is captured leads to a redraw.
pub proof fn captured_events_are_redrawn<Sh>(
    handler: DioxusWindowHandler<Sh>,
    event: Event,
    limits: Vec2,
    outcome: EventOutcome,
)
    requires
        handler.event_outcome(event, limits, outcome),
    ensures
        outcome.status == EventStatus::Captured <==> (event matches Event::Window(
            WindowEvent::Resized(_),
        ) || outcome.dispatch is Some),
        outcome.status == EventStatus::Captured <==> outcome.effects@.contains(
            Effect::RequestRedraw,
        ),
{
    match event {
        Event::Window(WindowEvent::Resized(info)) => {
            let effects = resized_effects(handler.initialized, info);
            assert(effects.last() == Effect::RequestRedraw);
        },
        _ => {
            if outcome.dispatch is Some {
                assert(outcome.effects@[0] == Effect::RequestRedraw);
            }
        },
    }
}

/// Styles are in the document before it is laid out: the first layout comes after the head elements
/// that the first build asked for, and a frame is rendered only after those that components asked
/// for since.
pub proof fn styles_precede_layout<Sh>(handler: DioxusWindowHandler<Sh>, event: FrameEvent)
    ensures
        exists|i: int, j: int, k: int|
            0 <= i < j < k < initialization().len() && #[trigger] initialization()[i]
                == InitStep::Build && #[trigger] initialization()[j] == InitStep::DeliverMessages
                && #[trigger] initialization()[k] == InitStep::Resolve,
        handler.requested(event) is Render ==> event is Delivered,
        handler.requested(event) is DeliverMessages <==> event == FrameEvent::Configured(true),
{
    assert(initialization()[5] == InitStep::Build);
    assert(initialization()[6] == InitStep::DeliverMessages);
    assert(initialization()[7] == InitStep::Resolve);
}

/// However a frame is rendered, the document is polled exactly once and rendered exactly once, last.
/// It is marked dirty before the poll and laid out after it exactly where a layout is due.
pub proof fn a_frame_is_polled_once(plan: RenderPlan)
    ensures
        plan.in_order().filter(|step: RenderStep| step is Poll).len() == 1,
        plan.in_order().filter(|step: RenderStep| step is Render).len() == 1,
        plan.in_order().last() == RenderStep::Render(plan.size, plan.scale_factor),
        plan.in_order().contains(RenderStep::MarkAllDirty) <==> plan.dom_update,
        plan.in_order().contains(RenderStep::Resolve) <==> plan.dom_update,
        plan.dom_update ==> plan.in_order().index_of(RenderStep::MarkAllDirty)
            < plan.in_order().index_of(RenderStep::Poll) < plan.in_order().index_of(
            RenderStep::Resolve,
        ),
{
    let steps = plan.in_order();
    reveal_with_fuel(Seq::filter, 6);
    if plan.dom_update {
        assert(steps[0] == RenderStep::MarkAllDirty);
        assert(steps[1] == RenderStep::Poll);
        assert(steps[2] == RenderStep::Resolve);
        assert(steps.contains(RenderStep::Poll));
        assert(steps.drop_last() =~= seq![
            RenderStep::MarkAllDirty,
            RenderStep::Poll,
            RenderStep::Resolve,
            RenderStep::RestartLayoutClock,
        ]);
        assert(steps.drop_last().drop_last() =~= seq![
            RenderStep::MarkAllDirty,
            RenderStep::Poll,
            RenderStep::Resolve,
        ]);
        assert(steps.drop_last().drop_last().drop_last() =~= seq![
            RenderStep::MarkAllDirty,
            RenderStep::Poll,
        ]);
        assert(steps.drop_last().drop_last().drop_last().drop_last() =~= seq![
            RenderStep::MarkAllDirty,
        ]);
        assert(steps.drop_last().drop_last().drop_last().drop_last().drop_last() =~= seq![]);
    } else {
        assert(steps.drop_last() =~= seq![RenderStep::Poll]);
        assert(steps.drop_last().drop_last() =~= seq![]);
    }
}

/// The place of a request in a frame.
pub open spec fn rank<Sh>(request: FrameRequest<Sh>) -> int {
    match request {
        FrameRequest::Initialize(_) => 0,
        FrameRequest::TakeUiResize => 1,
        FrameRequest::TakeHostResize => 2,
        FrameRequest::Configure => 3,
        FrameRequest::DeliverMessages => 4,
        FrameRequest::Render(_) => 5,
        FrameRequest::Finish(_) => 6,
        FrameRequest::Stop => 7,
    }
}

/// The event reports what the request asked for.
pub open spec fn answers<Sh>(event: FrameEvent, request: FrameRequest<Sh>) -> bool {
    match request {
        FrameRequest::Initialize(_) => event is Initialized,
        FrameRequest::TakeUiResize => event is UiResize,
        FrameRequest::TakeHostResize => event is HostResize,
        FrameRequest::Configure => event is Configured,
        FrameRequest::DeliverMessages => event is Delivered,
        FrameRequest::Render(_) => event is Rendered,
        FrameRequest::Finish(_) => false,
        FrameRequest::Stop => false,
    }
}

/// The events are those of one frame: it starts, and each further event answers what the handler
/// requested on the one before. `handlers` are the handlers that took the events.
pub open spec fn is_frame<Sh>(handlers: Seq<DioxusWindowHandler<Sh>>, events: Seq<FrameEvent>)
    -> bool {
    &&& events.len() == handlers.len()
    &&& events.len() > 0
    &&& events[0] is Started
    &&& forall|i: int|
        0 < i < events.len() ==> answers(
            #[trigger] events[i],
            handlers[i - 1].requested(events[i - 1]),
        )
}

/// A frame goes forward: the answer to a request leads to a later one.
pub proof fn a_frame_goes_forward<Sh>(
    handler: DioxusWindowHandler<Sh>,
    request: FrameRequest<Sh>,
    event: FrameEvent,
)
    requires
        answers(event, request),
    ensures
        rank(handler.requested(event)) > rank(request),
{
}

/// Within a frame, the requests only go forward.
proof fn ranks_increase<Sh>(
    handlers: Seq<DioxusWindowHandler<Sh>>,
    events: Seq<FrameEvent>,
    i: int,
    j: int,
)
    requires
        is_frame(handlers, events),
        0 <= i < j < events.len(),
    ensures
        rank(handlers[i].requested(events[i])) + (j - i) <= rank(handlers[j].requested(events[j])),
    decreases j - i,
{
    if i + 1 < j {
        ranks_increase(handlers, events, i, j - 1);
    }
    a_frame_goes_forward(handlers[j], handlers[j - 1].requested(events[j - 1]), events[j]);
}

/// Every frame ends, and does nothing twice: it has at most eight events, and no two of them are of
/// one kind. In particular each pending resize is taken once.
pub proof fn every_frame_ends<Sh>(
    handlers: Seq<DioxusWindowHandler<Sh>>,
    events: Seq<FrameEvent>,
    i: int,
    j: int,
)
    requires
        is_frame(handlers, events),
        0 <= i < j < events.len(),
    ensures
        events.len() <= 8,
        rank(handlers[i].requested(events[i])) < rank(handlers[j].requested(events[j])),
        !(events[i] is UiResize && events[j] is UiResize),
        !(events[i] is HostResize && events[j] is HostResize),
        !(events[i] is Initialized && events[j] is Initialized),
        !(events[i] is Configured && events[j] is Configured),
        !(events[i] is Delivered && events[j] is Delivered),
        !(events[i] is Rendered && events[j] is Rendered),
        !(events[j] is Started),
{
    let last = events.len() - 1;
    ranks_increase(handlers, events, 0, last);
    ranks_increase(handlers, events, i, j);
    assert(answers(events[j], handlers[j - 1].requested(events[j - 1])));
    if i > 0 {
        assert(answers(events[i], handlers[i - 1].requested(events[i - 1])));
        ranks_increase(handlers, events, i - 1, j - 1);
    }
}

/// What is rendered is the window: along each side, as much of it as the renderer can take, and the
/// whole of it where neither side is too long. The sides do not depend on each other.
pub proof fn rendering_fills_the_window<Sh>(
    handler: DioxusWindowHandler<Sh>,
    dom_age_ms: u128,
    needs_redraw: bool,
)
    requires
        handler.initialized,
    ensures
        ({
            let request = handler.requested(FrameEvent::Delivered { dom_age_ms, needs_redraw });
            let plan = request->Render_0;
            &&& request is Render
            &&& handler.size.width <= 4096 ==> plan.size.width == handler.size.width
            &&& handler.size.height <= 4096 ==> plan.size.height == handler.size.height
            &&& handler.size.width >= 4096 ==> plan.size.width == 4096
            &&& handler.size.height >= 4096 ==> plan.size.height == 4096
            &&& plan.scale_factor == handler.scale_factor
            &&& handler.render_plan(dom_age_ms, needs_redraw) == Some(plan)
        }),
{
}

/// The document is laid out anew at least 33 milliseconds after the last time, or when a redraw was
/// requested, and in no other frame.
pub proof fn layout_is_throttled<Sh>(
    handler: DioxusWindowHandler<Sh>,
    dom_age_ms: u128,
    needs_redraw: bool,
)
    requires
        handler.initialized,
    ensures
        handler.requested(FrameEvent::Delivered { dom_age_ms, needs_redraw })->Render_0.dom_update
            <==> (dom_age_ms > 32 || needs_redraw),
{
}

/// The UI may resize the window to every size whose sides are both between 100 and 4096 logical
/// pixels: the window is asked for that size, it is stored, and then the host is told. To no other
/// size: then nothing happens. Either way the handler goes on as it was, to the host's resize.
pub proof fn reasonable_ui_resizes_are_asked_for<Sh>(
    handler: DioxusWindowHandler<Sh>,
    size: PixelSize,
)
    ensures
        ({
            let effects = handler.frame_effects(FrameEvent::UiResize(Some(size)));
            let reasonable = size.width > 99 && size.height > 99 && size.width < 4097 && size.height
                < 4097;
            &&& reasonable ==> effects.len() == 3 && effects[0] == Effect::ResizeWindow(size)
                && effects[1] == Effect::StoreSize(size) && effects[2] == Effect::NotifyHost
            &&& !reasonable ==> effects.len() == 0
        }),
        handler.frame_effects(FrameEvent::UiResize(None)).len() == 0,
        handler.after_frame_event(FrameEvent::UiResize(Some(size))) == handler,
        handler.requested(FrameEvent::UiResize(Some(size))) is TakeHostResize,
        handler.requested(FrameEvent::UiResize(None)) is TakeHostResize,
{
}

/// A resize by the host reaches everything that has a size, each in its own unit: the window is
/// asked for the logical size, which is stored, the viewport and the surface get the physical one
/// where they exist, and a redraw comes last. From then on the window has the physical size, and
/// nothing else of the handler has changed.
pub proof fn a_host_resize_reaches_everything<Sh>(
    handler: DioxusWindowHandler<Sh>,
    resize: HostResize,
)
    ensures
        ({
            let event = FrameEvent::HostResize(Some(resize));
            let effects = handler.frame_effects(event);
            let after = handler.after_frame_event(event);
            &&& effects.len() == if handler.initialized {
                5nat
            } else {
                3nat
            }
            &&& effects[0] == Effect::ResizeWindow(resize.logical)
            &&& effects[1] == Effect::StoreSize(resize.logical)
            &&& handler.initialized ==> effects[2] == Effect::SetViewport(
                resize.physical,
                handler.scale_factor,
            ) && effects[3] == Effect::ResizeSurface(resize.physical)
            &&& effects.last() == Effect::RequestRedraw
            &&& after.size == resize.physical
            &&& after.scale_factor == handler.scale_factor
            &&& after.has_handles == handler.has_handles
            &&& after.initialized == handler.initialized
            &&& after.received_resize == handler.received_resize
            &&& after.shared_state == handler.shared_state
            &&& after.mouse_pos == handler.mouse_pos
            &&& after.mouse_buttons == handler.mouse_buttons
            &&& after.modifiers == handler.modifiers
            &&& after.fps_frame_count == handler.fps_frame_count
            &&& handler.requested(event) is Configure <==> handler.initialized
            &&& handler.requested(event) is Stop <==> !handler.initialized
        }),
        handler.frame_effects(FrameEvent::HostResize(None)).len() == 0,
        handler.after_frame_event(FrameEvent::HostResize(None)) == handler,
        handler.requested(FrameEvent::HostResize(None)) is Configure <==> handler.initialized,
        handler.requested(FrameEvent::HostResize(None)) is Stop <==> !handler.initialized,
{
}

/// Of two resizes by the host, the last one counts.
pub proof fn the_last_host_resize_counts<Sh>(
    handler: DioxusWindowHandler<Sh>,
    first: HostResize,
    second: HostResize,
)
    ensures
        handler.after_frame_event(FrameEvent::HostResize(Some(first))).after_frame_event(
            FrameEvent::HostResize(Some(second)),
        ) == handler.after_frame_event(FrameEvent::HostResize(Some(second))),
{
}

/// A resize that the window system reports reaches everything that has a size, each in its own
/// unit: the logical size is stored, and observed by components, the viewport and the surface get
/// the physical size and the scale factor where they exist, and a redraw comes last. From then on
/// the window has that physical size and that scale factor, and nothing else of the handler has
/// changed.
pub proof fn a_reported_resize_reaches_everything<Sh>(
    handler: DioxusWindowHandler<Sh>,
    info: WindowInfo,
    limits: Vec2,
    outcome: EventOutcome,
)
    requires
        handler.event_outcome(Event::Window(WindowEvent::Resized(info)), limits, outcome),
    ensures
        ({
            let effects = outcome.effects@;
            let after = handler.after_event(Event::Window(WindowEvent::Resized(info)), limits);
            &&& outcome.status is Captured
            &&& outcome.dispatch is None
            &&& effects.len() == if handler.initialized {
                5nat
            } else {
                2nat
            }
            &&& effects[0] == Effect::StoreSize(info.logical)
            &&& handler.initialized ==> effects[1] == Effect::SetSizeSignal(info.logical)
                && effects[2] == Effect::SetViewport(info.physical, info.scale_factor) && effects[3]
                == Effect::ResizeSurface(info.physical)
            &&& effects.last() == Effect::RequestRedraw
            &&& after.size == info.physical
            &&& after.scale_factor == info.scale_factor
            &&& after.received_resize
            &&& after.has_handles == handler.has_handles
            &&& after.initialized == handler.initialized
            &&& after.shared_state == handler.shared_state
            &&& after.mouse_pos == handler.mouse_pos
            &&& after.mouse_buttons == handler.mouse_buttons
            &&& after.modifiers == handler.modifiers
            &&& after.fps_frame_count == handler.fps_frame_count
        }),
{
}

/// A frame begins by waiting until the window has reported its size, by creating the document when
/// it has, and by taking the UI's resize once there is a document or cannot be one.
pub proof fn a_frame_begins_with_what_is_missing<Sh>(handler: DioxusWindowHandler<Sh>)
    ensures
        ({
            let request = handler.requested(FrameEvent::Started);
            &&& request is Stop <==> !handler.initialized && !handler.received_resize
            &&& request is Initialize <==> !handler.initialized && handler.received_resize
                && handler.has_handles
            &&& request is TakeUiResize <==> handler.initialized || (handler.received_resize
                && !handler.has_handles)
            &&& handler.frame_start() is Proceed <==> handler.initialized
            &&& handler.frame_start() is Wait <==> !handler.initialized && !handler.received_resize
        }),
        handler.frame_effects(FrameEvent::Started).len() == 0,
        handler.frame_effects(FrameEvent::Initialized).len() == 0,
        handler.requested(FrameEvent::Initialized) is TakeUiResize,
        handler.after_frame_event(FrameEvent::Initialized) == handler,
{
}

/// The document is created for the window as it is: its viewport is the window, its surface is the
/// window but never empty, both at the window's scale factor, with the shared state that was kept
/// for it. Nothing else of the handler changes.
pub proof fn the_document_is_created_for_the_window<Sh>(handler: DioxusWindowHandler<Sh>)
    requires
        !handler.initialized,
        handler.received_resize,
        handler.has_handles,
    ensures
        ({
            let plan = handler.requested(FrameEvent::Started)->Initialize_0;
            let after = handler.after_frame_event(FrameEvent::Started);
            &&& plan.viewport.width == handler.size.width
            &&& plan.viewport.height == handler.size.height
            &&& handler.size.width > 0 ==> plan.surface.width == handler.size.width
            &&& handler.size.height > 0 ==> plan.surface.height == handler.size.height
            &&& handler.size.width == 0 ==> plan.surface.width == 1
            &&& handler.size.height == 0 ==> plan.surface.height == 1
            &&& plan.scale_factor == handler.scale_factor
            &&& plan.shared_state == handler.shared_state
            &&& after.initialized
            &&& after.shared_state is None
            &&& after.size == handler.size
            &&& after.scale_factor == handler.scale_factor
            &&& after.has_handles
            &&& after.received_resize
            &&& after.mouse_pos == handler.mouse_pos
            &&& after.mouse_buttons == handler.mouse_buttons
            &&& after.modifiers == handler.modifiers
            &&& after.fps_frame_count == handler.fps_frame_count
            &&& plan == handler.init_plan()
            &&& after == handler.after_initialize()
        }),
{
}

/// A frame goes on to deliver messages exactly where the surface can be presented to.
pub proof fn a_frame_goes_on_with_a_surface<Sh>(
    handler: DioxusWindowHandler<Sh>,
    configured: bool,
    dom_age_ms: u128,
    needs_redraw: bool,
)
    ensures
        handler.requested(FrameEvent::Configured(configured)) is DeliverMessages <==> configured,
        handler.requested(FrameEvent::Configured(configured)) is Stop <==> !configured,
        handler.frame_effects(FrameEvent::Configured(configured)).len() == 0,
        handler.after_frame_event(FrameEvent::Configured(configured)) == handler,
        handler.frame_effects(FrameEvent::Delivered { dom_age_ms, needs_redraw }).len() == 0,
        handler.after_frame_event(FrameEvent::Delivered { dom_age_ms, needs_redraw }) == handler,
        handler.requested(FrameEvent::Delivered { dom_age_ms, needs_redraw }) is Stop
            <==> !handler.initialized,
{
}

/// Every frame that is rendered is counted once, up to the report that it is due in: a report gives
/// the frames since the last one, itself among them, and starts the count anew. The redraw that was
/// requested is done, the cursor that the document asked for is shown, and nothing else of the
/// handler changes.
pub proof fn frames_are_counted_between_reports<Sh>(
    handler: DioxusWindowHandler<Sh>,
    cursor: Option<CursorIcon>,
)
    requires
        handler.fps_frame_count < u32::MAX - 1,
    ensures
        ({
            let quiet = FrameEvent::Rendered { report_due: false, cursor };
            let due = FrameEvent::Rendered { report_due: true, cursor };
            let later = handler.after_frame_event(quiet);
            let reported = handler.after_frame_event(due);
            &&& handler.requested(quiet) is Finish && handler.requested(due) is Finish
            &&& handler.requested(quiet)->Finish_0.frames is None
            &&& handler.requested(due)->Finish_0.frames is Some
            &&& handler.requested(due)->Finish_0.frames->0 == handler.fps_frame_count + 1
            &&& later.requested(due)->Finish_0.frames->0 == handler.fps_frame_count + 2
            &&& reported.requested(due)->Finish_0.frames->0 == 1
            &&& later.fps_frame_count == handler.fps_frame_count + 1
            &&& reported.fps_frame_count == 0
            &&& !handler.requested(quiet)->Finish_0.needs_redraw
            &&& !handler.requested(due)->Finish_0.needs_redraw
            &&& handler.requested(quiet)->Finish_0.cursor is Some <==> cursor is Some
            &&& handler.requested(due)->Finish_0.cursor is Some <==> cursor is Some
            &&& cursor is Some ==> handler.requested(quiet)->Finish_0.cursor->0 == baseview_cursor(
                cursor->0,
            )
            &&& cursor is Some ==> handler.requested(due)->Finish_0.cursor->0 == baseview_cursor(
                cursor->0,
            )
            &&& handler.frame_effects(quiet).len() == 0 && handler.frame_effects(due).len() == 0
        }),
{
}

/// The end of a frame changes nothing of the handler but the count of frames.
pub proof fn the_end_of_a_frame_only_counts<Sh>(
    handler: DioxusWindowHandler<Sh>,
    report_due: bool,
    cursor: Option<CursorIcon>,
)
    ensures
        ({
            let after = handler.after_frame_event(FrameEvent::Rendered { report_due, cursor });
            &&& after.size == handler.size
            &&& after.scale_factor == handler.scale_factor
            &&& after.has_handles == handler.has_handles
            &&& after.initialized == handler.initialized
            &&& after.received_resize == handler.received_resize
            &&& after.shared_state == handler.shared_state
            &&& after.mouse_pos == handler.mouse_pos
            &&& after.mouse_buttons == handler.mouse_buttons
            &&& after.modifiers == handler.modifiers
        }),
{
}

/// A window that was just opened has the size that it was opened with, no document yet, nothing
/// held and nothing counted; until it reports its scale factor, 2.0 is assumed on macOS and 1.0
/// elsewhere.
pub proof fn a_window_opens_empty<Sh>(
    platform: Platform,
    physical: PixelSize,
    has_handles: bool,
    shared_state: Option<Sh>,
)
    ensures
        ({
            let handler = DioxusWindowHandler::<Sh>::opened(
                platform,
                physical,
                has_handles,
                shared_state,
            );
            &&& handler.size == physical
            &&& handler.has_handles == has_handles
            &&& handler.shared_state == shared_state
            &&& !handler.initialized && !handler.received_resize
            &&& handler.mouse_pos.x.bits == 0 && handler.mouse_pos.y.bits == 0
            &&& handler.mouse_buttons.bits == 0
            &&& handler.modifiers == 0
            &&& handler.fps_frame_count == 0
            &&& platform is MacOs ==> handler.scale_factor.bits == 0x4000_0000
            &&& platform is Other ==> handler.scale_factor.bits == 0x3f80_0000
            &&& handler.scale_factor == starting_scale(platform)
        }),
{
}

/// With a document, an event of the mouse or the keyboard is told to it as the handler tracks it:
/// clicks and scrolls at the handler's position, moves at the position that the handler has
/// afterwards, each with the buttons that it holds afterwards.
pub proof fn input_is_told_as_it_is_tracked<Sh>(
    handler: DioxusWindowHandler<Sh>,
    event: Event,
    limits: Vec2,
    outcome: EventOutcome,
)
    requires
        handler.initialized,
        handler.event_outcome(event, limits, outcome),
    ensures
        ({
            let after = handler.after_event(event, limits);
            let told = outcome.dispatch->0@;
            &&& event matches Event::Mouse(MouseEvent::ButtonPressed { .. }) ==> {
                &&& outcome.dispatch is Some && told is PointerDown
                &&& told->PointerDown_0.coords.client_x == handler.mouse_pos.x
                &&& told->PointerDown_0.coords.client_y == handler.mouse_pos.y
                &&& told->PointerDown_0.buttons == after.mouse_buttons
            }
            &&& event matches Event::Mouse(MouseEvent::ButtonReleased { .. }) ==> {
                &&& outcome.dispatch is Some && told is PointerUp
                &&& told->PointerUp_0.coords.client_x == handler.mouse_pos.x
                &&& told->PointerUp_0.coords.client_y == handler.mouse_pos.y
                &&& told->PointerUp_0.buttons == after.mouse_buttons
            }
            &&& event matches Event::Mouse(MouseEvent::WheelScrolled { .. }) ==> {
                &&& outcome.dispatch is Some && told is Wheel
                &&& told->Wheel_0.coords.client_x == handler.mouse_pos.x
                &&& told->Wheel_0.coords.client_y == handler.mouse_pos.y
                &&& told->Wheel_0.buttons == handler.mouse_buttons
            }
            &&& event matches Event::Mouse(MouseEvent::CursorMoved { .. }) ==> {
                &&& outcome.dispatch is Some && told is PointerMove
                &&& told->PointerMove_0.coords.client_x == after.mouse_pos.x
                &&& told->PointerMove_0.coords.client_y == after.mouse_pos.y
                &&& told->PointerMove_0.buttons == handler.mouse_buttons
            }
            &&& event matches Event::Keyboard(key) ==> {
                &&& outcome.dispatch is Some
                &&& key.state is Down ==> told is KeyDown
                &&& key.state is Up ==> told is KeyUp
                &&& after.modifiers == key.modifiers
            }
            &&& event is Window && outcome.dispatch is Some ==> false
        }),
{
}

/// With a document, input is tracked from one event to the next: a free pointer is where the cursor
/// moved to, a button is held from its press to its release, and no input changes the window's size
/// or anything else of the handler.
pub proof fn input_changes_only_what_is_tracked<Sh>(
    handler: DioxusWindowHandler<Sh>,
    event: Event,
    limits: Vec2,
)
    requires
        !(event matches Event::Window(WindowEvent::Resized(_))),
    ensures
        ({
            let after = handler.after_event(event, limits);
            &&& after.size == handler.size
            &&& after.scale_factor == handler.scale_factor
            &&& after.received_resize == handler.received_resize
            &&& after.has_handles == handler.has_handles
            &&& after.initialized == handler.initialized
            &&& after.shared_state == handler.shared_state
            &&& after.fps_frame_count == handler.fps_frame_count
            &&& handler.initialized && handler.mouse_buttons.bits == 0 ==> (event matches
                Event::Mouse(MouseEvent::CursorMoved { position, .. }) ==> after.mouse_pos
                == position)
            &&& handler.initialized ==> (event matches Event::Mouse(
                MouseEvent::ButtonPressed { button: MouseButton::Left, .. },
            ) ==> after.mouse_buttons.bits == handler.mouse_buttons.bits | 1)
            &&& handler.initialized ==> (event matches Event::Mouse(
                MouseEvent::ButtonReleased { button: MouseButton::Left, .. },
            ) ==> after.mouse_buttons.bits & 1 == 0)
            &&& !(event is Keyboard) ==> after.modifiers == handler.modifiers
            &&& event is Window ==> after == handler
        }),
{
    let b = handler.mouse_buttons.bits;
    assert((b & (!1u8 & 0x1f)) & 1 == 0) by (bit_vector);
}

/// A dragged pointer is kept inside the window that the handler was told the limits of, axis by
/// axis.
pub proof fn a_tracked_drag_stays_inside<Sh>(
    handler: DioxusWindowHandler<Sh>,
    to: Vec2,
    modifiers: u32,
    limits: Vec2,
)
    requires
        handler.initialized,
        handler.mouse_buttons.bits != 0,
        valid_limits(limits),
    ensures
        ({
            let event = Event::Mouse(MouseEvent::CursorMoved { position: to, modifiers });
            let at = handler.after_event(event, limits).mouse_pos;
            let zero = Scalar { bits: 0 };
            &&& to.x.below(zero) ==> at.x.bits == 0
            &&& to.y.below(zero) ==> at.y.bits == 0
            &&& limits.x.below(to.x) ==> at.x == limits.x
            &&& limits.y.below(to.y) ==> at.y == limits.y
            &&& !to.x.below(zero) && !limits.x.below(to.x) ==> at.x == to.x
            &&& !to.y.below(zero) && !limits.y.below(to.y) ==> at.y == to.y
        }),
{
}

/// A frame's layout is timed when it is done and never otherwise, and no step is taken twice.
pub proof fn a_layout_is_timed_when_it_is_done(plan: RenderPlan)
    ensures
        plan.dom_update ==> plan.in_order().len() == 5 && plan.in_order()[2] is Resolve
            && plan.in_order()[3] is RestartLayoutClock,
        !plan.dom_update ==> plan.in_order().len() == 2,
        plan.in_order().contains(RenderStep::RestartLayoutClock) <==> plan.dom_update,
{
    if plan.dom_update {
        assert(plan.in_order()[3] == RenderStep::RestartLayoutClock);
    }
}

/// What is created comes before what needs it: the surface before the renderer, the document before
/// the shell and the contexts, both of these before components run, and each step is taken once.
pub proof fn creation_is_in_order()
    ensures
        initialization().len() == 8,
        initialization().no_duplicates(),
        initialization().index_of(InitStep::CreateSurface) < initialization().index_of(
            InitStep::CreateRenderer,
        ) < initialization().index_of(InitStep::CreateDocument) < initialization().index_of(
            InitStep::ConnectShell,
        ) < initialization().index_of(InitStep::ProvideContexts) < initialization().index_of(
            InitStep::Build,
        ) < initialization().index_of(InitStep::DeliverMessages) < initialization().index_of(
            InitStep::Resolve,
        ),
        forall|step: InitStep| #[trigger] initialization().contains(step),
{
    let steps = initialization();
    assert(steps[0] == InitStep::CreateSurface);
    assert(steps[1] == InitStep::CreateRenderer);
    assert(steps[2] == InitStep::CreateDocument);
    assert(steps[3] == InitStep::ConnectShell);
    assert(steps[4] == InitStep::ProvideContexts);
    assert(steps[5] == InitStep::Build);
    assert(steps[6] == InitStep::DeliverMessages);
    assert(steps[7] == InitStep::Resolve);
}

/// Components observe the editor's logical size from the start, width as width and height as
/// height, and find the shared state that the plan kept for them.
pub proof fn components_start_with_the_editors_size<Sh>(plan: InitPlan<Sh>, logical: PixelSize)
    ensures
        plan.provided(logical).size_signal.width == logical.width,
        plan.provided(logical).size_signal.height == logical.height,
        plan.provided(logical).shared_state == plan.shared_state,
{
}

} // verus!
