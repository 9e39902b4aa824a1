//! The editor with an immediate-mode interface, its settings and its handle.

use vstd::prelude::*;

use crate::resize_hint::{ResizeHint, SizeConstraints, WindowLimits};
use crate::scalar::Scalar;
use crate::size::{PixelSize, Size};

verus! {

/// Settings of an editor. `G` is the graphics configuration, `L` a size in logical pixels, `X`
/// refines the resize hint.
pub struct EguiNiceSettings<G, L, X> {
    /// The window title
    pub title: String,
    /// The graphics configuration
    pub graphics: G,
    /// Whether and how the host may resize the editor. The default is not resizable.
    pub resize_hint: ResizeHint<L, X>,
}

impl<G, L, X> EguiNiceSettings<G, L, X> {
    /// Settings with an empty title and an editor that is not resizable. `graphics` is the default
    /// graphics configuration, `refinement` the default refinement of the resize hint.
    pub fn new(graphics: G, refinement: X) -> (r: EguiNiceSettings<G, L, X>)
        ensures
            r.title@ == Seq::<char>::empty(),
            r.graphics == graphics,
            r.resize_hint == ResizeHint::<L, X>::fixed(refinement),
    {
        EguiNiceSettings { title: String::new(), graphics, resize_hint: ResizeHint::new(refinement) }
    }

    /// These settings with another title.
    pub open spec fn titled(self, title: String) -> EguiNiceSettings<G, L, X> {
        EguiNiceSettings { title, ..self }
    }

    /// These settings with another graphics configuration.
    pub open spec fn drawn_with(self, config: G) -> EguiNiceSettings<G, L, X> {
        EguiNiceSettings { graphics: config, ..self }
    }

    /// These settings with another resize hint.
    pub open spec fn hinted(self, resize_hint: ResizeHint<L, X>) -> EguiNiceSettings<G, L, X> {
        EguiNiceSettings { resize_hint, ..self }
    }

    /// Use the given window title
    pub fn with_tile(self, title: String) -> (r: EguiNiceSettings<G, L, X>)
        ensures
            r == (EguiNiceSettings { title, ..self }),
            r == self.titled(title),
    {
        EguiNiceSettings { title, graphics: self.graphics, resize_hint: self.resize_hint }
    }

    /// Use the given graphics configuration
    pub fn with_graphics_config(self, config: G) -> (r: EguiNiceSettings<G, L, X>)
        ensures
            r == (EguiNiceSettings { graphics: config, ..self }),
            r == self.drawn_with(config),
    {
        EguiNiceSettings { title: self.title, graphics: config, resize_hint: self.resize_hint }
    }

    /// Use the given hint on whether and how the host may resize the editor.
    pub fn with_resize_hint(self, resize_hint: ResizeHint<L, X>) -> (r: EguiNiceSettings<G, L, X>)
        ensures
            r == (EguiNiceSettings { resize_hint, ..self }),
            r == self.hinted(resize_hint),
    {
        EguiNiceSettings { title: self.title, graphics: self.graphics, resize_hint }
    }
}

/// What an editor and its window share.
pub struct EguiEditorState<L> {
    /// The size, in the unit that the plugin gave it in.
    pub size: Size<L>,
    /// The scale factor of the window, once it is known.
    pub scale_factor: Option<Scalar>,
    pub zoom_factor: Scalar,
    pub open: bool,
}

/// A window's size in both units.
#[derive(Clone, Copy, Debug)]
pub struct WindowSize<L> {
    pub logical: L,
    pub physical: PixelSize,
    pub scale_factor: Scalar,
}

/// A window's size, in the unit of the size that it replaces.
pub open spec fn resized_to<L>(current: Size<L>, size: WindowSize<L>) -> Size<L> {
    match current {
        Size::Logical(_) => Size::Logical(size.logical),
        Size::Physical(_) => Size::Physical(size.physical),
    }
}

impl<L: Copy> EguiEditorState<L> {
    /// The state after the window was resized.
    pub open spec fn after_resized(self, size: WindowSize<L>) -> EguiEditorState<L> {
        EguiEditorState {
            size: resized_to(self.size, size),
            scale_factor: Some(size.scale_factor),
            ..self
        }
    }

    /// The state after the zoom factor changed.
    pub open spec fn after_zoomed(self, zoom_factor: Scalar) -> EguiEditorState<L> {
        EguiEditorState { zoom_factor, ..self }
    }

    /// The state after the window was created, or could not be.
    pub open spec fn after_created(self, created: bool) -> EguiEditorState<L> {
        EguiEditorState { open: self.open || created, ..self }
    }

    /// The state after the handle was dropped.
    pub open spec fn after_closed(self) -> EguiEditorState<L> {
        EguiEditorState { open: false, ..self }
    }

    /// Takes over a new size of the window. The size keeps its unit.
    pub fn resized(&mut self, size: WindowSize<L>)
        ensures
            *final(self) == (EguiEditorState {
                size: resized_to(old(self).size, size),
                scale_factor: Some(size.scale_factor),
                ..*old(self)
            }),
            *final(self) == old(self).after_resized(size),
    {
        self.scale_factor = Some(size.scale_factor);
        self.size = match self.size {
            Size::Logical(_) => Size::Logical(size.logical),
            Size::Physical(_) => Size::Physical(size.physical),
        };
    }

    /// Takes over a new zoom factor.
    pub fn zoom_factor_changed(&mut self, zoom_factor: Scalar)
        ensures
            *final(self) == (EguiEditorState { zoom_factor, ..*old(self) }),
            *final(self) == old(self).after_zoomed(zoom_factor),
    {
        self.zoom_factor = zoom_factor;
    }
}

/// What the user's application is told.
#[derive(Clone, Copy, Debug)]
pub enum AppNotice<L> {
    /// The window was resized to this size.
    Resized(WindowSize<L>),
    /// The zoom factor is now this one.
    ZoomFactorChanged(Scalar),
}

/// An editor that calls an immediate-mode draw loop.
pub struct EguiEditor<A, G, L, X> {
    pub egui_state: EguiEditorState<L>,
    pub user_app: A,
    pub settings: EguiNiceSettings<G, L, X>,
}

/// The window to create for an editor.
pub struct EguiWindowPlan<'a, G, L, F> {
    pub title: String,
    pub size: Size<L>,
    pub min_size: Option<Size<L>>,
    pub max_size: Option<Size<L>>,
    pub resizable: bool,
    pub zoom_factor: Scalar,
    pub graphics: &'a G,
    pub fallback_scale_factor: Option<F>,
    pub wait_for_parent: bool,
}

/// The contents of an [`EguiWindowPlan`].
pub struct EguiWindowPlanView<G, L, F> {
    pub title: Seq<char>,
    pub size: Size<L>,
    pub min_size: Option<Size<L>>,
    pub max_size: Option<Size<L>>,
    pub resizable: bool,
    pub zoom_factor: Scalar,
    pub graphics: G,
    pub fallback_scale_factor: Option<F>,
    pub wait_for_parent: bool,
}

impl<'a, G, L, F> View for EguiWindowPlan<'a, G, L, F> {
    type V = EguiWindowPlanView<G, L, F>;

    open spec fn view(&self) -> EguiWindowPlanView<G, L, F> {
        EguiWindowPlanView {
            title: self.title@,
            size: self.size,
            min_size: self.min_size,
            max_size: self.max_size,
            resizable: self.resizable,
            zoom_factor: self.zoom_factor,
            graphics: *self.graphics,
            fallback_scale_factor: self.fallback_scale_factor,
            wait_for_parent: self.wait_for_parent,
        }
    }
}

impl<A, G, L: Copy, X: Copy> EguiEditor<A, G, L, X> {
    /// The window of an editor that is spawned.
    pub open spec fn planned<F>(self, wait_for_parent: bool, fallback_scale_factor: Option<F>)
        -> EguiWindowPlanView<G, L, F> {
        EguiWindowPlanView {
            title: self.settings.title@,
            size: self.egui_state.size,
            min_size: self.settings.resize_hint.size_constraints.smallest(),
            max_size: self.settings.resize_hint.size_constraints.largest(),
            resizable: self.settings.resize_hint.can_resize,
            zoom_factor: self.egui_state.zoom_factor,
            graphics: self.settings.graphics,
            fallback_scale_factor,
            wait_for_parent,
        }
    }

    /// Plans the window of an editor that is spawned. The outcome of creating it goes to
    /// [`window_created`](Self::window_created).
    pub fn spawn<F>(&self, wait_for_parent: bool, fallback_scale_factor: Option<F>) -> (r:
        EguiWindowPlan<'_, G, L, F>)
        ensures
            r.title@ == self.settings.title@,
            r.size == self.egui_state.size,
            r.min_size == self.settings.resize_hint.size_constraints.smallest(),
            r.max_size == self.settings.resize_hint.size_constraints.largest(),
            r.resizable == self.settings.resize_hint.can_resize,
            r.zoom_factor == self.egui_state.zoom_factor,
            *r.graphics == self.settings.graphics,
            r.fallback_scale_factor == fallback_scale_factor,
            r.wait_for_parent == wait_for_parent,
            r@ == self.planned(wait_for_parent, fallback_scale_factor),
    {
        let limits: WindowLimits<L> = self.settings.resize_hint.size_constraints.limits();
        EguiWindowPlan {
            title: self.settings.title.as_str().to_owned(),
            size: self.egui_state.size,
            min_size: limits.min_size,
            max_size: limits.max_size,
            resizable: self.settings.resize_hint.can_resize,
            zoom_factor: self.egui_state.zoom_factor,
            graphics: &self.settings.graphics,
            fallback_scale_factor,
            wait_for_parent,
        }
    }

    /// Goes on after the window was created, or could not be. A created window opens the editor and
    /// gives the host a handle.
    pub fn window_created(&mut self, created: bool) -> (r: Option<EguiEditorHandle<L, X>>)
        ensures
            r is Some <==> created,
            r matches Some(handle) ==> handle.resize_hint == old(self).settings.resize_hint,
            final(self).egui_state == (EguiEditorState {
                open: old(self).egui_state.open || created,
                ..old(self).egui_state
            }),
            final(self).egui_state == old(self).egui_state.after_created(created),
            final(self).user_app == old(self).user_app,
            final(self).settings == old(self).settings,
    {
        if !created {
            return None;
        }
        self.egui_state.open = true;
        Some(EguiEditorHandle { resize_hint: self.settings.resize_hint })
    }

    /// Takes over a new size of the window, which keeps its unit, and then has the application told
    /// of it, once.
    pub fn resized(&mut self, size: WindowSize<L>) -> (r: AppNotice<L>)
        ensures
            r == AppNotice::Resized(size),
            final(self).egui_state == (EguiEditorState {
                size: resized_to(old(self).egui_state.size, size),
                scale_factor: Some(size.scale_factor),
                ..old(self).egui_state
            }),
            final(self).egui_state == old(self).egui_state.after_resized(size),
            final(self).user_app == old(self).user_app,
            final(self).settings == old(self).settings,
    {
        self.egui_state.resized(size);
        AppNotice::Resized(size)
    }

    /// Takes over a new zoom factor, and then has the application told of it, once.
    pub fn zoom_factor_changed(&mut self, zoom_factor: Scalar) -> (r: AppNotice<L>)
        ensures
            r == AppNotice::<L>::ZoomFactorChanged(zoom_factor),
            final(self).egui_state == (EguiEditorState { zoom_factor, ..old(self).egui_state }),
            final(self).egui_state == old(self).egui_state.after_zoomed(zoom_factor),
            final(self).user_app == old(self).user_app,
            final(self).settings == old(self).settings,
    {
        self.egui_state.zoom_factor_changed(zoom_factor);
        AppNotice::ZoomFactorChanged(zoom_factor)
    }

    /// Whether and how the host may resize the editor.
    pub fn resize_hint(&self) -> (r: ResizeHint<L, X>)
        ensures
            r == self.settings.resize_hint,
    {
        self.settings.resize_hint
    }

    /// The host moved the instance to another track: the application is told, and the editor is
    /// drawn anew.
    pub fn track_info_updated(&self) -> (r: Vec<EguiStep>)
        ensures
            r@ == seq![EguiStep::NotifyApp, EguiStep::RequestRepaint],
    {
        vec![EguiStep::NotifyApp, EguiStep::RequestRepaint]
    }

    /// The host dropped the handle.
    pub fn closed(&mut self)
        ensures
            final(self).egui_state == (EguiEditorState { open: false, ..old(self).egui_state }),
            final(self).egui_state == old(self).egui_state.after_closed(),
            final(self).user_app == old(self).user_app,
            final(self).settings == old(self).settings,
    {
        self.egui_state.open = false;
    }
}

/// A step that the editor or its handle takes.
#[derive(Clone, Copy, Debug, PartialEq, Eq, Structural)]
pub enum EguiStep {
    /// Hand the application what the host said.
    NotifyApp,
    /// Show the window.
    ShowWindow,
    /// Resize the window to this physical size.
    ResizeWindow(PixelSize),
    /// Draw the editor anew.
    RequestRepaint,
}

/// A handle to a spawned instance of an [`EguiEditor`].
pub struct EguiEditorHandle<L, X> {
    pub resize_hint: ResizeHint<L, X>,
}

impl<L, X> EguiEditorHandle<L, X> {
    /// The host shows the editor. Being shown does not always lead to an event, so the editor is
    /// drawn anew, whether showing it succeeded or not.
    pub fn show(&self) -> (r: Vec<EguiStep>)
        ensures
            r@ == seq![EguiStep::ShowWindow, EguiStep::RequestRepaint],
    {
        vec![EguiStep::ShowWindow, EguiStep::RequestRepaint]
    }

    /// The host resized the editor, and speaks physical pixels.
    pub fn set_size(&self, new_size: PixelSize) -> (r: EguiStep)
        ensures
            r == EguiStep::ResizeWindow(new_size),
    {
        EguiStep::ResizeWindow(new_size)
    }

    /// Whether a key from the host is used: none is.
    pub fn on_virtual_key_from_host(&self) -> (r: bool)
        ensures
            !r,
    {
        false
    }

    /// The plugin's state was replaced.
    pub fn state_changed(&self) -> (r: EguiStep)
        ensures
            r == EguiStep::RequestRepaint,
    {
        EguiStep::RequestRepaint
    }

    /// A parameter has a new value.
    pub fn param_value_changed(&self) -> (r: EguiStep)
        ensures
            r == EguiStep::RequestRepaint,
    {
        EguiStep::RequestRepaint
    }

    /// A parameter is modulated.
    pub fn param_modulation_changed(&self) -> (r: EguiStep)
        ensures
            r == EguiStep::RequestRepaint,
    {
        EguiStep::RequestRepaint
    }
}

/// However often the window is resized, the size keeps the unit that the plugin gave it in, and is
/// that of the last resize.
pub proof fn resizing_keeps_the_unit<L>(
    current: Size<L>,
    first: WindowSize<L>,
    second: WindowSize<L>,
)
    ensures
        resized_to(current, first) is Logical <==> current is Logical,
        resized_to(resized_to(current, first), second) == resized_to(current, second),
{
}

/// A size that is given in logical pixels becomes the window's logical size, and one that is given
/// in physical pixels becomes its physical size.
pub proof fn a_resize_is_stored_in_its_unit<L>(current: Size<L>, size: WindowSize<L>)
    ensures
        current is Logical ==> resized_to(current, size) == Size::Logical(size.logical),
        current is Physical ==> resized_to(current, size) == Size::<L>::Physical(size.physical),
{
}

/// A window is planned with what the editor has: its title, its size, its zoom factor and its
/// graphics configuration; with the limits of its resize hint, each where the hint has one and in the
/// unit of the hint; and resizable exactly where the hint says so.
pub proof fn a_window_is_planned_as_the_editor_is<A, G, L: Copy, X: Copy, F>(
    editor: EguiEditor<A, G, L, X>,
    wait_for_parent: bool,
    fallback_scale_factor: Option<F>,
)
    ensures
        ({
            let plan = editor.planned(wait_for_parent, fallback_scale_factor);
            let hint = editor.settings.resize_hint;
            &&& plan.title == editor.settings.title@
            &&& plan.size == editor.egui_state.size
            &&& plan.resizable <==> hint.can_resize
            &&& plan.zoom_factor == editor.egui_state.zoom_factor
            &&& plan.graphics == editor.settings.graphics
            &&& plan.fallback_scale_factor == fallback_scale_factor
            &&& plan.wait_for_parent == wait_for_parent
            &&& hint.size_constraints matches SizeConstraints::Logical { min_size, max_size } ==> {
                &&& plan.min_size is Some <==> min_size is Some
                &&& plan.max_size is Some <==> max_size is Some
                &&& min_size matches Some(min) ==> plan.min_size == Some(Size::Logical(min))
                &&& max_size matches Some(max) ==> plan.max_size == Some(Size::Logical(max))
            }
            &&& hint.size_constraints matches SizeConstraints::Physical { min_size, max_size } ==> {
                &&& plan.min_size is Some <==> min_size is Some
                &&& plan.max_size is Some <==> max_size is Some
                &&& min_size matches Some(min) ==> plan.min_size == Some(Size::<L>::Physical(min))
                &&& max_size matches Some(max) ==> plan.max_size == Some(Size::<L>::Physical(max))
            }
        }),
{
}

/// A resize and a change of zoom each replace what they are about, whatever was there before, and
/// do not touch what the other is about, nor whether the editor is open.
pub proof fn resizes_and_zooms_are_kept_apart<L: Copy>(
    state: EguiEditorState<L>,
    size: WindowSize<L>,
    zoom_factor: Scalar,
)
    ensures
        ({
            let resized = state.after_resized(size);
            let zoomed = state.after_zoomed(zoom_factor);
            &&& resized.scale_factor == Some(size.scale_factor)
            &&& state.size is Logical ==> resized.size == Size::Logical(size.logical)
            &&& state.size is Physical ==> resized.size == Size::<L>::Physical(size.physical)
            &&& resized.zoom_factor == state.zoom_factor
            &&& resized.open == state.open
            &&& zoomed.zoom_factor == zoom_factor
            &&& zoomed.size == state.size
            &&& zoomed.scale_factor == state.scale_factor
            &&& zoomed.open == state.open
            &&& resized.after_zoomed(zoom_factor) == zoomed.after_resized(size)
        }),
{
}

/// An editor is open from the creation of its window to the drop of its handle: nothing else opens
/// or closes it, and neither changes anything else.
pub proof fn an_editor_is_open_between_creation_and_drop<L: Copy>(
    state: EguiEditorState<L>,
    size: WindowSize<L>,
    zoom_factor: Scalar,
)
    ensures
        state.after_created(true).open,
        state.after_created(false) == state,
        state.after_created(true).after_resized(size).after_zoomed(zoom_factor).open,
        !state.after_created(true).after_resized(size).after_zoomed(zoom_factor).after_closed().open,
        state.after_created(true).size == state.size,
        state.after_created(true).zoom_factor == state.zoom_factor,
        state.after_created(true).scale_factor == state.scale_factor,
        state.after_closed().size == state.size,
        state.after_closed().zoom_factor == state.zoom_factor,
        state.after_closed().scale_factor == state.scale_factor,
{
}

/// Each setting is changed by itself: the last title, configuration or hint that was given counts,
/// in whichever order they were given.
pub proof fn settings_are_changed_one_by_one<G, L, X>(
    settings: EguiNiceSettings<G, L, X>,
    title: String,
    config: G,
    resize_hint: ResizeHint<L, X>,
)
    ensures
        settings.titled(title).title == title,
        settings.drawn_with(config).graphics == config,
        settings.hinted(resize_hint).resize_hint == resize_hint,
        settings.titled(title).graphics == settings.graphics,
        settings.titled(title).resize_hint == settings.resize_hint,
        settings.titled(title).drawn_with(config).hinted(resize_hint) == settings.hinted(
            resize_hint,
        ).drawn_with(config).titled(title),
        settings.hinted(resize_hint).titled(title) == settings.titled(title).hinted(resize_hint),
        settings.drawn_with(config).title == settings.title,
        settings.drawn_with(config).resize_hint == settings.resize_hint,
        settings.hinted(resize_hint).title == settings.title,
        settings.hinted(resize_hint).graphics == settings.graphics,
{
}

/// A plan is handed over whole.
pub proof fn a_plan_is_handed_over_whole<G, L, F>(plan: EguiWindowPlan<'_, G, L, F>)
    ensures
        plan@.title == plan.title@,
        plan@.size == plan.size,
        plan@.min_size == plan.min_size,
        plan@.max_size == plan.max_size,
        plan@.resizable == plan.resizable,
        plan@.zoom_factor == plan.zoom_factor,
        plan@.graphics == *plan.graphics,
        plan@.fallback_scale_factor == plan.fallback_scale_factor,
        plan@.wait_for_parent == plan.wait_for_parent,
{
}

} // verus!
