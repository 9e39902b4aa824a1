//! The editor, and the handle through which the host drives one that was spawned.
//!
//! Both decide; they do not touch the window. A method says which steps to take, in order, and
//! where an outside step can fail, another method says how to go on.

use vstd::prelude::*;

use crate::scalar::{Scalar, ONE};
use crate::size::PixelSize;

verus! {

/// The platforms that differ in the unit of their GUI API.
#[derive(Clone, Copy, Debug, PartialEq, Eq, Structural)]
pub enum Platform {
    /// Cocoa, and so every plugin API on it, is defined in logical pixels, and the system knows
    /// the scale factor.
    MacOs,
    /// X11 and Win32 are defined in physical pixels.
    Other,
}

/// How many frames to re-present for after the host moves or maps the window.
///
/// A tenth of a second at 60 frames a second: long enough to cover a host that maps its frame a
/// few frames after parenting, short enough that nobody can measure the cost.
pub const REVALIDATE_FRAMES: u32 = 6;

/// An editor that renders a document.
pub struct DioxusEditor<St, A, Sh, R> {
    pub state: St,
    pub app: A,
    /// The scale factor to assume, or `None` to leave it to the system.
    pub scaling_factor: Option<Scalar>,
    /// Raised to have the next frame redrawn. The editor shares it with its window and its handle.
    pub needs_redraw: R,
    /// Shared state to inject into the document's context, so that windowed and embedded editors
    /// can share it.
    pub shared_state: Option<Sh>,
}

/// The window to create for an editor.
pub struct WindowPlan {
    pub title: String,
    /// In logical pixels.
    pub size: PixelSize,
    pub wait_for_parent: bool,
    pub fallback_scale_factor: Option<Scalar>,
}

/// The contents of a [`WindowPlan`].
pub struct WindowPlanView {
    pub title: Seq<char>,
    pub size: PixelSize,
    pub wait_for_parent: bool,
    pub fallback_scale_factor: Option<Scalar>,
}

impl View for WindowPlan {
    type V = WindowPlanView;

    open spec fn view(&self) -> WindowPlanView {
        WindowPlanView {
            title: self.title@,
            size: self.size,
            wait_for_parent: self.wait_for_parent,
            fallback_scale_factor: self.fallback_scale_factor,
        }
    }
}

/// How spawning an editor goes on.
#[derive(Clone, Copy, Debug)]
pub enum SpawnStep<F> {
    /// Suggest this scale factor to the window, and pass the outcome to
    /// [`DioxusEditor::scale_suggested`].
    SuggestScale(F),
    /// Mark the editor as open, and hand out the handle that [`DioxusEditor::opened`] gives.
    Open,
    /// Give up with the error of the step that failed; the editor is not open.
    Fail,
}

/// Whether the system's scale factor is used, or 1.0 is assumed.
pub open spec fn initial_scaling(platform: Platform) -> Option<Scalar> {
    match platform {
        Platform::MacOs => None,
        Platform::Other => Some(Scalar { bits: ONE }),
    }
}

fn initial_scaling_factor(platform: Platform) -> (r: Option<Scalar>)
    ensures
        r == initial_scaling(platform),
{
    match platform {
        Platform::MacOs => None,
        Platform::Other => Some(Scalar { bits: ONE }),
    }
}

/// How spawning goes on after the window was created, or could not be.
pub open spec fn step_after_creation<F>(created: bool, suggested_scale_factor: Option<F>)
    -> SpawnStep<F> {
    if !created {
        SpawnStep::Fail
    } else {
        match suggested_scale_factor {
            Some(scale_factor) => SpawnStep::SuggestScale(scale_factor),
            None => SpawnStep::Open,
        }
    }
}

/// How spawning goes on after a scale factor was suggested to the window.
pub open spec fn step_after_suggestion<F>(taken: bool) -> SpawnStep<F> {
    if taken {
        SpawnStep::Open
    } else {
        SpawnStep::Fail
    }
}

/// The size that is reported to the host: in the unit of the platform's GUI API.
pub open spec fn reported_size(platform: Platform, logical: PixelSize, physical: PixelSize)
    -> PixelSize {
    match platform {
        Platform::MacOs => logical,
        Platform::Other => physical,
    }
}

impl<St, A, Sh, R> DioxusEditor<St, A, Sh, R> {
    /// Creates an editor. `needs_redraw` is a flag that is not raised.
    pub fn new(platform: Platform, state: St, app: A, needs_redraw: R) -> (r: DioxusEditor<
        St,
        A,
        Sh,
        R,
    >)
        ensures
            r.needs_redraw == needs_redraw,
            r.state == state,
            r.app == app,
            r.scaling_factor == initial_scaling(platform),
            r.shared_state is None,
    {
        DioxusEditor {
            state,
            app,
            scaling_factor: initial_scaling_factor(platform),
            needs_redraw,
            shared_state: None,
        }
    }

    /// Creates an editor with shared state that will be injected into the document's context.
    pub fn new_with_state(
        platform: Platform,
        state: St,
        shared_state: Sh,
        app: A,
        needs_redraw: R,
    )
        -> (r: DioxusEditor<St, A, Sh, R>)
        ensures
            r.needs_redraw == needs_redraw,
            r.state == state,
            r.app == app,
            r.scaling_factor == initial_scaling(platform),
            r.shared_state == Some(shared_state),
    {
        DioxusEditor {
            state,
            app,
            scaling_factor: initial_scaling_factor(platform),
            needs_redraw,
            shared_state: Some(shared_state),
        }
    }

    /// The scale factor that is known, or 1.0.
    pub open spec fn scale(self) -> Scalar {
        match self.scaling_factor {
            Some(scale_factor) => scale_factor,
            None => Scalar { bits: ONE },
        }
    }

    /// The scale factor by which the stored size is scaled where the host expects physical pixels:
    /// 1.0 unless another one is known.
    pub fn scale_factor(&self) -> (r: Scalar)
        ensures
            r == match self.scaling_factor {
                Some(scale_factor) => scale_factor,
                None => Scalar { bits: ONE },
            },
            r == self.scale(),
    {
        match self.scaling_factor {
            Some(scale_factor) => scale_factor,
            None => Scalar { bits: ONE },
        }
    }

    /// The window of an editor that is spawned with this logical size.
    pub open spec fn planned(self, size: PixelSize, wait_for_parent: bool) -> WindowPlanView {
        WindowPlanView {
            title: "Plugin Editor"@,
            size,
            wait_for_parent,
            fallback_scale_factor: self.scaling_factor,
        }
    }

    /// Plans the window of an editor that is spawned with this logical size. The outcome of
    /// creating it goes to [`window_created`](Self::window_created).
    pub fn spawn(&self, size: PixelSize, wait_for_parent: bool) -> (r: WindowPlan)
        ensures
            r.title@ == "Plugin Editor"@,
            r.size == size,
            r.wait_for_parent == wait_for_parent,
            r.fallback_scale_factor == self.scaling_factor,
            r@ == self.planned(size, wait_for_parent),
    {
        WindowPlan {
            title: "Plugin Editor".to_owned(),
            size,
            wait_for_parent,
            fallback_scale_factor: self.scaling_factor,
        }
    }

    /// Goes on after the window was created, or could not be. A scale factor that the host
    /// suggested is passed on to the window before the editor counts as open.
    pub fn window_created<F>(&self, created: bool, suggested_scale_factor: Option<F>) -> (r:
        SpawnStep<F>)
        ensures
            r == step_after_creation(created, suggested_scale_factor),
    {
        if !created {
            return SpawnStep::Fail;
        }
        match suggested_scale_factor {
            Some(scale_factor) => SpawnStep::SuggestScale(scale_factor),
            None => SpawnStep::Open,
        }
    }

    /// Goes on after the scale factor was suggested to the window.
    pub fn scale_suggested<F>(&self, taken: bool) -> (r: SpawnStep<F>)
        ensures
            r == step_after_suggestion::<F>(taken),
    {
        if taken {
            SpawnStep::Open
        } else {
            SpawnStep::Fail
        }
    }

    /// The handle of the editor once it is open: it shares the editor's state and its redraw flag.
    pub fn opened(&self) -> (r: DioxusEditorHandle<St, R>) where St: Clone, R: Clone
        ensures
            cloned(self.state, r.state),
            cloned(self.needs_redraw, r.needs_redraw),
    {
        DioxusEditorHandle { state: self.state.clone(), needs_redraw: self.needs_redraw.clone() }
    }

    /// The editor's size in the unit that the platform's GUI API uses.
    ///
    /// `logical` is the size that is stored, `physical` that size scaled by
    /// [`scale_factor`](Self::scale_factor). On macOS, scaling would report a window to the host
    /// that is larger than the editor wants, and the editor would paint into a part of it.
    pub fn size(&self, platform: Platform, logical: PixelSize, physical: PixelSize) -> (r: PixelSize)
        ensures
            r == reported_size(platform, logical, physical),
    {
        match platform {
            Platform::MacOs => logical,
            Platform::Other => physical,
        }
    }
}

/// A step that the host's handle takes.
#[derive(Clone, Copy, Debug, PartialEq, Eq, Structural)]
pub enum HandleStep {
    /// Attach the window to the parent that the host gave.
    AttachParent,
    /// Show the window.
    ShowWindow,
    /// Re-present for this many frames.
    Revalidate(u32),
    /// Record this logical size as one that the host set.
    HostSetSize(PixelSize),
    /// Resize the window to the logical size of the request.
    ResizeWindow,
    /// Redraw at the next frame.
    RequestRedraw,
    /// Record that the editor is closed.
    MarkClosed,
}

/// A size that the host sets, in both units.
#[derive(Clone, Copy, Debug, PartialEq, Eq, Structural)]
pub struct SizeRequest {
    pub physical: PixelSize,
    pub logical: PixelSize,
}

/// A size from the host, in both units: the host speaks the unit of the platform's GUI API, and
/// `converted` is its size in the other one.
pub open spec fn requested_size(platform: Platform, new_size: PixelSize, converted: PixelSize)
    -> SizeRequest {
    match platform {
        Platform::MacOs => SizeRequest { physical: converted, logical: new_size },
        Platform::Other => SizeRequest { physical: new_size, logical: converted },
    }
}

/// What the host does with a handle.
#[derive(Clone, Copy, Debug, PartialEq, Eq, Structural)]
pub enum HandleCall {
    SetParent,
    Show,
    /// A size is set, which is or is not within the resize hint.
    SetSize(SizeRequest, bool),
    /// The window was resized to a size that was set, or could not be.
    WindowResized(bool),
    StateChanged,
    ParamValueChanged,
    ParamModulationChanged,
    /// The handle is dropped.
    Dropped,
}

/// The steps that a call of the host leads to, in order.
pub open spec fn handle_steps(call: HandleCall) -> Seq<HandleStep> {
    match call {
        HandleCall::SetParent => seq![
            HandleStep::AttachParent,
            HandleStep::Revalidate(REVALIDATE_FRAMES),
        ],
        HandleCall::Show => seq![HandleStep::Revalidate(REVALIDATE_FRAMES), HandleStep::ShowWindow],
        HandleCall::SetSize(request, valid) => if valid {
            seq![HandleStep::HostSetSize(request.logical), HandleStep::ResizeWindow]
        } else {
            seq![]
        },
        HandleCall::WindowResized(resized) => if resized {
            seq![HandleStep::RequestRedraw]
        } else {
            seq![]
        },
        HandleCall::StateChanged => seq![HandleStep::RequestRedraw],
        HandleCall::ParamValueChanged => seq![HandleStep::RequestRedraw],
        HandleCall::ParamModulationChanged => seq![HandleStep::RequestRedraw],
        HandleCall::Dropped => seq![HandleStep::MarkClosed],
    }
}

/// What the steps change of the state that the editor shares with its handle and its window, but
/// for the frames to re-present.
pub struct SharedFlags {
    pub open: bool,
    pub needs_redraw: bool,
    /// The last size that the host set, until the window handler takes it.
    pub host_size: Option<PixelSize>,
}

impl SharedFlags {
    /// The flags after spawning came to a step: opening marks the editor as open.
    pub open spec fn after_spawn<F>(self, step: SpawnStep<F>) -> SharedFlags {
        match step {
            SpawnStep::Open => SharedFlags { open: true, ..self },
            _ => self,
        }
    }

    /// The flags after a step of the handle.
    pub open spec fn after_step(self, step: HandleStep) -> SharedFlags {
        match step {
            HandleStep::HostSetSize(size) => SharedFlags { host_size: Some(size), ..self },
            HandleStep::RequestRedraw => SharedFlags { needs_redraw: true, ..self },
            HandleStep::MarkClosed => SharedFlags { open: false, ..self },
            HandleStep::Revalidate(_) => self,
            HandleStep::AttachParent => self,
            HandleStep::ShowWindow => self,
            HandleStep::ResizeWindow => self,
        }
    }

    /// The flags after some steps of the handle.
    pub open spec fn after_steps(self, steps: Seq<HandleStep>) -> SharedFlags
        decreases steps.len(),
    {
        if steps.len() == 0 {
            self
        } else {
            self.after_steps(steps.drop_last()).after_step(steps.last())
        }
    }

    /// The flags after some calls of the host.
    pub open spec fn after_calls(self, calls: Seq<HandleCall>) -> SharedFlags
        decreases calls.len(),
    {
        if calls.len() == 0 {
            self
        } else {
            self.after_calls(calls.drop_last()).after_steps(handle_steps(calls.last()))
        }
    }
}

/// Why a size from the host is refused.
#[derive(Clone, Copy, Debug, PartialEq, Eq, Structural)]
pub enum SetSizeError {
    /// The size is outside the editor's resize hint.
    OutsideResizeHint,
    /// The window could not be resized.
    WindowNotResized,
}

/// A handle to a spawned [`DioxusEditor`].
///
/// It owns nothing window-shaped: it carries the state that the editor shares with its window.
pub struct DioxusEditorHandle<St, R> {
    pub state: St,
    pub needs_redraw: R,
}

impl<St, R> DioxusEditorHandle<St, R> {
    /// The host gives the window a parent. The window has moved into the host's frame then,
    /// whether attaching it succeeded or not.
    pub fn set_parent(&self) -> (r: Vec<HandleStep>)
        ensures
            r@ == handle_steps(HandleCall::SetParent),
    {
        vec![HandleStep::AttachParent, HandleStep::Revalidate(REVALIDATE_FRAMES)]
    }

    /// The host shows the editor, and is about to map the window.
    pub fn show(&self) -> (r: Vec<HandleStep>)
        ensures
            r@ == handle_steps(HandleCall::Show),
    {
        vec![HandleStep::Revalidate(REVALIDATE_FRAMES), HandleStep::ShowWindow]
    }

    /// Reads a size from the host, of which `converted` is the size in the other unit.
    pub fn read_size(&self, platform: Platform, new_size: PixelSize, converted: PixelSize) -> (r:
        SizeRequest)
        ensures
            r == requested_size(platform, new_size, converted),
    {
        match platform {
            Platform::MacOs => SizeRequest { physical: converted, logical: new_size },
            Platform::Other => SizeRequest { physical: new_size, logical: converted },
        }
    }

    /// The host resized the plugin view, because it accepted a request of the editor or because
    /// the user dragged its resize handle.
    ///
    /// `valid` says whether the physical size is within the editor's resize hint. A size that is
    /// not is refused, and nothing is done. Otherwise the size is recorded as a *host* resize, so
    /// that the window handler does not ask the host to resize again (that would loop), and the
    /// window is resized to match; the outcome of that goes to
    /// [`window_resized`](Self::window_resized).
    pub fn set_size(&self, request: SizeRequest, valid: bool) -> (r: Result<
        Vec<HandleStep>,
        SetSizeError,
    >)
        ensures
            !valid ==> r == Err::<Vec<HandleStep>, SetSizeError>(SetSizeError::OutsideResizeHint),
            valid ==> r is Ok && r->Ok_0@ == handle_steps(HandleCall::SetSize(request, valid)),
    {
        if !valid {
            return Err(SetSizeError::OutsideResizeHint);
        }
        Ok(vec![HandleStep::HostSetSize(request.logical), HandleStep::ResizeWindow])
    }

    /// Goes on after the window was resized to a size from the host, or could not be. The size
    /// stays recorded either way.
    pub fn window_resized(&self, resized: bool) -> (r: Result<HandleStep, SetSizeError>)
        ensures
            resized ==> r == Ok::<HandleStep, SetSizeError>(HandleStep::RequestRedraw),
            resized ==> seq![r->Ok_0] == handle_steps(HandleCall::WindowResized(resized)),
            !resized ==> r == Err::<HandleStep, SetSizeError>(SetSizeError::WindowNotResized),
    {
        if resized {
            Ok(HandleStep::RequestRedraw)
        } else {
            Err(SetSizeError::WindowNotResized)
        }
    }

    /// The plugin's state was replaced.
    pub fn state_changed(&self) -> (r: HandleStep)
        ensures
            r == HandleStep::RequestRedraw,
            seq![r] == handle_steps(HandleCall::StateChanged),
    {
        HandleStep::RequestRedraw
    }

    /// A parameter has a new value.
    pub fn param_value_changed(&self) -> (r: HandleStep)
        ensures
            r == HandleStep::RequestRedraw,
            seq![r] == handle_steps(HandleCall::ParamValueChanged),
    {
        HandleStep::RequestRedraw
    }

    /// A parameter is modulated.
    pub fn param_modulation_changed(&self) -> (r: HandleStep)
        ensures
            r == HandleStep::RequestRedraw,
            seq![r] == handle_steps(HandleCall::ParamModulationChanged),
    {
        HandleStep::RequestRedraw
    }

    /// The host drops the handle.
    pub fn closed(&self) -> (r: HandleStep)
        ensures
            r == HandleStep::MarkClosed,
            seq![r] == handle_steps(HandleCall::Dropped),
    {
        HandleStep::MarkClosed
    }
}

/// The parent window that the host gives, by its native handle.
#[derive(Clone, Copy, Debug, PartialEq, Eq, Structural)]
pub enum ParentWindowHandle {
    XlibWindow(u64),
    XcbWindow(u32),
    AppKitNsView(usize),
    Win32Hwnd(isize),
}

/// A window handle as the window and the renderer take it.
#[derive(Clone, Copy, Debug, PartialEq, Eq, Structural)]
pub enum RawWindowHandle {
    Xcb(u32),
    AppKit(usize),
    Win32(isize),
}

/// A display handle as the window and the renderer take it.
#[derive(Clone, Copy, Debug, PartialEq, Eq, Structural)]
pub enum RawDisplayHandle {
    /// Without a connection, and for screen 0: the parent's handle has none.
    Xcb,
    AppKit,
    Windows,
}

impl ParentWindowHandle {
    /// An X11 window's identifier is not 0.
    pub open spec fn wf(self) -> bool {
        match self {
            ParentWindowHandle::XlibWindow(window) => window as u32 != 0,
            ParentWindowHandle::XcbWindow(window) => window != 0,
            ParentWindowHandle::AppKitNsView(view) => view != 0,
            ParentWindowHandle::Win32Hwnd(hwnd) => hwnd != 0,
        }
    }

    /// The handle of the parent window, as it is presented.
    pub open spec fn presented(self) -> RawWindowHandle {
        match self {
            ParentWindowHandle::XlibWindow(window) => RawWindowHandle::Xcb(window as u32),
            ParentWindowHandle::XcbWindow(window) => RawWindowHandle::Xcb(window),
            ParentWindowHandle::AppKitNsView(view) => RawWindowHandle::AppKit(view),
            ParentWindowHandle::Win32Hwnd(hwnd) => RawWindowHandle::Win32(hwnd),
        }
    }

    /// The handle of the display, as it is presented.
    pub open spec fn display(self) -> RawDisplayHandle {
        match self {
            ParentWindowHandle::XlibWindow(_) => RawDisplayHandle::Xcb,
            ParentWindowHandle::XcbWindow(_) => RawDisplayHandle::Xcb,
            ParentWindowHandle::AppKitNsView(_) => RawDisplayHandle::AppKit,
            ParentWindowHandle::Win32Hwnd(_) => RawDisplayHandle::Windows,
        }
    }

    /// The handle of the parent window. An Xlib window is presented as an XCB one: rendering
    /// connects over XCB, and the two share the 32-bit identifiers of X11 windows.
    pub fn window_handle(self) -> (r: RawWindowHandle)
        requires
            self.wf(),
        ensures
            r == match self {
                ParentWindowHandle::XlibWindow(window) => RawWindowHandle::Xcb(window as u32),
                ParentWindowHandle::XcbWindow(window) => RawWindowHandle::Xcb(window),
                ParentWindowHandle::AppKitNsView(view) => RawWindowHandle::AppKit(view),
                ParentWindowHandle::Win32Hwnd(hwnd) => RawWindowHandle::Win32(hwnd),
            },
            r matches RawWindowHandle::Xcb(id) ==> id != 0,
            r == self.presented(),
    {
        match self {
            ParentWindowHandle::XlibWindow(window) => RawWindowHandle::Xcb(
                #[verifier::truncate]
                (window as u32),
            ),
            ParentWindowHandle::XcbWindow(window) => RawWindowHandle::Xcb(window),
            ParentWindowHandle::AppKitNsView(view) => RawWindowHandle::AppKit(view),
            ParentWindowHandle::Win32Hwnd(hwnd) => RawWindowHandle::Win32(hwnd),
        }
    }

    /// The handle of the display that the parent window is on.
    pub fn display_handle(self) -> (r: RawDisplayHandle)
        ensures
            r == match self {
                ParentWindowHandle::XlibWindow(_) => RawDisplayHandle::Xcb,
                ParentWindowHandle::XcbWindow(_) => RawDisplayHandle::Xcb,
                ParentWindowHandle::AppKitNsView(_) => RawDisplayHandle::AppKit,
                ParentWindowHandle::Win32Hwnd(_) => RawDisplayHandle::Windows,
            },
            r == self.display(),
    {
        match self {
            ParentWindowHandle::XlibWindow(_) => RawDisplayHandle::Xcb,
            ParentWindowHandle::XcbWindow(_) => RawDisplayHandle::Xcb,
            ParentWindowHandle::AppKitNsView(_) => RawDisplayHandle::AppKit,
            ParentWindowHandle::Win32Hwnd(_) => RawDisplayHandle::Windows,
        }
    }
}

/// An editor opens exactly where its window was created and took the scale factor that the host
/// suggested, if it suggested one.
pub proof fn an_editor_opens_with_its_window<F>(
    created: bool,
    suggested_scale_factor: Option<F>,
    taken: bool,
)
    ensures
        ({
            let step = step_after_creation(created, suggested_scale_factor);
            let last = if step is SuggestScale {
                step_after_suggestion::<F>(taken)
            } else {
                step
            };
            &&& last is Open <==> created && (suggested_scale_factor is Some ==> taken)
            &&& last is Open || last is Fail
        }),
{
}

/// One call of the host, other than dropping the handle, leaves the editor open or not as it was.
proof fn a_call_keeps_the_editor_open(flags: SharedFlags, call: HandleCall)
    requires
        call != HandleCall::Dropped,
    ensures
        flags.after_steps(handle_steps(call)).open == flags.open,
{
    let steps = handle_steps(call);
    reveal_with_fuel(SharedFlags::after_steps, 3);
    if steps.len() == 2 {
        assert(steps.drop_last() =~= seq![steps[0]]);
        assert(steps.drop_last().drop_last() =~= seq![]);
    } else if steps.len() == 1 {
        assert(steps.drop_last() =~= seq![]);
    }
}

/// An editor is open exactly between a spawn that succeeded and the drop of its handle: spawning
/// opens it where it succeeds and leaves everything as it was where it does not, no other call of
/// the host opens or closes it, and the drop closes it.
pub proof fn an_editor_is_open_until_its_handle_is_dropped<F>(
    flags: SharedFlags,
    step: SpawnStep<F>,
    calls: Seq<HandleCall>,
)
    requires
        !flags.open,
        !calls.contains(HandleCall::Dropped),
    ensures
        step is Open <==> flags.after_spawn(step).open,
        !(step is Open) ==> flags.after_spawn(step) == flags,
        step is Open ==> flags.after_spawn(step).after_calls(calls).open,
        !flags.after_spawn(step).after_calls(calls.push(HandleCall::Dropped)).open,
    decreases calls.len(),
{
    let spawned = flags.after_spawn(step);
    let dropped = calls.push(HandleCall::Dropped);
    assert(dropped.drop_last() =~= calls);
    the_drop_only_closes(spawned.after_calls(calls));
    if calls.len() > 0 {
        let rest = calls.drop_last();
        assert forall|i: int| 0 <= i < rest.len() implies rest[i] != HandleCall::Dropped by {
            assert(calls.contains(calls[i]));
        }
        assert(calls.contains(calls.last()));
        an_editor_is_open_until_its_handle_is_dropped(flags, step, rest);
        a_call_keeps_the_editor_open(spawned.after_calls(rest), calls.last());
    }
}

/// Dropping the handle closes the editor and changes nothing else: neither the size nor a redraw
/// that was requested.
pub proof fn the_drop_only_closes(flags: SharedFlags)
    ensures
        flags.after_steps(handle_steps(HandleCall::Dropped)) == (SharedFlags {
            open: false,
            ..flags
        }),
{
    let steps = handle_steps(HandleCall::Dropped);
    reveal_with_fuel(SharedFlags::after_steps, 2);
    assert(steps.drop_last() =~= seq![]);
}

/// A size that is refused changes nothing of what is shared.
pub proof fn a_refused_size_changes_nothing(flags: SharedFlags, request: SizeRequest)
    ensures
        flags.after_steps(handle_steps(HandleCall::SetSize(request, false))) == flags,
{
}

/// A size that was reported to the host comes back unchanged when the host sets it, in the unit
/// that it was reported in.
pub proof fn a_reported_size_comes_back(
    platform: Platform,
    logical: PixelSize,
    physical: PixelSize,
    converted: PixelSize,
)
    ensures
        ({
            let request = requested_size(
                platform,
                reported_size(platform, logical, physical),
                converted,
            );
            match platform {
                Platform::MacOs => request.logical == logical,
                Platform::Other => request.physical == physical,
            }
        }),
{
}

/// Where the conversion between the units inverts itself on a size, the size that is reported and
/// set again is the same in both units.
pub proof fn a_reported_size_comes_back_in_both_units(
    platform: Platform,
    logical: PixelSize,
    physical: PixelSize,
)
    ensures
        requested_size(
            platform,
            reported_size(platform, logical, physical),
            match platform {
                Platform::MacOs => physical,
                Platform::Other => logical,
            },
        ) == (SizeRequest { physical, logical }),
{
}

/// The system's scale factor is used on macOS; elsewhere it is 1.0 to begin with.
pub proof fn the_scale_factor_starts_with_the_platform(platform: Platform)
    ensures
        initial_scaling(platform) is None <==> platform is MacOs,
        platform is Other ==> initial_scaling(platform)->0.bits == 0x3f80_0000,
{
}

/// The scale factor that is known is used, and 1.0 where none is.
pub proof fn a_known_scale_factor_is_used<St, A, Sh, R>(editor: DioxusEditor<St, A, Sh, R>)
    ensures
        editor.scaling_factor matches Some(known) ==> editor.scale() == known,
        editor.scaling_factor is None ==> editor.scale().bits == 0x3f80_0000,
{
}

/// Sizes cross to the host and back in logical pixels on macOS and in physical pixels elsewhere,
/// width as width and height as height.
pub proof fn sizes_cross_in_the_platforms_unit(
    platform: Platform,
    logical: PixelSize,
    physical: PixelSize,
)
    ensures
        platform is MacOs ==> reported_size(platform, logical, physical).width == logical.width
            && reported_size(platform, logical, physical).height == logical.height,
        platform is Other ==> reported_size(platform, logical, physical).width == physical.width
            && reported_size(platform, logical, physical).height == physical.height,
        requested_size(Platform::MacOs, logical, physical).logical == logical,
        requested_size(Platform::MacOs, logical, physical).physical == physical,
        requested_size(Platform::Other, physical, logical).logical == logical,
        requested_size(Platform::Other, physical, logical).physical == physical,
{
}

/// The scale factor that the host suggests is the one that is passed on, and it is passed on
/// wherever there is a window to take it.
pub proof fn the_suggested_scale_factor_is_passed_on<F>(scale_factor: F)
    ensures
        step_after_creation(true, Some(scale_factor)) == SpawnStep::SuggestScale(scale_factor),
        step_after_creation(false, Some(scale_factor)) is Fail,
        step_after_creation::<F>(true, None) is Open,
        step_after_creation::<F>(false, None) is Fail,
        step_after_suggestion::<F>(true) is Open,
        step_after_suggestion::<F>(false) is Fail,
{
}

/// What the host does with a handle leads to this, and to nothing more: a new parent is attached,
/// and then six frames are re-presented; six frames are re-presented, and then the window is shown;
/// a size that is valid is recorded in logical pixels before the window is resized to it; a resized
/// window and every change are redrawn; and the drop closes.
pub proof fn each_call_of_the_host_is_carried_out(request: SizeRequest)
    ensures
        handle_steps(HandleCall::SetParent).len() == 2,
        handle_steps(HandleCall::SetParent)[0] is AttachParent,
        handle_steps(HandleCall::SetParent)[1] == HandleStep::Revalidate(6),
        handle_steps(HandleCall::Show).len() == 2,
        handle_steps(HandleCall::Show)[0] == HandleStep::Revalidate(6),
        handle_steps(HandleCall::Show)[1] is ShowWindow,
        handle_steps(HandleCall::SetSize(request, true)).len() == 2,
        handle_steps(HandleCall::SetSize(request, true))[0] == HandleStep::HostSetSize(
            request.logical,
        ),
        handle_steps(HandleCall::SetSize(request, true))[1] is ResizeWindow,
        handle_steps(HandleCall::SetSize(request, false)).len() == 0,
        handle_steps(HandleCall::WindowResized(false)).len() == 0,
        handle_steps(HandleCall::WindowResized(true)).len() == 1,
        handle_steps(HandleCall::WindowResized(true))[0] is RequestRedraw,
        handle_steps(HandleCall::StateChanged).len() == 1,
        handle_steps(HandleCall::StateChanged)[0] is RequestRedraw,
        handle_steps(HandleCall::ParamValueChanged).len() == 1,
        handle_steps(HandleCall::ParamValueChanged)[0] is RequestRedraw,
        handle_steps(HandleCall::ParamModulationChanged).len() == 1,
        handle_steps(HandleCall::ParamModulationChanged)[0] is RequestRedraw,
        handle_steps(HandleCall::Dropped).len() == 1,
        handle_steps(HandleCall::Dropped)[0] is MarkClosed,
{
}

/// A valid size is what the host's size is from then on, however often sizes were set before, and a
/// change has the editor redrawn.
pub proof fn a_valid_size_is_recorded(flags: SharedFlags, request: SizeRequest)
    ensures
        flags.after_steps(handle_steps(HandleCall::SetSize(request, true))).host_size == Some(
            request.logical,
        ),
        flags.after_steps(handle_steps(HandleCall::SetSize(request, true))).open == flags.open,
        flags.after_steps(handle_steps(HandleCall::StateChanged)).needs_redraw,
        flags.after_steps(handle_steps(HandleCall::ParamValueChanged)).needs_redraw,
        flags.after_steps(handle_steps(HandleCall::ParamModulationChanged)).needs_redraw,
        flags.after_steps(handle_steps(HandleCall::WindowResized(true))).needs_redraw,
{
    reveal_with_fuel(SharedFlags::after_steps, 3);
    let steps = handle_steps(HandleCall::SetSize(request, true));
    assert(steps.drop_last() =~= seq![HandleStep::HostSetSize(request.logical)]);
    assert(steps.drop_last().drop_last() =~= seq![]);
    assert(handle_steps(HandleCall::StateChanged).drop_last() =~= seq![]);
    assert(handle_steps(HandleCall::WindowResized(true)).drop_last() =~= seq![]);
}

/// A parent is presented by its own identifier, in the family of its platform; of an Xlib window
/// the 32 bits that X11 identifiers have are kept, so that both families of X11 name one window.
pub proof fn a_parent_keeps_its_identity(parent: ParentWindowHandle)
    ensures
        parent matches ParentWindowHandle::XlibWindow(id) ==> parent.presented() is Xcb
            && parent.presented()->Xcb_0 == id % 0x1_0000_0000,
        parent matches ParentWindowHandle::XlibWindow(id) ==> id < 0x1_0000_0000
            ==> parent.presented() == ParentWindowHandle::XcbWindow(id as u32).presented(),
        parent matches ParentWindowHandle::XcbWindow(id) ==> parent.presented()
            == RawWindowHandle::Xcb(id),
        parent matches ParentWindowHandle::AppKitNsView(view) ==> parent.presented()
            == RawWindowHandle::AppKit(view),
        parent matches ParentWindowHandle::Win32Hwnd(hwnd) ==> parent.presented()
            == RawWindowHandle::Win32(hwnd),
        parent.display() is Xcb <==> parent.presented() is Xcb,
        parent.display() is AppKit <==> parent.presented() is AppKit,
        parent.display() is Windows <==> parent.presented() is Win32,
{
    if let ParentWindowHandle::XlibWindow(id) = parent {
        assert(id as u32 == id % 0x1_0000_0000) by (bit_vector);
    }
}

/// An editor's window is planned with its own size, and with the scale factor that the editor
/// assumes, if it assumes one.
pub proof fn a_window_is_planned_as_the_editor_is<St, A, Sh, R>(
    editor: DioxusEditor<St, A, Sh, R>,
    size: PixelSize,
    wait_for_parent: bool,
)
    ensures
        editor.planned(size, wait_for_parent).title == "Plugin Editor"@,
        editor.planned(size, wait_for_parent).size.width == size.width,
        editor.planned(size, wait_for_parent).size.height == size.height,
        editor.planned(size, wait_for_parent).wait_for_parent <==> wait_for_parent,
        editor.planned(size, wait_for_parent).fallback_scale_factor == editor.scaling_factor,
{
}

/// A plan is handed over whole.
pub proof fn a_plan_is_handed_over_whole(plan: WindowPlan)
    ensures
        plan@.title == plan.title@,
        plan@.size.width == plan.size.width,
        plan@.size.height == plan.size.height,
        plan@.wait_for_parent == plan.wait_for_parent,
        plan@.fallback_scale_factor == plan.fallback_scale_factor,
{
}

/// A parent can be presented exactly where its identifier is not zero, an Xlib window's being taken
/// by its lower 32 bits.
pub proof fn a_parent_has_an_identifier(parent: ParentWindowHandle)
    ensures
        parent matches ParentWindowHandle::XlibWindow(window) ==> (parent.wf() <==> window as u32
            != 0),
        parent matches ParentWindowHandle::XcbWindow(window) ==> (parent.wf() <==> window > 0),
        parent matches ParentWindowHandle::AppKitNsView(view) ==> (parent.wf() <==> view != 0),
        parent matches ParentWindowHandle::Win32Hwnd(hwnd) ==> (parent.wf() <==> hwnd != 0),
{
}

} // verus!
