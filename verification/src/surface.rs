//! The presentation surface: how it is configured, and when.

use vstd::prelude::*;

verus! {

/// A texture format that the surface supports.
#[derive(Clone, Copy, Debug)]
pub struct SurfaceFormat<F> {
    pub format: F,
    /// Whether the format stores sRGB-encoded colours.
    pub srgb: bool,
}

/// How a frame's alpha channel is composited.
#[derive(Clone, Copy, Debug, PartialEq, Eq, Structural)]
pub enum AlphaMode {
    Auto,
    Opaque,
    PreMultiplied,
    PostMultiplied,
    Inherit,
}

/// How finished frames are presented.
#[derive(Clone, Copy, Debug, PartialEq, Eq, Structural)]
pub enum PresentMode {
    AutoVsync,
    AutoNoVsync,
    Fifo,
    FifoRelaxed,
    Immediate,
    Mailbox,
}

/// What the adapter reports of the surface.
pub struct SurfaceCapabilities<F> {
    pub formats: Vec<SurfaceFormat<F>>,
    pub alpha_modes: Vec<AlphaMode>,
    pub present_modes: Vec<PresentMode>,
}

/// The configuration that the surface is, or will be, set up with.
#[derive(Clone, Copy, Debug)]
pub struct SurfaceConfiguration<F> {
    pub format: F,
    pub width: u32,
    pub height: u32,
    pub present_mode: PresentMode,
    pub alpha_mode: AlphaMode,
    pub desired_maximum_frame_latency: u32,
}

/// Frames that may be queued for presentation.
pub const FRAME_LATENCY: u32 = 2;

/// The surface's configuration, and whether the surface accepted it.
pub struct WgpuState<F> {
    pub config: SurfaceConfiguration<F>,
    /// Whether the surface was successfully configured for presentation.
    pub configured: bool,
}

/// `i` is the first format that is not sRGB.
pub open spec fn first_linear<F>(formats: Seq<SurfaceFormat<F>>, i: int) -> bool {
    &&& 0 <= i < formats.len()
    &&& !formats[i].srgb
    &&& forall|j: int| 0 <= j < i ==> (#[trigger] formats[j]).srgb
}

/// `chosen` is the first format that is not sRGB; without one, the first format; without any
/// format, `fallback`.
pub open spec fn preferred_format<F>(formats: Seq<SurfaceFormat<F>>, fallback: F, chosen: F) -> bool {
    &&& formats.len() == 0 ==> chosen == fallback
    &&& forall|i: int| #[trigger] first_linear(formats, i) ==> chosen == formats[i].format
    &&& formats.len() > 0 && (forall|i: int| 0 <= i < formats.len() ==> (#[trigger] formats[i]).srgb)
        ==> chosen == formats[0].format
}

/// `Inherit` where it is offered, else `Opaque` where it is offered, else the first mode.
pub open spec fn preferred_alpha(modes: Seq<AlphaMode>) -> AlphaMode {
    if modes.contains(AlphaMode::Inherit) {
        AlphaMode::Inherit
    } else if modes.contains(AlphaMode::Opaque) {
        AlphaMode::Opaque
    } else {
        modes[0]
    }
}

/// `Fifo` where it is offered, else the first mode.
pub open spec fn preferred_present(modes: Seq<PresentMode>) -> PresentMode {
    if modes.contains(PresentMode::Fifo) {
        PresentMode::Fifo
    } else {
        modes[0]
    }
}

/// `extent`, but no less than one pixel.
pub open spec fn at_least_one(extent: u32) -> u32 {
    if extent == 0 {
        1
    } else {
        extent
    }
}

/// Picks the format to render to: colours are presented as they are rendered, so a format that is
/// not sRGB comes first.
pub fn choose_format<F: Copy>(formats: &Vec<SurfaceFormat<F>>, fallback: F) -> (r: F)
    ensures
        preferred_format(formats@, fallback, r),
{
    let mut i: usize = 0;
    while i < formats.len()
        invariant
            i <= formats.len(),
            forall|j: int| 0 <= j < i ==> (#[trigger] formats@[j]).srgb,
        decreases formats.len() - i,
    {
        if !formats[i].srgb {
            proof {
                assert forall|k: int| #[trigger] first_linear(formats@, k) implies k == i by {
                    if k < i {
                        assert(formats@[k].srgb);
                    }
                    if k > i {
                        assert(formats@[i as int].srgb);
                    }
                }
            }
            return formats[i].format;
        }
        i = i + 1;
    }
    if formats.len() == 0 {
        fallback
    } else {
        formats[0].format
    }
}

fn has_alpha_mode(modes: &Vec<AlphaMode>, mode: AlphaMode) -> (r: bool)
    ensures
        r == modes@.contains(mode),
{
    let mut i: usize = 0;
    while i < modes.len()
        invariant
            i <= modes.len(),
            forall|j: int| 0 <= j < i ==> modes@[j] != mode,
        decreases modes.len() - i,
    {
        if modes[i] == mode {
            assert(modes@[i as int] == mode);
            return true;
        }
        i = i + 1;
    }
    false
}

fn has_present_mode(modes: &Vec<PresentMode>, mode: PresentMode) -> (r: bool)
    ensures
        r == modes@.contains(mode),
{
    let mut i: usize = 0;
    while i < modes.len()
        invariant
            i <= modes.len(),
            forall|j: int| 0 <= j < i ==> modes@[j] != mode,
        decreases modes.len() - i,
    {
        if modes[i] == mode {
            assert(modes@[i as int] == mode);
            return true;
        }
        i = i + 1;
    }
    false
}

/// Picks how alpha is composited: `Inherit` is the most compatible, also under XWayland.
pub fn choose_alpha_mode(modes: &Vec<AlphaMode>) -> (r: AlphaMode)
    requires
        modes@.len() > 0,
    ensures
        r == preferred_alpha(modes@),
{
    if has_alpha_mode(modes, AlphaMode::Inherit) {
        AlphaMode::Inherit
    } else if has_alpha_mode(modes, AlphaMode::Opaque) {
        AlphaMode::Opaque
    } else {
        modes[0]
    }
}

/// Picks how frames are presented: `Fifo` (vsync) is the reliable one.
pub fn choose_present_mode(modes: &Vec<PresentMode>) -> (r: PresentMode)
    requires
        modes@.len() > 0,
    ensures
        r == preferred_present(modes@),
{
    if has_present_mode(modes, PresentMode::Fifo) {
        PresentMode::Fifo
    } else {
        modes[0]
    }
}

impl<F> WgpuState<F> {
    /// A surface is never configured with an empty extent.
    pub open spec fn wf(self) -> bool {
        self.config.width >= 1 && self.config.height >= 1
    }

    /// The configuration to attempt before a frame, if any.
    pub open spec fn attempted(self) -> Option<SurfaceConfiguration<F>> {
        if self.configured {
            None
        } else {
            Some(self.config)
        }
    }

    /// The state after an attempt, or without one where none was due.
    pub open spec fn after_attempt(self, attempt: bool) -> WgpuState<F> {
        WgpuState { config: self.config, configured: self.configured || attempt }
    }
}

impl<F: Copy> WgpuState<F> {
    /// Chooses the configuration for a new surface from what the adapter offers.
    ///
    /// The surface is not configured yet: the caller makes the first attempt with `config` and
    /// reports it to [`try_configure`](Self::try_configure). An attempt may fail while the window
    /// is not mapped; it is repeated each frame.
    ///
    /// An adapter that supports the surface offers at least one alpha mode and one present mode.
    pub fn new_from_raw(
        capabilities: &SurfaceCapabilities<F>,
        fallback_format: F,
        width: u32,
        height: u32,
    ) -> (r: WgpuState<F>)
        requires
            capabilities.alpha_modes@.len() > 0,
            capabilities.present_modes@.len() > 0,
        ensures
            r.wf(),
            !r.configured,
            preferred_format(capabilities.formats@, fallback_format, r.config.format),
            r.config.alpha_mode == preferred_alpha(capabilities.alpha_modes@),
            r.config.present_mode == preferred_present(capabilities.present_modes@),
            r.config.width == at_least_one(width),
            r.config.height == at_least_one(height),
            r.config.desired_maximum_frame_latency == FRAME_LATENCY,
            r.config.desired_maximum_frame_latency == 2,
            width > 0 ==> r.config.width == width,
            height > 0 ==> r.config.height == height,
            width == 0 ==> r.config.width == 1,
            height == 0 ==> r.config.height == 1,
            capabilities.alpha_modes@.contains(r.config.alpha_mode),
            capabilities.present_modes@.contains(r.config.present_mode),
    {
        proof {
            an_offered_alpha_mode_is_chosen(capabilities.alpha_modes@);
            an_offered_present_mode_is_chosen(capabilities.present_modes@);
        }
        WgpuState {
            config: SurfaceConfiguration {
                format: choose_format(&capabilities.formats, fallback_format),
                width: if width == 0 { 1 } else { width },
                height: if height == 0 { 1 } else { height },
                present_mode: choose_present_mode(&capabilities.present_modes),
                alpha_mode: choose_alpha_mode(&capabilities.alpha_modes),
                desired_maximum_frame_latency: FRAME_LATENCY,
            },
            configured: false,
        }
    }

    /// Whether the surface was successfully configured and is ready for rendering.
    pub fn is_configured(&self) -> (r: bool)
        ensures
            r == self.configured,
    {
        self.configured
    }

    /// The configuration to attempt before a frame: one attempt, with `config`, where the surface is
    /// not configured, and none where it is. The outcome goes to
    /// [`try_configure`](Self::try_configure).
    pub fn next_attempt(&self) -> (r: Option<SurfaceConfiguration<F>>)
        ensures
            r is Some == !self.configured,
            r == self.attempted(),
    {
        if self.configured {
            None
        } else {
            Some(self.config)
        }
    }

    /// Takes in an attempt to configure the surface, and says whether frames can be presented.
    ///
    /// A surface that is configured needs no attempt, and `attempt` is not read.
    pub fn try_configure(&mut self, attempt: bool) -> (r: bool)
        ensures
            r == (old(self).configured || attempt),
            *final(self) == old(self).after_attempt(attempt),
    {
        if self.configured {
            return true;
        }
        self.configured = attempt;
        self.configured
    }

    /// Whether a resize to this extent is carried out: the surface is configured, and neither
    /// side is zero.
    pub open spec fn resizes_to(self, width: u32, height: u32) -> bool {
        self.configured && width != 0 && height != 0
    }

    /// The state after a resize: the extent is taken over where the resize is carried out.
    pub open spec fn after_resize(self, width: u32, height: u32) -> WgpuState<F> {
        if self.resizes_to(width, height) {
            WgpuState {
                config: SurfaceConfiguration { width, height, ..self.config },
                configured: self.configured,
            }
        } else {
            self
        }
    }

    /// Takes over a new extent. Where it returns true the surface has to be configured anew with
    /// `config`, and the outcome goes to [`reconfigured`](Self::reconfigured).
    ///
    /// Nothing changes while the surface is not configured, or where a side is zero.
    pub fn resize(&mut self, width: u32, height: u32) -> (r: bool)
        ensures
            r == old(self).resizes_to(width, height),
            *final(self) == old(self).after_resize(width, height),
            old(self).configured && width > 0 && height > 0 ==> r && final(self).config.width
                == width && final(self).config.height == height,
            r ==> final(self).config.width == width && final(self).config.height == height,
            final(self).config.format == old(self).config.format,
            final(self).config.present_mode == old(self).config.present_mode,
            final(self).config.alpha_mode == old(self).config.alpha_mode,
            final(self).config.desired_maximum_frame_latency
                == old(self).config.desired_maximum_frame_latency,
            final(self).configured == old(self).configured,
            !r ==> *final(self) == *old(self),
            old(self).wf() ==> final(self).wf(),
    {
        if !self.configured || width == 0 || height == 0 {
            return false;
        }
        self.config.width = width;
        self.config.height = height;
        true
    }

    /// The state after the surface was configured anew, or could not be.
    pub open spec fn after_reconfiguration(self, success: bool) -> WgpuState<F> {
        WgpuState { config: self.config, configured: success }
    }

    /// Takes in the outcome of configuring the surface anew.
    pub fn reconfigured(&mut self, success: bool)
        ensures
            final(self).configured == success,
            final(self).config == old(self).config,
            *final(self) == old(self).after_reconfiguration(success),
    {
        self.configured = success;
    }

    /// The surface format.
    pub fn format(&self) -> (r: F)
        ensures
            r == self.config.format,
    {
        self.config.format
    }
}

/// The chosen format is not sRGB wherever the adapter offers one that is not.
pub proof fn a_linear_format_is_preferred<F>(
    formats: Seq<SurfaceFormat<F>>,
    fallback: F,
    chosen: F,
    offered: int,
)
    requires
        preferred_format(formats, fallback, chosen),
        0 <= offered < formats.len(),
        !formats[offered].srgb,
    ensures
        exists|i: int|
            0 <= i <= offered && !(#[trigger] formats[i]).srgb && formats[i].format == chosen,
    decreases offered,
{
    if exists|j: int| 0 <= j < offered && !(#[trigger] formats[j]).srgb {
        let j = choose|j: int| 0 <= j < offered && !(#[trigger] formats[j]).srgb;
        a_linear_format_is_preferred(formats, fallback, chosen, j);
    } else {
        assert(first_linear(formats, offered));
    }
}

/// A surface is attempted once a frame, always with the same configuration, until an attempt
/// succeeds, and never after that.
pub proof fn a_surface_is_attempted_until_it_is_configured<F>(state: WgpuState<F>, attempt: bool)
    ensures
        !state.configured && !attempt ==> state.after_attempt(attempt).attempted() == Some(
            state.config,
        ),
        !state.configured && attempt ==> state.after_attempt(attempt).attempted() is None,
        state.configured ==> state.attempted() is None && state.after_attempt(attempt) == state,
{
}

/// A configured surface takes over every extent that is not empty, whatever extent it had, and is
/// then configured anew. It is not configured anew for any other reason.
pub proof fn a_configured_surface_follows_every_resize<F: Copy>(
    state: WgpuState<F>,
    width: u32,
    height: u32,
)
    ensures
        state.configured && width > 0 && height > 0 ==> state.resizes_to(width, height)
            && state.after_resize(width, height).config.width == width && state.after_resize(
            width,
            height,
        ).config.height == height,
        !state.configured ==> !state.resizes_to(width, height) && state.after_resize(width, height)
            == state,
        !state.resizes_to(0, height) && state.after_resize(0, height) == state,
        !state.resizes_to(width, 0) && state.after_resize(width, 0) == state,
        state.after_resize(width, height).configured == state.configured,
        state.after_resize(width, height).config.format == state.config.format,
        state.after_resize(width, height).config.present_mode == state.config.present_mode,
        state.after_resize(width, height).config.alpha_mode == state.config.alpha_mode,
        state.after_resize(width, height).config.desired_maximum_frame_latency
            == state.config.desired_maximum_frame_latency,
{
}

/// Of two resizes, the last one that is not empty counts.
pub proof fn the_last_resize_counts<F: Copy>(
    state: WgpuState<F>,
    width: u32,
    height: u32,
    next_width: u32,
    next_height: u32,
)
    requires
        state.configured,
        next_width > 0,
        next_height > 0,
    ensures
        state.after_resize(width, height).after_resize(next_width, next_height)
            == state.after_resize(next_width, next_height),
{
}

/// How alpha is composited is one of the ways that are offered: `Inherit` wherever it is among them,
/// else `Opaque` wherever it is.
pub proof fn an_offered_alpha_mode_is_chosen(modes: Seq<AlphaMode>)
    requires
        modes.len() > 0,
    ensures
        modes.contains(preferred_alpha(modes)),
        preferred_alpha(modes) is Inherit <==> modes.contains(AlphaMode::Inherit),
        preferred_alpha(modes) is Opaque <==> (modes.contains(AlphaMode::Opaque) && !modes.contains(
            AlphaMode::Inherit,
        )),
        !modes.contains(AlphaMode::Inherit) && !modes.contains(AlphaMode::Opaque)
            ==> preferred_alpha(modes) == modes.first(),
{
    assert(modes.contains(modes[0]));
}

/// How frames are presented is one of the ways that are offered: `Fifo` wherever it is among them,
/// else the first.
pub proof fn an_offered_present_mode_is_chosen(modes: Seq<PresentMode>)
    requires
        modes.len() > 0,
    ensures
        modes.contains(preferred_present(modes)),
        preferred_present(modes) is Fifo <==> modes.contains(PresentMode::Fifo),
        !modes.contains(PresentMode::Fifo) ==> preferred_present(modes) == modes.first(),
{
    assert(modes.contains(modes[0]));
}

/// The chosen format is one that is offered, or the fallback where none is. Where none of them is
/// linear, it is the first.
pub proof fn an_offered_format_is_chosen<F>(
    formats: Seq<SurfaceFormat<F>>,
    fallback: F,
    chosen: F,
)
    requires
        preferred_format(formats, fallback, chosen),
    ensures
        formats.len() == 0 ==> chosen == fallback,
        formats.len() > 0 ==> exists|i: int|
            0 <= i < formats.len() && (#[trigger] formats[i]).format == chosen,
        formats.len() > 0 && (forall|i: int| 0 <= i < formats.len() ==> (#[trigger] formats[i]).srgb)
            ==> formats.first().format == chosen,
{
    if exists|j: int| 0 <= j < formats.len() && !(#[trigger] formats[j]).srgb {
        let j = choose|j: int| 0 <= j < formats.len() && !(#[trigger] formats[j]).srgb;
        a_linear_format_is_preferred(formats, fallback, chosen, j);
    } else if formats.len() > 0 {
        assert(formats[0].format == chosen);
    }
}

/// An extent that is not empty stays as it is, and an empty one becomes one pixel.
pub proof fn no_extent_is_empty(extent: u32)
    ensures
        extent > 0 ==> at_least_one(extent) == extent,
        at_least_one(0) == 1,
{
}

/// An attempt changes only whether the surface is configured: it is from the first success on.
pub proof fn an_attempt_only_configures<F>(state: WgpuState<F>, first: bool, second: bool)
    ensures
        state.after_attempt(first).config == state.config,
        state.after_attempt(first).configured <==> state.configured || first,
        state.after_attempt(first).after_attempt(second).configured <==> state.configured || first
            || second,
        state.attempted() is Some <==> !state.configured,
        state.attempted() is Some ==> state.attempted()->0 == state.config,
{
}

/// Configuring anew changes only whether the surface is configured, to what came of it; a failure is
/// made up for by the next attempt, with the extent that was taken over.
pub proof fn a_failed_resize_is_attempted_again<F: Copy>(
    state: WgpuState<F>,
    width: u32,
    height: u32,
    success: bool,
)
    requires
        state.configured,
        width > 0,
        height > 0,
    ensures
        ({
            let resized = state.after_resize(width, height).after_reconfiguration(success);
            &&& resized.configured <==> success
            &&& resized.config.width == width && resized.config.height == height
            &&& resized.attempted() is Some <==> !success
            &&& resized.attempted() is Some ==> resized.attempted()->0.width == width
                && resized.attempted()->0.height == height
            &&& resized.config.format == state.config.format
        }),
{
}

/// A surface is valid exactly where it has an extent on both axes, and it stays so, whatever it is
/// resized to.
pub proof fn a_surface_keeps_an_extent<F: Copy>(state: WgpuState<F>, width: u32, height: u32)
    ensures
        state.wf() <==> state.config.width > 0 && state.config.height > 0,
        state.wf() ==> state.after_resize(width, height).config.width > 0,
        state.wf() ==> state.after_resize(width, height).config.height > 0,
{
}

} // verus!
