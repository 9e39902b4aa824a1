use plug_gui::surface::{
    choose_alpha_mode, choose_format, choose_present_mode, AlphaMode, PresentMode,
    SurfaceCapabilities, SurfaceFormat, WgpuState,
};

fn format(format: u8, srgb: bool) -> SurfaceFormat<u8> {
    SurfaceFormat { format, srgb }
}

fn capabilities() -> SurfaceCapabilities<u8> {
    SurfaceCapabilities {
        formats: vec![format(1, true), format(2, false), format(3, false)],
        alpha_modes: vec![AlphaMode::Opaque, AlphaMode::Inherit],
        present_modes: vec![PresentMode::Mailbox, PresentMode::Fifo],
    }
}

#[test]
fn the_first_linear_format_is_chosen() {
    assert_eq!(choose_format(&capabilities().formats, 9), 2);
}

#[test]
fn without_a_linear_format_the_first_is_chosen() {
    assert_eq!(choose_format(&vec![format(5, true), format(6, true)], 9), 5);
}

#[test]
fn without_formats_the_fallback_is_chosen() {
    assert_eq!(choose_format(&vec![], 9u8), 9);
}

#[test]
fn alpha_modes_are_preferred_in_order() {
    assert_eq!(choose_alpha_mode(&vec![AlphaMode::Opaque, AlphaMode::Inherit]), AlphaMode::Inherit);
    assert_eq!(choose_alpha_mode(&vec![AlphaMode::Auto, AlphaMode::Opaque]), AlphaMode::Opaque);
    assert_eq!(
        choose_alpha_mode(&vec![AlphaMode::PostMultiplied, AlphaMode::PreMultiplied]),
        AlphaMode::PostMultiplied
    );
}

#[test]
fn present_modes_are_preferred_in_order() {
    assert_eq!(
        choose_present_mode(&vec![PresentMode::Immediate, PresentMode::Fifo]),
        PresentMode::Fifo
    );
    assert_eq!(
        choose_present_mode(&vec![PresentMode::Mailbox, PresentMode::Immediate]),
        PresentMode::Mailbox
    );
}

#[test]
fn a_new_surface_waits_to_be_configured() {
    let state = WgpuState::new_from_raw(&capabilities(), 9, 0, 600);
    assert_eq!(state.config.format, 2);
    assert_eq!(state.format(), 2);
    assert_eq!(state.config.alpha_mode, AlphaMode::Inherit);
    assert_eq!(state.config.present_mode, PresentMode::Fifo);
    assert_eq!((state.config.width, state.config.height), (1, 600));
    assert_eq!(state.config.desired_maximum_frame_latency, 2);
    assert!(!state.is_configured());
}

#[test]
fn configuring_is_retried_until_it_succeeds() {
    let mut state = WgpuState::new_from_raw(&capabilities(), 9, 800, 600);
    assert!(!state.try_configure(false));
    assert!(!state.is_configured());
    assert!(state.try_configure(true));
    assert!(state.is_configured());
    // Once it is configured, no attempt counts.
    assert!(state.try_configure(false));
}

#[test]
fn an_unconfigured_surface_is_not_resized() {
    let mut state = WgpuState::new_from_raw(&capabilities(), 9, 800, 600);
    assert!(!state.resize(1024, 768));
    assert_eq!((state.config.width, state.config.height), (800, 600));
}

#[test]
fn an_empty_extent_is_not_taken_over() {
    let mut state = WgpuState::new_from_raw(&capabilities(), 9, 800, 600);
    state.try_configure(true);
    assert!(!state.resize(0, 768));
    assert!(!state.resize(1024, 0));
    assert_eq!((state.config.width, state.config.height), (800, 600));
    assert!(state.is_configured());
}

#[test]
fn a_resize_may_fail_to_configure() {
    let mut state = WgpuState::new_from_raw(&capabilities(), 9, 800, 600);
    state.try_configure(true);
    assert!(state.resize(1024, 768));
    assert_eq!((state.config.width, state.config.height), (1024, 768));
    state.reconfigured(false);
    assert!(!state.is_configured());
    assert!(!state.resize(10, 10));
    assert!(state.try_configure(true));
}

#[test]
fn an_attempt_is_made_until_one_succeeds() {
    let mut state = WgpuState::new_from_raw(&capabilities(), 9, 800, 600);
    for _ in 0..2 {
        let config = state.next_attempt().unwrap();
        assert_eq!((config.format, config.width, config.height), (2, 800, 600));
        state.try_configure(false);
    }
    state.try_configure(true);
    assert!(state.next_attempt().is_none());
    state.resize(10, 20);
    state.reconfigured(false);
    assert_eq!(state.next_attempt().unwrap().width, 10);
}
