use ruffle_android::backend::{
    to_surface_length, viewport, BackendChoice, ModeChange, RenderBackend, RendererStep,
    ViewportDimensions, WindowSize,
};

#[test]
fn vulkan_is_the_default() {
    let choice = BackendChoice::new();
    assert_eq!(choice.mode, RenderBackend::Vulkan);
    assert_eq!(choice.active_backend(), -1);
}

#[test]
fn requested_vulkan_is_used() {
    let mut choice = BackendChoice::new();
    assert_eq!(choice.begin(), RenderBackend::Vulkan);
    assert_eq!(choice.attempt_finished(RenderBackend::Vulkan, true), RendererStep::Ready);
    assert_eq!(choice.active_backend(), 0);
}

#[test]
fn requested_opengl_is_used() {
    let mut choice = BackendChoice::new();
    assert_eq!(choice.set_mode(1), ModeChange::Applied);
    assert_eq!(choice.begin(), RenderBackend::OpenGl);
    assert_eq!(choice.attempt_finished(RenderBackend::OpenGl, true), RendererStep::Ready);
    assert_eq!(choice.active_backend(), 1);
}

#[test]
fn vulkan_falls_back_to_opengl() {
    let mut choice = BackendChoice::new();
    let requested = choice.begin();
    assert_eq!(
        choice.attempt_finished(requested, false),
        RendererStep::Retry(RenderBackend::OpenGl)
    );
    assert_eq!(choice.active_backend(), -1);
    assert_eq!(choice.attempt_finished(RenderBackend::OpenGl, true), RendererStep::Ready);
    assert_eq!(choice.active_backend(), 1);
    assert_eq!(choice.mode, RenderBackend::Vulkan);
}

#[test]
fn nothing_stands_in_for_opengl() {
    let mut choice = BackendChoice::new();
    choice.begin();
    assert_eq!(choice.attempt_finished(RenderBackend::OpenGl, false), RendererStep::Fatal);
    assert_eq!(choice.active_backend(), -1);
}

#[test]
fn late_choice_is_deferred() {
    let mut choice = BackendChoice::new();
    let requested = choice.begin();
    choice.attempt_finished(requested, true);
    assert_eq!(choice.set_mode(1), ModeChange::Deferred);
    assert_eq!(choice.active_backend(), 0);
    choice.release();
    assert_eq!(choice.active_backend(), -1);
    assert_eq!(choice.begin(), RenderBackend::OpenGl);
}

#[test]
fn unknown_backend_codes_are_ignored() {
    let mut choice = BackendChoice::new();
    choice.set_mode(1);
    for code in [-1, 2, 255, 256, i32::MIN, i32::MAX] {
        assert_eq!(choice.set_mode(code), ModeChange::Ignored);
        assert_eq!(choice.mode, RenderBackend::OpenGl);
    }
    assert_eq!(choice.set_mode(0), ModeChange::Applied);
    assert_eq!(choice.mode, RenderBackend::Vulkan);
}

#[test]
fn negative_lengths_wrap_round() {
    assert_eq!(to_surface_length(0), 0);
    assert_eq!(to_surface_length(i32::MAX), 0x7fff_ffff);
    assert_eq!(to_surface_length(-1), 0xffff_ffff);
    assert_eq!(to_surface_length(i32::MIN), 0x8000_0000);
}

#[test]
fn viewport_has_the_density_of_the_screen() {
    let window = WindowSize { width: 1920, height: 1080 };
    assert_eq!(
        viewport(window, Some(320)),
        ViewportDimensions { width: 1920, height: 1080, density: 320 }
    );
    assert_eq!(
        viewport(window, None),
        ViewportDimensions { width: 1920, height: 1080, density: 160 }
    );
}
