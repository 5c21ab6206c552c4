use recomp::Compositor;
use recomp::EventKind;
use recomp::ExtensionVersion;
use recomp::FrameOutcome;
use recomp::LogLevel;
use recomp::LoopAction;
use recomp::LoopState;
use recomp::OverlayWindow;
use recomp::Phase;
use recomp::RedirectMode;
use recomp::RenderError;
use recomp::Screen;
use recomp::ShapeRequest;
use recomp::SurfaceCaps;
use recomp::TeardownGuard;
use recomp::TeardownRequest;
use recomp::loop_start;
use recomp::loop_step;

fn running_session() -> Compositor {
    let screen = Screen {
        root: 1,
        width: 800,
        height: 600,
    };
    let mut c = Compositor::new(screen);
    c.extension_reply(Some(ExtensionVersion { major: 0, minor: 4 }))
        .unwrap();
    c.extension_reply(Some(ExtensionVersion { major: 6, minor: 0 }))
        .unwrap();
    c.extension_reply(Some(ExtensionVersion { major: 1, minor: 1 }))
        .unwrap();
    c.overlay_outcome(true, Some(42)).unwrap();
    assert_eq!(c.shape_outcome(true), None);
    let caps = SurfaceCaps {
        format_srgb: vec![true],
        alpha_mode_count: 1,
    };
    c.bind_surface(0, Some(10), Some(20), &caps).unwrap();
    c
}

#[test]
fn render_clears_to_the_configured_constant() {
    let c = running_session();
    let pass = c.render(FrameOutcome::Acquired).unwrap();
    assert_eq!(pass.red_milli, recomp::CLEAR_RED_MILLI);
    assert_eq!(pass.green_milli, recomp::CLEAR_GREEN_MILLI);
    assert_eq!(pass.blue_milli, recomp::CLEAR_BLUE_MILLI);
    assert_eq!(pass.alpha_milli, recomp::CLEAR_ALPHA_MILLI);
    assert_eq!(
        (pass.red_milli, pass.green_milli, pass.blue_milli, pass.alpha_milli),
        (100, 200, 500, 1000)
    );
}

#[test]
fn render_fails_only_when_the_surface_is_unavailable() {
    let c = running_session();
    assert!(c.render(FrameOutcome::Acquired).is_ok());
    assert_eq!(
        c.render(FrameOutcome::Lost),
        Err(RenderError::SurfaceUnavailable)
    );
    assert_eq!(
        c.render(FrameOutcome::Outdated),
        Err(RenderError::SurfaceUnavailable)
    );
}

#[test]
fn steady_loop_presents_frame_after_frame() {
    let mut c = running_session();
    for _ in 0..5 {
        let action = c.run_step(FrameOutcome::Acquired, None);
        assert_eq!(action, LoopAction::Continue);
        assert_eq!(c.phase, Phase::Running);
        assert!(c.render(FrameOutcome::Acquired).is_ok());
    }
}

#[test]
fn failed_frame_earns_one_reconfigure_then_is_fatal() {
    let mut c = running_session();
    assert_eq!(
        c.run_step(FrameOutcome::Lost, None),
        LoopAction::Reconfigure
    );
    assert_eq!(c.phase, Phase::Running);
    assert_eq!(
        c.run_step(FrameOutcome::Lost, None),
        LoopAction::Fail(RenderError::SurfaceUnavailable)
    );
    assert_eq!(c.phase, Phase::Stopped);
}

#[test]
fn presented_frame_resets_the_retry_allowance() {
    let mut c = running_session();
    assert_eq!(
        c.run_step(FrameOutcome::Lost, None),
        LoopAction::Reconfigure
    );
    assert_eq!(c.run_step(FrameOutcome::Acquired, None), LoopAction::Continue);
    assert_eq!(
        c.run_step(FrameOutcome::Lost, None),
        LoopAction::Reconfigure
    );
}

#[test]
fn one_event_is_handled_and_the_loop_stops() {
    let mut c = running_session();
    let action = c.run_step(FrameOutcome::Acquired, Some(EventKind::ButtonPress));
    assert_eq!(action, LoopAction::HandleEvent(EventKind::ButtonPress));
    assert_eq!(c.phase, Phase::Stopped);
}

#[test]
fn loop_step_is_pure_over_state_and_inputs() {
    let s = loop_start();
    assert_eq!(s, LoopState::Running { retried: false });
    let (s2, a) = loop_step(s, true, None);
    assert_eq!(s2, LoopState::Running { retried: false });
    assert_eq!(a, LoopAction::Continue);
    let (s3, a3) = loop_step(s, true, Some(EventKind::DamageNotify));
    assert_eq!(s3, LoopState::Stopped);
    assert_eq!(a3, LoopAction::HandleEvent(EventKind::DamageNotify));
}

#[test]
fn errors_and_unrecognized_events_are_warnings() {
    assert_eq!(EventKind::Error.severity(), LogLevel::Warning);
    assert_eq!(EventKind::Unknown.severity(), LogLevel::Warning);
    assert_eq!(EventKind::Unhandled.severity(), LogLevel::Warning);
    assert_eq!(EventKind::ButtonPress.severity(), LogLevel::Info);
    assert_eq!(EventKind::DamageNotify.severity(), LogLevel::Info);
    assert_eq!(EventKind::MapNotify.severity(), LogLevel::Info);
}

#[test]
fn shape_requests_create_apply_and_destroy_one_region() {
    let screen = Screen {
        root: 1,
        width: 800,
        height: 600,
    };
    let mut c = Compositor::new(screen);
    c.extension_reply(Some(ExtensionVersion { major: 0, minor: 4 }))
        .unwrap();
    c.extension_reply(Some(ExtensionVersion { major: 6, minor: 0 }))
        .unwrap();
    c.extension_reply(Some(ExtensionVersion { major: 1, minor: 1 }))
        .unwrap();
    let req = c.redirect_request();
    assert_eq!(req.root, 1);
    assert_eq!(req.mode, RedirectMode::Automatic);
    let w = c.overlay_outcome(true, Some(42)).unwrap();
    assert_eq!(w.id, 42);
    let reqs = c.shape_requests(7);
    assert_eq!(
        reqs,
        vec![
            ShapeRequest::CreateEmptyRegion { region: 7 },
            ShapeRequest::SetInputShapeRegion { window: 42, region: 7 },
            ShapeRequest::DestroyRegion { region: 7 },
        ]
    );
}

#[test]
fn teardown_issues_each_release_request_exactly_once() {
    let mut g = TeardownGuard::new(5, OverlayWindow { id: 9 });
    let first = g.release();
    assert_eq!(
        first,
        vec![
            TeardownRequest::UnredirectSubwindows {
                root: 5,
                mode: RedirectMode::Automatic
            },
            TeardownRequest::ReleaseOverlayWindow { overlay: 9 },
        ]
    );
    let second = g.release();
    assert!(second.is_empty());
    let third = g.release();
    assert!(third.is_empty());
}

#[test]
fn session_teardown_is_idempotent_too() {
    let mut c = running_session();
    let first = c.release();
    assert_eq!(first.len(), 2);
    let second = c.release();
    assert!(second.is_empty());
}

#[test]
fn resize_reconfigures_without_recreating_device_or_surface() {
    let mut c = running_session();
    let before = c.surface.unwrap();
    c.resize(1024, 768);
    let after = c.surface.unwrap();
    assert_eq!(after.config.width, 1024);
    assert_eq!(after.config.height, 768);
    assert_eq!(after.adapter_id, before.adapter_id);
    assert_eq!(after.device_id, before.device_id);
    assert_eq!(after.config.format_index, before.config.format_index);
    assert!(c.render(FrameOutcome::Acquired).is_ok());
    assert_eq!(c.run_step(FrameOutcome::Acquired, None), LoopAction::Continue);
}

#[test]
fn full_session_from_connect_to_first_frame() {
    let screen = Screen {
        root: 1,
        width: 800,
        height: 600,
    };
    let mut c = Compositor::new(screen);
    assert_eq!(c.phase, Phase::Negotiating);
    while let Some(_ext) = c.pending_query() {
        c.extension_reply(Some(ExtensionVersion { major: 2, minor: 0 }))
            .unwrap();
    }
    assert_eq!(c.phase, Phase::Redirecting);
    let versions = c.versions();
    let floor = ExtensionVersion { major: 0, minor: 0 };
    for got in [versions.redirection, versions.shape, versions.damage] {
        assert!((got.major, got.minor) >= (floor.major, floor.minor));
    }
    let w = c.overlay_outcome(true, Some(0x2a)).unwrap();
    assert_ne!(w.id, 0);
    assert_ne!(w.id, screen.root);
    assert_eq!(c.shape_outcome(true), None);
    let caps = SurfaceCaps {
        format_srgb: vec![false, true],
        alpha_mode_count: 2,
    };
    c.bind_surface(0, Some(1), Some(2), &caps).unwrap();
    assert_eq!(c.phase, Phase::Running);
    let ctx = c.surface.unwrap();
    assert_eq!(ctx.config.width, u32::from(screen.width));
    assert_eq!(ctx.config.height, u32::from(screen.height));
    assert!(c.render(FrameOutcome::Acquired).is_ok());
}
