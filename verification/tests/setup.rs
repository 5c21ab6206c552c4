use recomp::ConnectionError;
use recomp::Extension;
use recomp::ExtensionVersion;
use recomp::Negotiator;
use recomp::OverlayWindow;
use recomp::ProtocolError;
use recomp::SurfaceCaps;
use recomp::SurfaceError;
use recomp::acquire_overlay;
use recomp::create_surface;
use recomp::negotiate;
use recomp::select_alpha_mode;
use recomp::select_format;
use recomp::validate_display_name;

fn v(major: u32, minor: u32) -> ExtensionVersion {
    ExtensionVersion { major, minor }
}

#[test]
fn negotiation_succeeds_when_all_extensions_present() {
    let r = negotiate(Some(v(0, 4)), Some(v(6, 0)), Some(v(1, 1))).unwrap();
    assert_eq!(r.redirection, v(0, 4));
    assert_eq!(r.shape, v(6, 0));
    assert_eq!(r.damage, v(1, 1));
}

#[test]
fn negotiation_fails_fast_on_first_absent_extension() {
    assert_eq!(
        negotiate(None, Some(v(6, 0)), Some(v(1, 1))),
        Err(ProtocolError::ExtensionUnavailable(Extension::Redirection))
    );
    assert_eq!(
        negotiate(Some(v(0, 4)), None, Some(v(1, 1))),
        Err(ProtocolError::ExtensionUnavailable(Extension::Shape))
    );
    assert_eq!(
        negotiate(Some(v(0, 4)), Some(v(6, 0)), None),
        Err(ProtocolError::ExtensionUnavailable(Extension::Damage))
    );
}

#[test]
fn negotiator_queries_in_fixed_order() {
    let mut n = Negotiator::new();
    assert_eq!(n.pending(), Some(Extension::Redirection));
    n.apply_reply(Some(v(0, 4))).unwrap();
    assert_eq!(n.pending(), Some(Extension::Shape));
    n.apply_reply(Some(v(6, 0))).unwrap();
    assert_eq!(n.pending(), Some(Extension::Damage));
    n.apply_reply(Some(v(1, 1))).unwrap();
    assert_eq!(n.pending(), None);
    let versions = n.versions();
    assert_eq!(versions.redirection, v(0, 4));
    assert_eq!(versions.damage, v(1, 1));
}

#[test]
fn negotiator_stops_issuing_queries_after_failure() {
    let mut n = Negotiator::new();
    n.apply_reply(Some(v(0, 4))).unwrap();
    let e = n.apply_reply(None).unwrap_err();
    assert_eq!(e, ProtocolError::ExtensionUnavailable(Extension::Shape));
    assert_eq!(n.pending(), None);
}

#[test]
fn overlay_is_nonzero_and_distinct_from_root() {
    let root: u32 = 0x123;
    let w = acquire_overlay(root, true, Some(0x456)).unwrap();
    assert_ne!(w.id, 0);
    assert_ne!(w.id, root);
    assert_eq!(w.id, 0x456);
}

#[test]
fn overlay_rejects_zero_and_root_identifiers() {
    let root: u32 = 0x123;
    assert_eq!(
        acquire_overlay(root, true, Some(0)),
        Err(ProtocolError::OverlayInvalid)
    );
    assert_eq!(
        acquire_overlay(root, true, Some(root)),
        Err(ProtocolError::OverlayInvalid)
    );
}

#[test]
fn overlay_requires_successful_redirect_first() {
    assert_eq!(
        acquire_overlay(1, false, Some(2)),
        Err(ProtocolError::RedirectFailed)
    );
    assert_eq!(
        acquire_overlay(1, true, None),
        Err(ProtocolError::OverlayRequestFailed)
    );
}

#[test]
fn format_selection_prefers_first_srgb() {
    assert_eq!(select_format(&vec![false, true, true]), Some(1));
    assert_eq!(select_format(&vec![true, false]), Some(0));
}

#[test]
fn format_selection_falls_back_to_first_reported() {
    assert_eq!(select_format(&vec![false, false, false]), Some(0));
}

#[test]
fn format_selection_fails_on_empty_list() {
    assert_eq!(select_format(&Vec::new()), None);
}

#[test]
fn alpha_mode_selection_takes_first_reported() {
    assert_eq!(select_alpha_mode(3), Some(0));
    assert_eq!(select_alpha_mode(0), None);
}

#[test]
fn surface_configuration_matches_screen_size_exactly() {
    let caps = SurfaceCaps {
        format_srgb: vec![false, true],
        alpha_mode_count: 1,
    };
    let ctx = create_surface(
        OverlayWindow { id: 77 },
        0,
        (1920, 1080),
        Some(11),
        Some(22),
        &caps,
    )
    .unwrap();
    assert_eq!(ctx.config.width, 1920);
    assert_eq!(ctx.config.height, 1080);
    assert_eq!(ctx.config.format_index, 1);
    assert!(ctx.config.format_srgb);
    assert_eq!(ctx.config.alpha_mode_index, 0);
    assert_eq!(ctx.config.max_frame_latency, recomp::MAX_FRAME_LATENCY);
    assert_eq!(ctx.adapter_id, 11);
    assert_eq!(ctx.device_id, 22);
}

#[test]
fn surface_creation_reports_each_failure_cause() {
    let good_caps = SurfaceCaps {
        format_srgb: vec![true],
        alpha_mode_count: 1,
    };
    let overlay = OverlayWindow { id: 77 };
    assert_eq!(
        create_surface(overlay, usize::MAX, (1, 1), Some(1), Some(2), &good_caps),
        Err(SurfaceError::ScreenIndexTooLarge)
    );
    assert_eq!(
        create_surface(OverlayWindow { id: 0 }, 0, (1, 1), Some(1), Some(2), &good_caps),
        Err(SurfaceError::WindowIdInvalid)
    );
    assert_eq!(
        create_surface(overlay, 0, (1, 1), None, Some(2), &good_caps),
        Err(SurfaceError::NoAdapter)
    );
    assert_eq!(
        create_surface(overlay, 0, (1, 1), Some(1), None, &good_caps),
        Err(SurfaceError::DeviceRequestFailed)
    );
    let no_formats = SurfaceCaps {
        format_srgb: Vec::new(),
        alpha_mode_count: 1,
    };
    assert_eq!(
        create_surface(overlay, 0, (1, 1), Some(1), Some(2), &no_formats),
        Err(SurfaceError::NoFormat)
    );
    let no_alpha = SurfaceCaps {
        format_srgb: vec![true],
        alpha_mode_count: 0,
    };
    assert_eq!(
        create_surface(overlay, 0, (1, 1), Some(1), Some(2), &no_alpha),
        Err(SurfaceError::NoAlphaMode)
    );
}

#[test]
fn shape_failure_is_surfaced_as_a_warning_not_an_error() {
    assert_eq!(recomp::shape_step_outcome(true), None);
    assert_eq!(
        recomp::shape_step_outcome(false),
        Some(ProtocolError::ShapeFailed)
    );
}

#[test]
fn display_name_without_zero_byte_is_accepted() {
    assert_eq!(validate_display_name(&b":0".to_vec()), Ok(()));
    assert_eq!(validate_display_name(&Vec::new()), Ok(()));
}

#[test]
fn display_name_with_interior_zero_byte_is_rejected() {
    assert_eq!(
        validate_display_name(&vec![b':', 0, b'1']),
        Err(ConnectionError::InvalidDisplayName)
    );
}

#[test]
fn error_messages_name_their_cause() {
    assert!(ConnectionError::Unreachable.message().contains("display server"));
    assert!(ProtocolError::RedirectFailed.message().contains("redirection"));
    assert!(SurfaceError::NoAdapter.message().contains("adapter"));
}
