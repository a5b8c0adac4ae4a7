use orbit_viewer::camera::AZIMUTH_INIT;
use orbit_viewer::camera::POLAR_INIT;
use orbit_viewer::camera::RADIUS_INIT;
use orbit_viewer::render::AcquireError;
use orbit_viewer::render::FrameDirective;
use orbit_viewer::render::Key;
use orbit_viewer::render::PipelineChoice;
use orbit_viewer::render::RecoveryAction;
use orbit_viewer::render::State;
use orbit_viewer::render::SurfaceConfig;
use orbit_viewer::render::plan_recovery;

const NUM_INDICES: u32 = 42;

#[test]
fn fresh_state_skips_frames_until_configured() {
    let s = State::new(800, 800, NUM_INDICES);
    assert_eq!(s.pipeline, PipelineChoice::PrimaryShading);
    assert!(!s.is_surface_configured);
    assert_eq!(s.config, SurfaceConfig { width: 800, height: 800 });
    assert_eq!(s.num_indices, NUM_INDICES);
    assert_eq!(s.render_directive(), FrameDirective::SkipFrame);
}

#[test]
fn resize_with_zero_dimension_changes_nothing() {
    let mut s = State::new(800, 800, NUM_INDICES);
    let aspect_before = s.camera.aspect_ratio;
    s.resize(0, 600);
    s.resize(800, 0);
    s.resize(0, 0);
    assert!(!s.is_surface_configured);
    assert_eq!(s.config, SurfaceConfig { width: 800, height: 800 });
    assert_eq!(s.camera.aspect_ratio, aspect_before);
    assert_eq!(s.render_directive(), FrameDirective::SkipFrame);
}

#[test]
fn resize_with_positive_dimensions_configures_and_updates_aspect() {
    let mut s = State::new(800, 800, NUM_INDICES);
    s.resize(800, 600);
    assert!(s.is_surface_configured);
    assert_eq!(s.config, SurfaceConfig { width: 800, height: 600 });
    assert_eq!(s.camera.aspect_ratio, 133_333);
    assert_eq!(
        s.render_directive(),
        FrameDirective::Draw { pipeline: PipelineChoice::PrimaryShading, index_count: NUM_INDICES },
    );
}

#[test]
fn zero_resize_after_valid_resize_keeps_configuration() {
    let mut s = State::new(800, 800, NUM_INDICES);
    s.resize(800, 600);
    s.resize(0, 0);
    assert!(s.is_surface_configured);
    assert_eq!(s.config, SurfaceConfig { width: 800, height: 600 });
    assert_eq!(s.camera.aspect_ratio, 133_333);
}

#[test]
fn even_number_of_toggles_restores_pipeline() {
    let mut s = State::new(800, 800, NUM_INDICES);
    for round in 0..10u32 {
        let exit = s.handle_key(Key::Space, true);
        assert!(!exit);
        if round % 2 == 0 {
            assert_eq!(s.pipeline, PipelineChoice::BarycentricDebug);
        } else {
            assert_eq!(s.pipeline, PipelineChoice::PrimaryShading);
        }
    }
    assert_eq!(s.pipeline, PipelineChoice::PrimaryShading);
}

#[test]
fn space_release_does_not_toggle() {
    let mut s = State::new(800, 800, NUM_INDICES);
    s.handle_key(Key::Space, false);
    assert_eq!(s.pipeline, PipelineChoice::PrimaryShading);
}

#[test]
fn escape_pressed_is_the_only_exit() {
    let mut s = State::new(800, 800, NUM_INDICES);
    assert!(s.handle_key(Key::Escape, true));
    assert!(!s.handle_key(Key::Escape, false));
    assert!(!s.handle_key(Key::Space, true));
    assert!(!s.handle_key(Key::KeyW, true));
    assert!(!s.handle_key(Key::Other, true));
}

#[test]
fn movement_keys_write_their_flags() {
    let mut s = State::new(800, 800, NUM_INDICES);
    s.handle_key(Key::KeyQ, true);
    s.handle_key(Key::KeyE, true);
    s.handle_key(Key::KeyA, true);
    s.handle_key(Key::KeyD, true);
    s.handle_key(Key::KeyW, true);
    s.handle_key(Key::KeyS, true);
    assert!(s.camera.cam_controller.q);
    assert!(s.camera.cam_controller.e);
    assert!(s.camera.cam_controller.a);
    assert!(s.camera.cam_controller.d);
    assert!(s.camera.cam_controller.w);
    assert!(s.camera.cam_controller.s);
    s.handle_key(Key::KeyE, false);
    assert!(!s.camera.cam_controller.e);
    assert!(s.camera.cam_controller.q);
    s.handle_key(Key::Other, true);
    assert!(s.camera.cam_controller.q);
}

#[test]
fn ignored_keys_change_nothing() {
    let mut s = State::new(800, 800, NUM_INDICES);
    let exit = s.handle_key(Key::Other, true);
    assert!(!exit);
    assert_eq!(s.pipeline, PipelineChoice::PrimaryShading);
    assert_eq!(s.camera.radius, RADIUS_INIT);
    assert!(!s.camera.cam_controller.w);
}

#[test]
fn update_advances_camera_and_returns_its_uniform() {
    let mut s = State::new(800, 800, NUM_INDICES);
    s.handle_key(Key::KeyE, true);
    s.handle_key(Key::KeyD, true);
    let vp = s.update();
    assert_eq!(vp.radius, RADIUS_INIT + 1_000);
    assert_eq!(vp.azimuth, AZIMUTH_INIT + 1_000);
    assert_eq!(vp.polar, POLAR_INIT);
    assert_eq!(vp.radius, s.camera.radius);
    assert_eq!(vp.azimuth, s.camera.azimuth);
    assert_eq!(vp.aspect_ratio, s.camera.aspect_ratio);
}

#[test]
fn directive_follows_the_pipeline_toggle() {
    let mut s = State::new(800, 800, NUM_INDICES);
    s.resize(800, 800);
    s.handle_key(Key::Space, true);
    assert_eq!(
        s.render_directive(),
        FrameDirective::Draw {
            pipeline: PipelineChoice::BarycentricDebug,
            index_count: NUM_INDICES,
        },
    );
}

#[test]
fn surface_format_selection_prefers_first_srgb() {
    assert_eq!(orbit_viewer::render::select_surface_format(&vec![false, true, true]), 1);
    assert_eq!(orbit_viewer::render::select_surface_format(&vec![true, false]), 0);
    assert_eq!(orbit_viewer::render::select_surface_format(&vec![false, false, false]), 0);
    assert_eq!(orbit_viewer::render::select_surface_format(&vec![false]), 0);
}

#[test]
fn recovery_policy_matches_the_error_kind() {
    assert_eq!(plan_recovery(AcquireError::Recoverable), RecoveryAction::ResizeAndRetry);
    assert_eq!(plan_recovery(AcquireError::Fatal), RecoveryAction::SkipFrameAndReport);
}

#[test]
fn full_scenario_construct_steps_and_resize() {
    let mut s = State::new(800, 800, NUM_INDICES);
    assert_eq!(s.camera.radius, 400_000);
    assert_eq!(s.camera.azimuth, 78_540);
    assert_eq!(s.camera.polar, 78_540);
    assert_eq!(s.camera.aspect_ratio, 100_000);
    s.handle_key(Key::KeyE, true);
    for _ in 0..100 {
        s.update();
    }
    assert_eq!(s.camera.radius, 500_000);
    s.resize(800, 600);
    s.resize(0, 0);
    assert!(s.is_surface_configured);
    assert_eq!(s.config, SurfaceConfig { width: 800, height: 600 });
}
