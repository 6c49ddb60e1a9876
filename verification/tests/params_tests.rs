use raytracer::params::{
    Angle, Camera, RenderParams, RenderParamsValidationError, SkyModelError, SkyParams,
};
use raytracer::sampling::SamplingParams;
use raytracer::scalar::Scalar;
use raytracer::session::{ParamsChange, Raytracer};

fn sc(x: f32) -> Scalar {
    Scalar::from_bits(x.to_bits())
}

fn nominal() -> RenderParams {
    RenderParams {
        camera: Camera::new(),
        sky: SkyParams::default(),
        sampling: SamplingParams::default(),
        viewport_size: (640, 480),
    }
}

#[test]
fn the_default_camera_is_the_one_described() {
    let c = Camera::new();
    let f = |s: Scalar| f32::from_bits(s.to_bits());
    assert_eq!((f(c.eye_pos.x), f(c.eye_pos.y), f(c.eye_pos.z)), (0.0, 0.0, 2.0));
    assert_eq!((f(c.eye_dir.x), f(c.eye_dir.y), f(c.eye_dir.z)), (1.0, 0.0, 0.0));
    assert_eq!((f(c.up.x), f(c.up.y), f(c.up.z)), (0.0, 1.0, 0.0));
    assert_eq!(f(c.vfov.as_degrees()), 30.0);
    assert_eq!(f(c.aperture), 0.8);
    assert_eq!(f(c.focus_distance), 3.0);
    let s = SkyParams::default();
    assert_eq!(f(s.azimuth_degrees), 0.0);
    assert_eq!(f(s.zenith_degrees), 85.0);
    assert_eq!(f(s.turbidity), 4.0);
    assert_eq!([f(s.albedo[0]), f(s.albedo[1]), f(s.albedo[2])], [1.0, 1.0, 1.0]);
}

#[test]
fn a_nominal_configuration_is_accepted() {
    assert!(nominal().validate().is_ok());
    let mut p = nominal();
    p.camera.vfov = Angle::degrees(sc(90.0));
    p.camera.aperture = sc(1.0);
    p.camera.focus_distance = sc(0.0);
    assert!(p.validate().is_ok());
    p.camera.vfov = Angle::degrees(sc(0.0));
    p.camera.aperture = sc(-0.0);
    p.camera.focus_distance = sc(-0.0);
    assert!(p.validate().is_ok());
}

#[test]
fn a_maximum_that_is_no_multiple_is_rejected() {
    let mut p = nominal();
    p.sampling.max_samples_per_pixel = 10;
    p.sampling.num_samples_per_pixel = 3;
    assert!(matches!(
        p.validate(),
        Err(RenderParamsValidationError::MaxSampleCountNotMultiple(10, 3))
    ));
    p.sampling.num_samples_per_pixel = 0;
    assert!(matches!(
        p.validate(),
        Err(RenderParamsValidationError::MaxSampleCountNotMultiple(10, 0))
    ));
}

#[test]
fn an_empty_viewport_is_rejected() {
    let mut p = nominal();
    p.viewport_size = (0, 10);
    assert!(matches!(p.validate(), Err(RenderParamsValidationError::ViewportSize(0, 10))));
    p.viewport_size = (10, 0);
    assert!(matches!(p.validate(), Err(RenderParamsValidationError::ViewportSize(10, 0))));
}

#[test]
fn a_field_of_view_of_95_degrees_is_rejected() {
    let mut p = nominal();
    p.camera.vfov = Angle::degrees(sc(95.0));
    match p.validate() {
        Err(RenderParamsValidationError::VfovOutOfRange(v)) => {
            assert_eq!(v.to_bits(), 95.0f32.to_bits())
        }
        other => panic!("{other:?}"),
    }
    p.camera.vfov = Angle::degrees(sc(-0.5));
    assert!(matches!(p.validate(), Err(RenderParamsValidationError::VfovOutOfRange(_))));
    p.camera.vfov = Angle::degrees(sc(90.00001));
    assert!(matches!(p.validate(), Err(RenderParamsValidationError::VfovOutOfRange(_))));
    p.camera.vfov = Angle::degrees(sc(f32::NAN));
    assert!(matches!(p.validate(), Err(RenderParamsValidationError::VfovOutOfRange(_))));
}

#[test]
fn an_aperture_of_one_and_a_half_is_rejected() {
    let mut p = nominal();
    p.camera.aperture = sc(1.5);
    match p.validate() {
        Err(RenderParamsValidationError::ApertureOutOfRange(v)) => {
            assert_eq!(v.to_bits(), 1.5f32.to_bits())
        }
        other => panic!("{other:?}"),
    }
    p.camera.aperture = sc(-1.0e-30);
    assert!(matches!(p.validate(), Err(RenderParamsValidationError::ApertureOutOfRange(_))));
}

#[test]
fn a_negative_focus_distance_is_rejected() {
    let mut p = nominal();
    p.camera.focus_distance = sc(-1.0);
    match p.validate() {
        Err(RenderParamsValidationError::FocusDistanceOutOfRange(v)) => {
            assert_eq!(v.to_bits(), (-1.0f32).to_bits())
        }
        other => panic!("{other:?}"),
    }
    // Not below zero: a NaN passes this test.
    p.camera.focus_distance = sc(f32::NAN);
    assert!(p.validate().is_ok());
}

#[test]
fn the_first_broken_condition_is_the_one_reported() {
    let mut p = nominal();
    p.camera.focus_distance = sc(-1.0);
    p.camera.aperture = sc(2.0);
    assert!(matches!(p.validate(), Err(RenderParamsValidationError::ApertureOutOfRange(_))));
    p.camera.vfov = Angle::degrees(sc(100.0));
    assert!(matches!(p.validate(), Err(RenderParamsValidationError::VfovOutOfRange(_))));
    p.viewport_size = (0, 0);
    assert!(matches!(p.validate(), Err(RenderParamsValidationError::ViewportSize(0, 0))));
    p.sampling.max_samples_per_pixel = 5;
    assert!(matches!(
        p.validate(),
        Err(RenderParamsValidationError::MaxSampleCountNotMultiple(5, 2))
    ));
}

#[test]
fn parameters_compare_as_numbers() {
    let a = nominal();
    let mut b = nominal();
    assert!(a == b);
    b.camera.eye_pos.x = sc(-0.0);
    assert!(a == b);
    b.camera.aperture = sc(0.5);
    assert!(a != b);
    let mut c = nominal();
    c.sky.turbidity = sc(f32::NAN);
    assert!(c != c);
}

#[test]
fn a_session_starts_at_frame_one_and_counts_rounds() {
    let p = nominal();
    let mut t = Raytracer::new(&p, Ok(())).unwrap();
    assert_eq!(t.progress(), (0, 128));
    let f = t.render_frame();
    assert_eq!(f.frame, [640, 480, 1]);
    assert_eq!(f.sampling.num_samples_per_pixel, 2);
    assert_eq!(f.sampling.clear_accumulated_samples, 1);
    assert_eq!(f.sampling.accumulated_samples_per_pixel, 2);
    let f = t.render_frame();
    assert_eq!(f.frame, [640, 480, 2]);
    assert_eq!(f.sampling.clear_accumulated_samples, 0);
    assert_eq!(t.progress(), (4, 128));
    for _ in 0..100 {
        t.render_frame();
    }
    assert_eq!(t.progress(), (128, 128));
    assert_eq!(t.render_frame().sampling.num_samples_per_pixel, 0);
}

#[test]
fn a_session_refuses_bad_parameters_and_a_bad_sky() {
    let mut bad = nominal();
    bad.viewport_size = (0, 10);
    assert!(matches!(
        Raytracer::new(&bad, Ok(())),
        Err(RenderParamsValidationError::ViewportSize(0, 10))
    ));
    let sky = SkyModelError::TurbidityOutOfRange(sc(11.0));
    assert!(matches!(
        Raytracer::new(&nominal(), Err(sky)),
        Err(RenderParamsValidationError::HwSkyModelValidationError(
            SkyModelError::TurbidityOutOfRange(_)
        ))
    ));
    // the parameters' own faults come first
    assert!(matches!(
        Raytracer::new(&bad, Err(sky)),
        Err(RenderParamsValidationError::ViewportSize(0, 10))
    ));
}

#[test]
fn new_parameters_start_the_sampling_over_and_rejected_ones_change_nothing() {
    let p = nominal();
    let mut t = Raytracer::new(&p, Ok(())).unwrap();
    t.render_frame();
    t.render_frame();
    assert_eq!(t.progress(), (4, 128));

    assert_eq!(t.set_render_params(&p, Ok(())).unwrap(), ParamsChange::Unchanged);
    assert_eq!(t.progress(), (4, 128));
    // equal parameters are not even tested against the sky
    let sky = SkyModelError::ElevationOutOfRange(sc(-1.0));
    assert_eq!(t.set_render_params(&p, Err(sky)).unwrap(), ParamsChange::Unchanged);

    let mut bad = nominal();
    bad.camera.aperture = sc(1.5);
    assert!(t.set_render_params(&bad, Ok(())).is_err());
    assert_eq!(t.progress(), (4, 128));
    assert!(t.render_params() == p);

    let mut q = nominal();
    q.sampling.max_samples_per_pixel = 64;
    assert!(matches!(
        t.set_render_params(&q, Err(sky)),
        Err(RenderParamsValidationError::HwSkyModelValidationError(_))
    ));
    assert_eq!(t.progress(), (4, 128));

    assert_eq!(t.set_render_params(&q, Ok(())).unwrap(), ParamsChange::Replaced);
    assert_eq!(t.progress(), (0, 64));
    let f = t.render_frame();
    assert_eq!(f.sampling.clear_accumulated_samples, 1);
    assert_eq!(f.frame[2], 3);
}
