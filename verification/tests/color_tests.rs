use raytracer::color::{
    div_rgb8, gradient_background, minus_rgb8, mult_rgb8, plus_rgb8, rgb8_to_vec3, vec3_to_rgb8,
    Color, Rgb8,
};
use raytracer::scalar::Scalar;
use raytracer::vector::{is_in_unit_sphere, random_in_hemisphere, Ray, Vec3};

fn sc(x: f32) -> Scalar {
    Scalar::from_bits(x.to_bits())
}

fn v(x: f32, y: f32, z: f32) -> Vec3 {
    Vec3::new(sc(x), sc(y), sc(z))
}

#[test]
fn a_new_color_is_black() {
    let c = Color::new();
    assert_eq!((c.data.x.to_bits(), c.data.y.to_bits(), c.data.z.to_bits()), (0, 0, 0));
}

#[test]
fn vectors_are_cut_to_channels() {
    assert_eq!(vec3_to_rgb8(v(0.0, 127.9, 255.0)), Rgb8 { r: 0, g: 127, b: 255 });
    assert_eq!(vec3_to_rgb8(v(-4.0, 300.0, f32::NAN)), Rgb8 { r: 0, g: 255, b: 0 });
    let c = Rgb8 { r: 25, g: 0, b: 200 };
    let back = rgb8_to_vec3(c);
    assert_eq!(back.x.to_bits(), 25.0f32.to_bits());
    assert_eq!(back.y.to_bits(), 0.0f32.to_bits());
    assert_eq!(back.z.to_bits(), 200.0f32.to_bits());
    assert_eq!(vec3_to_rgb8(back), c);
}

#[test]
fn channels_are_added_subtracted_multiplied_and_divided() {
    let a = Rgb8 { r: 10, g: 20, b: 30 };
    let b = Rgb8 { r: 1, g: 2, b: 3 };
    assert_eq!(plus_rgb8(a, b), Rgb8 { r: 11, g: 22, b: 33 });
    assert_eq!(minus_rgb8(a, b), Rgb8 { r: 9, g: 18, b: 27 });
    assert_eq!(mult_rgb8(a, 8), Rgb8 { r: 80, g: 160, b: 240 });
    assert_eq!(div_rgb8(a, 4), Rgb8 { r: 2, g: 5, b: 7 });
    assert_eq!(plus_rgb8(Rgb8 { r: 255, g: 0, b: 0 }, Rgb8 { r: 0, g: 255, b: 0 }).r, 255);
}

#[test]
fn the_gradient_background_reads_the_direction() {
    let ray = Ray::new(v(0.0, 0.0, 0.0), v(12.7, 200.2, -1.0));
    assert_eq!(gradient_background(&ray), Rgb8 { r: 200, g: 12, b: 50 });
    let d = Ray::default();
    let f = |s: Scalar| f32::from_bits(s.to_bits());
    assert_eq!((f(d.origin.x), f(d.origin.y), f(d.origin.z)), (1.5, 1.5, -4.0));
    assert_eq!((f(d.direction.x), f(d.direction.y), f(d.direction.z)), (0.0, 0.0, -1.0));
    assert_eq!(gradient_background(&d), Rgb8 { r: 0, g: 0, b: 50 });
}

#[test]
fn vectors_compare_negate_and_tell_when_they_point_nowhere() {
    assert!(v(0.0, 1.0, 2.0) == v(-0.0, 1.0, 2.0));
    assert!(v(0.0, 1.0, 2.0) != v(0.0, 1.0, 2.5));
    assert!(v(f32::NAN, 1.0, 2.0) != v(f32::NAN, 1.0, 2.0));
    let n = v(1.0, -2.0, 0.0).neg();
    assert_eq!(
        (n.x.to_bits(), n.y.to_bits(), n.z.to_bits()),
        ((-1.0f32).to_bits(), 2.0f32.to_bits(), (-0.0f32).to_bits())
    );
    assert!(v(0.0, -0.0, 0.0).is_degenerate());
    assert!(v(1.0, f32::NAN, 0.0).is_degenerate());
    assert!(!v(0.0, 1.0e-45, 0.0).is_degenerate());
    assert!(!v(f32::INFINITY, 0.0, 0.0).is_degenerate());
    let z = Vec3::zeros();
    assert_eq!((z.x.to_bits(), z.y.to_bits(), z.z.to_bits()), (0, 0, 0));
}

#[test]
fn a_random_vector_is_turned_into_the_half_space_of_the_normal() {
    let r = v(0.3, -0.4, 0.5);
    let same = random_in_hemisphere(r, sc(0.2));
    assert_eq!(same.y.to_bits(), (-0.4f32).to_bits());
    for facing in [-0.2, 0.0, f32::NAN] {
        let turned = random_in_hemisphere(r, sc(facing));
        assert_eq!(
            (turned.x.to_bits(), turned.y.to_bits(), turned.z.to_bits()),
            ((-0.3f32).to_bits(), 0.4f32.to_bits(), (-0.5f32).to_bits())
        );
    }
}

#[test]
fn a_point_is_in_the_unit_ball_when_its_squared_length_is_below_one() {
    assert!(is_in_unit_sphere(sc(0.0)));
    assert!(is_in_unit_sphere(sc(0.99999994)));
    assert!(!is_in_unit_sphere(sc(1.0)));
    assert!(!is_in_unit_sphere(sc(2.5)));
    assert!(!is_in_unit_sphere(sc(f32::NAN)));
}
