use raytracer::material::{append_material, gpu_materials, GpuMaterial, Material};
use raytracer::scalar::Scalar;
use raytracer::texture::{texture_lookup, Texture, TextureDescriptor};
use raytracer::vector::{arry_to_vec3, Vec3};

fn sc(x: f32) -> Scalar {
    Scalar::from_bits(x.to_bits())
}

fn texel(r: f32, g: f32, b: f32) -> [Scalar; 3] {
    [sc(r), sc(g), sc(b)]
}

fn floats(v: Vec3) -> [f32; 3] {
    [f32::from_bits(v.x.to_bits()), f32::from_bits(v.y.to_bits()), f32::from_bits(v.z.to_bits())]
}

fn bits(t: &[[Scalar; 3]]) -> Vec<[u32; 3]> {
    t.iter().map(|p| [p[0].to_bits(), p[1].to_bits(), p[2].to_bits()]).collect()
}

// Column and row as the numeric side computes them from surface coordinates.
fn place(desc: TextureDescriptor, u: f32, v: f32) -> (Scalar, Scalar) {
    let u = u.clamp(0.0, 1.0);
    let v = 1.0 - v.clamp(0.0, 1.0);
    (sc(u * desc.width as f32), sc(v * desc.height as f32))
}

fn lookup(desc: TextureDescriptor, data: &[[Scalar; 3]], u: f32, v: f32) -> Option<[f32; 3]> {
    let (column, row) = place(desc, u, v);
    texture_lookup(desc, data, column, row).map(floats)
}

fn grid(width: u32, height: u32, base: f32) -> Texture {
    let mut data = Vec::new();
    for i in 0..(width * height) {
        data.push(texel(base + i as f32, 0.0, 0.0));
    }
    Texture::new_from_image((width, height), data).unwrap()
}

#[test]
fn lookup_in_a_two_by_two_texture_resolves_to_opposite_corners() {
    // rows are stored top down: texels 0 1 are the top row, 2 3 the bottom row
    let data = vec![
        texel(0.0, 0.0, 0.0),
        texel(1.0, 0.0, 0.0),
        texel(2.0, 0.0, 0.0),
        texel(3.0, 0.0, 0.0),
    ];
    let desc = TextureDescriptor { width: 2, height: 2, offset: 0 };
    // u = 0.1 -> column 0; v = 0.1 -> 1 - v = 0.9 -> row 1: texel 2
    assert_eq!(lookup(desc, &data, 0.1, 0.1), Some([2.0, 0.0, 0.0]));
    // u = 0.9 -> column 1; v = 0.9 -> 1 - v = 0.1 -> row 0: texel 1
    assert_eq!(lookup(desc, &data, 0.9, 0.9), Some([1.0, 0.0, 0.0]));
    assert_eq!(lookup(desc, &data, 0.1, 0.9), Some([0.0, 0.0, 0.0]));
    assert_eq!(lookup(desc, &data, 0.9, 0.1), Some([3.0, 0.0, 0.0]));
    // the same by the columns and rows themselves: 0.2 and 1.8, 1.8 and 0.2
    assert_eq!(floats(texture_lookup(desc, &data, sc(0.2), sc(1.8)).unwrap()), [2.0, 0.0, 0.0]);
    assert_eq!(floats(texture_lookup(desc, &data, sc(1.8), sc(0.2)).unwrap()), [1.0, 0.0, 0.0]);
}

#[test]
fn the_column_is_the_whole_part_of_the_rounded_product() {
    // 0.7 is a little less than seven tenths, but its product with ten is
    // rounded to seven: the texel read is that of column 7.
    let data: Vec<[Scalar; 3]> = (0..10).map(|i| texel(i as f32, 0.0, 0.0)).collect();
    let desc = TextureDescriptor { width: 10, height: 1, offset: 0 };
    assert_eq!(0.7f32.to_bits(), 0x3f33_3333);
    assert_eq!(lookup(desc, &data, 0.7, 0.5), Some([7.0, 0.0, 0.0]));
    assert_eq!(floats(texture_lookup(desc, &data, sc(6.9999995), sc(0.5)).unwrap()), [6.0, 0.0, 0.0]);
}

#[test]
fn lookup_adds_the_offset_and_clamps_the_coordinates() {
    let mut data = vec![texel(9.0, 9.0, 9.0); 3];
    for i in 0..6 {
        data.push(texel(i as f32, 10.0, 20.0));
    }
    // 3 wide, 2 high, from place 3 on
    let desc = TextureDescriptor { width: 3, height: 2, offset: 3 };
    let at = |u: f32, v: f32| lookup(desc, &data, u, v);
    assert_eq!(at(0.0, 1.0), Some([0.0, 10.0, 20.0]));
    assert_eq!(at(0.5, 1.0), Some([1.0, 10.0, 20.0]));
    assert_eq!(at(0.99, 0.75), Some([2.0, 10.0, 20.0]));
    assert_eq!(at(0.0, 0.5), Some([3.0, 10.0, 20.0]));
    assert_eq!(at(0.7, 0.25), Some([5.0, 10.0, 20.0]));
    // below the span: held to 0; above: held to 1
    assert_eq!(at(-3.0, 2.0), Some([0.0, 10.0, 20.0]));
    // a column and a row that are no numbers are cut to 0
    assert_eq!(
        texture_lookup(desc, &data, sc(f32::NAN), sc(f32::NAN)).map(floats),
        Some([0.0, 10.0, 20.0])
    );
    assert_eq!(
        texture_lookup(desc, &data, sc(-2.5), sc(-0.0)).map(floats),
        Some([0.0, 10.0, 20.0])
    );
    // u = 1 is the column after the last: the first texel of the next row
    assert_eq!(at(1.0, 1.0), Some([3.0, 10.0, 20.0]));
    // v = 0 is the row after the last: outside the array here
    assert_eq!(at(0.0, 0.0), None);
    assert_eq!(at(1.0, 0.0), None);
}

#[test]
fn lookup_outside_the_array_gives_none() {
    let data = vec![texel(1.0, 2.0, 3.0)];
    let far = TextureDescriptor { width: 1, height: 1, offset: 5 };
    assert!(lookup(far, &data, 0.5, 0.5).is_none());
    assert!(lookup(TextureDescriptor::empty(), &data, 0.5, 0.5).is_none());
    let huge = TextureDescriptor { width: u32::MAX, height: u32::MAX, offset: u32::MAX };
    assert!(lookup(huge, &data, 1.0, 0.0).is_none());
    assert!(texture_lookup(huge, &data, sc(f32::INFINITY), sc(f32::INFINITY)).is_none());
    let one = TextureDescriptor { width: 1, height: 1, offset: 0 };
    assert_eq!(lookup(one, &data, 0.5, 0.5), Some([1.0, 2.0, 3.0]));
    // at u = 1 and v = 0 the place is past the texture
    assert_eq!(lookup(one, &data, 1.0, 0.0), None);
}

#[test]
fn the_empty_descriptor_has_no_texels_at_the_far_end() {
    let d = TextureDescriptor::empty();
    assert_eq!((d.width, d.height, d.offset), (0, 0, 0xffff_ffff));
}

#[test]
fn a_texture_holds_width_times_height_texels() {
    assert!(Texture::new_from_image((2, 2), vec![texel(0.0, 0.0, 0.0); 3]).is_none());
    assert!(Texture::new_from_image((0, 7), vec![texel(0.0, 0.0, 0.0); 1]).is_none());
    let t = Texture::new_from_image((0, 7), vec![]).unwrap();
    assert_eq!(t.dimensions(), (0, 7));
    let t = grid(3, 2, 0.0);
    assert_eq!(t.dimensions(), (3, 2));
    assert_eq!(t.as_slice().len(), 6);
    assert_eq!(t.as_slice()[4][0].to_bits(), 4.0f32.to_bits());
    let c = Texture::new_from_color(Vec3::new(sc(0.5), sc(0.7), sc(0.8)));
    assert_eq!(c.dimensions(), (1, 1));
    assert_eq!(bits(c.as_slice()), bits(&[texel(0.5, 0.7, 0.8)]));
}

#[test]
fn arry_to_vec3_keeps_the_order() {
    assert_eq!(floats(arry_to_vec3(texel(1.0, 2.0, 3.0))), [1.0, 2.0, 3.0]);
}

#[test]
fn flat_materials_say_where_their_texels_lie() {
    let mut global = vec![texel(7.0, 7.0, 7.0)];
    let a = grid(2, 2, 100.0);
    let m = GpuMaterial::lambertian(&a, &mut global);
    assert_eq!(m.id, 0);
    assert_eq!((m.desc1.width, m.desc1.height, m.desc1.offset), (2, 2, 1));
    assert_eq!(m.desc2.offset, 0xffff_ffff);
    assert_eq!(m.x.to_bits(), 0);
    assert_eq!(global.len(), 5);
    assert_eq!(bits(&global[1..]), bits(a.as_slice()));

    let b = grid(1, 3, 200.0);
    let m = GpuMaterial::metal(&b, sc(0.4), &mut global);
    assert_eq!(m.id, 1);
    assert_eq!((m.desc1.width, m.desc1.height, m.desc1.offset), (1, 3, 5));
    assert_eq!(m.x.to_bits(), 0.4f32.to_bits());
    assert_eq!(bits(&global[5..]), bits(b.as_slice()));

    let m = GpuMaterial::dielectric(sc(1.5));
    assert_eq!(m.id, 2);
    assert_eq!(m.x.to_bits(), 1.5f32.to_bits());
    assert_eq!((m.desc1.width, m.desc1.offset, m.desc2.offset), (0, 0xffff_ffff, 0xffff_ffff));

    let m = GpuMaterial::checkerboard(&a, &b, &mut global);
    assert_eq!(m.id, 3);
    assert_eq!((m.desc1.width, m.desc1.height, m.desc1.offset), (2, 2, 8));
    assert_eq!((m.desc2.width, m.desc2.height, m.desc2.offset), (1, 3, 12));
    assert_eq!(global.len(), 15);
    assert_eq!(bits(&global[8..12]), bits(a.as_slice()));
    assert_eq!(bits(&global[12..]), bits(b.as_slice()));
    // what the descriptor names is what a lookup finds
    assert_eq!(lookup(m.desc2, &global, 0.5, 0.9), Some([200.0, 0.0, 0.0]));
}

#[test]
fn all_materials_are_laid_out_one_after_the_other() {
    let materials = vec![
        Material::Checkerboard { even: grid(1, 1, 10.0), odd: grid(2, 1, 20.0) },
        Material::Lambertian { albedo: grid(2, 2, 30.0) },
        Material::Dielectric { refraction_index: sc(1.5) },
        Material::Metal { albedo: grid(1, 2, 40.0), fuzz: sc(0.25) },
    ];
    let (records, texels) = gpu_materials(&materials).unwrap();
    assert_eq!(records.len(), 4);
    let firsts: Vec<f32> = texels.iter().map(|t| f32::from_bits(t[0].to_bits())).collect();
    // the odd texture of a checkerboard comes before its even one
    assert_eq!(firsts, vec![20.0, 21.0, 10.0, 30.0, 31.0, 32.0, 33.0, 40.0, 41.0]);
    assert_eq!(records[0].id, 3);
    assert_eq!((records[0].desc1.width, records[0].desc1.offset), (2, 0));
    assert_eq!((records[0].desc2.width, records[0].desc2.offset), (1, 2));
    assert_eq!(records[1].id, 0);
    assert_eq!((records[1].desc1.width, records[1].desc1.height, records[1].desc1.offset), (2, 2, 3));
    assert_eq!(records[2].id, 2);
    assert_eq!(records[2].x.to_bits(), 1.5f32.to_bits());
    assert_eq!(records[3].id, 1);
    assert_eq!((records[3].desc1.height, records[3].desc1.offset), (2, 7));
    assert_eq!(records[3].x.to_bits(), 0.25f32.to_bits());

    let (records, texels) = gpu_materials(&Vec::new()).unwrap();
    assert!(records.is_empty() && texels.is_empty());
}

#[test]
fn append_material_is_one_step_of_the_layout() {
    let mut global = vec![texel(0.0, 0.0, 0.0); 2];
    let m = Material::Checkerboard { even: grid(1, 1, 10.0), odd: grid(1, 2, 20.0) };
    let r = append_material(&m, &mut global);
    assert_eq!(r.id, 3);
    assert_eq!((r.desc1.height, r.desc1.offset), (2, 2));
    assert_eq!((r.desc2.height, r.desc2.offset), (1, 4));
    assert_eq!(global.len(), 5);
    assert_eq!(global[4][0].to_bits(), 10.0f32.to_bits());
}
