//! Materials, and their flat form: one record per material and one array of
//! texels for all of them.

use vstd::prelude::*;
use crate::scalar::Scalar;
use crate::texture::{Texture, TextureDescriptor};

verus! {

/// What a surface is made of.
#[derive(Debug)]
pub enum Material {
    /// Scatters light evenly.
    Lambertian { albedo: Texture },
    /// Mirrors light, the less sharply the larger `fuzz` is (from 0 to 1).
    Metal { albedo: Texture, fuzz: Scalar },
    /// Lets light through, bent by `refraction_index` (above 0).
    Dielectric { refraction_index: Scalar },
    /// Scatters light evenly, in two textures that alternate in space.
    Checkerboard { even: Texture, odd: Texture },
}

/// The kind of a flat material that scatters light evenly.
pub const LAMBERTIAN: u32 = 0;

/// The kind of a flat material that mirrors light.
pub const METAL: u32 = 1;

/// The kind of a flat material that lets light through.
pub const DIELECTRIC: u32 = 2;

/// The kind of a flat material with two alternating textures.
pub const CHECKERBOARD: u32 = 3;

/// A material without its texels: its kind, where its textures lie in the array
/// of all texels, and the one number of its kind (the fuzz of a metal, the
/// refraction index of a dielectric).
#[derive(Clone, Copy, Debug)]
pub struct GpuMaterial {
    pub id: u32,
    pub desc1: TextureDescriptor,
    pub desc2: TextureDescriptor,
    pub x: Scalar,
}

impl Material {
    /// The material's textures are well formed.
    pub open spec fn well_formed(self) -> bool {
        match self {
            Material::Lambertian { albedo } => albedo.well_formed(),
            Material::Metal { albedo, fuzz } => albedo.well_formed(),
            Material::Dielectric { refraction_index } => true,
            Material::Checkerboard { even, odd } => even.well_formed() && odd.well_formed(),
        }
    }

    /// The material's numbers are in range: a metal's fuzz lies from 0 to 1, a
    /// dielectric's refraction index is above zero.
    pub open spec fn valid(self) -> bool {
        match self {
            Material::Lambertian { albedo } => true,
            Material::Metal { albedo, fuzz } => fuzz.within(0, 1),
            Material::Dielectric { refraction_index } => refraction_index.above_zero(),
            Material::Checkerboard { even, odd } => true,
        }
    }

    pub fn is_valid(&self) -> (r: bool)
        ensures
            r == self.valid(),
    {
        match self {
            Material::Lambertian { albedo } => true,
            Material::Metal { albedo, fuzz } => fuzz.is_within(
                Scalar::from_u8(0),
                Scalar::from_u8(1),
            ),
            Material::Dielectric { refraction_index } => refraction_index.is_above_zero(),
            Material::Checkerboard { even, odd } => true,
        }
    }

    /// The number of texels that the material's textures hold together.
    pub open spec fn texels(self) -> nat {
        match self {
            Material::Lambertian { albedo } => albedo@.len(),
            Material::Metal { albedo, fuzz } => albedo@.len(),
            Material::Dielectric { refraction_index } => 0,
            Material::Checkerboard { even, odd } => odd@.len() + even@.len(),
        }
    }
}

/// The number of texels of the first `n` materials.
pub open spec fn texels_before(materials: Seq<Material>, n: int) -> nat
    decreases n,
{
    if n <= 0 {
        0
    } else {
        texels_before(materials, n - 1) + materials[n - 1].texels()
    }
}

/// The descriptor of `texture` placed at `offset`.
pub open spec fn placed(texture: Texture, offset: int) -> TextureDescriptor {
    TextureDescriptor {
        width: texture.size().0,
        height: texture.size().1,
        offset: offset as u32,
    }
}

/// The flat form of `material` when its first texel is stored at `offset`.
/// A checkerboard stores its `odd` texture first, then its `even` one.
pub open spec fn flat(material: Material, offset: int) -> GpuMaterial {
    match material {
        Material::Lambertian { albedo } => GpuMaterial {
            id: LAMBERTIAN,
            desc1: placed(albedo, offset),
            desc2: TextureDescriptor { width: 0, height: 0, offset: 0xffff_ffff },
            x: Scalar { bits: 0 },
        },
        Material::Metal { albedo, fuzz } => GpuMaterial {
            id: METAL,
            desc1: placed(albedo, offset),
            desc2: TextureDescriptor { width: 0, height: 0, offset: 0xffff_ffff },
            x: fuzz,
        },
        Material::Dielectric { refraction_index } => GpuMaterial {
            id: DIELECTRIC,
            desc1: TextureDescriptor { width: 0, height: 0, offset: 0xffff_ffff },
            desc2: TextureDescriptor { width: 0, height: 0, offset: 0xffff_ffff },
            x: refraction_index,
        },
        Material::Checkerboard { even, odd } => GpuMaterial {
            id: CHECKERBOARD,
            desc1: placed(odd, offset),
            desc2: placed(even, offset + odd@.len() as int),
            x: Scalar { bits: 0 },
        },
    }
}

/// The texels of `material`, in the order in which its flat form stores them.
pub open spec fn texels_of(material: Material) -> Seq<[Scalar; 3]> {
    match material {
        Material::Lambertian { albedo } => albedo@,
        Material::Metal { albedo, fuzz } => albedo@,
        Material::Dielectric { refraction_index } => Seq::empty(),
        Material::Checkerboard { even, odd } => odd@ + even@,
    }
}

impl GpuMaterial {
    /// The flat form of a Lambertian material, whose texels go to the end of
    /// `global_texture_data`.
    pub fn lambertian(albedo: &Texture, global_texture_data: &mut Vec<[Scalar; 3]>) -> (r:
        GpuMaterial)
        requires
            old(global_texture_data)@.len() <= u32::MAX,
        ensures
            final(global_texture_data)@ == old(global_texture_data)@ + albedo@,
            r == flat(
                (Material::Lambertian { albedo: *albedo }),
                old(global_texture_data)@.len() as int,
            ),
            r.desc1.locates(albedo@, final(global_texture_data)@),
    {
        GpuMaterial {
            id: LAMBERTIAN,
            desc1: Self::append_to_global_texture_data(albedo, global_texture_data),
            desc2: TextureDescriptor::empty(),
            x: Scalar::from_bits(0),
        }
    }

    /// The flat form of a metal, whose texels go to the end of
    /// `global_texture_data`.
    pub fn metal(albedo: &Texture, fuzz: Scalar, global_texture_data: &mut Vec<[Scalar; 3]>) -> (r:
        GpuMaterial)
        requires
            old(global_texture_data)@.len() <= u32::MAX,
        ensures
            final(global_texture_data)@ == old(global_texture_data)@ + albedo@,
            r == flat(
                (Material::Metal { albedo: *albedo, fuzz }),
                old(global_texture_data)@.len() as int,
            ),
            r.desc1.locates(albedo@, final(global_texture_data)@),
    {
        GpuMaterial {
            id: METAL,
            desc1: Self::append_to_global_texture_data(albedo, global_texture_data),
            desc2: TextureDescriptor::empty(),
            x: fuzz,
        }
    }

    /// The flat form of a dielectric.
    pub fn dielectric(refraction_index: Scalar) -> (r: GpuMaterial)
        ensures
            r == flat((Material::Dielectric { refraction_index }), 0),
    {
        GpuMaterial {
            id: DIELECTRIC,
            desc1: TextureDescriptor::empty(),
            desc2: TextureDescriptor::empty(),
            x: refraction_index,
        }
    }

    /// The flat form of a material with two alternating textures: the texels of
    /// the first go to the end of `global_texture_data`, those of the second
    /// after them.
    pub fn checkerboard(
        even: &Texture,
        odd: &Texture,
        global_texture_data: &mut Vec<[Scalar; 3]>,
    ) -> (r: GpuMaterial)
        requires
            old(global_texture_data)@.len() + even@.len() <= u32::MAX,
        ensures
            final(global_texture_data)@ == old(global_texture_data)@ + even@ + odd@,
            r.id == CHECKERBOARD,
            r.desc1 == placed(*even, old(global_texture_data)@.len() as int),
            r.desc2 == placed(*odd, (old(global_texture_data)@.len() + even@.len()) as int),
            r.x.bits == 0,
            r.desc1.locates(even@, final(global_texture_data)@),
            r.desc2.locates(odd@, final(global_texture_data)@),
    {
        let desc1 = Self::append_to_global_texture_data(even, global_texture_data);
        let ghost between = global_texture_data@;
        let desc2 = Self::append_to_global_texture_data(odd, global_texture_data);
        proof {
            lemma_locates_after_append(desc1, even@, between, odd@);
        }
        GpuMaterial { id: CHECKERBOARD, desc1, desc2, x: Scalar::from_bits(0) }
    }

    /// Copies the texels of `texture` to the end of `global_texture_data` and
    /// says where they lie.
    fn append_to_global_texture_data(
        texture: &Texture,
        global_texture_data: &mut Vec<[Scalar; 3]>,
    ) -> (r: TextureDescriptor)
        requires
            old(global_texture_data)@.len() <= u32::MAX,
        ensures
            final(global_texture_data)@ == old(global_texture_data)@ + texture@,
            r == placed(*texture, old(global_texture_data)@.len() as int),
            r.locates(texture@, final(global_texture_data)@),
    {
        let dimensions = texture.dimensions();
        let offset: u32 = global_texture_data.len() as u32;
        let texels = texture.as_slice();
        let mut i: usize = 0;
        while i < texels.len()
            invariant
                i <= texels@.len(),
                texels@ == texture@,
                global_texture_data@ == old(global_texture_data)@ + texels@.subrange(0, i as int),
            decreases texels@.len() - i,
        {
            global_texture_data.push(texels[i]);
            i = i + 1;
            assert(texels@.subrange(0, i as int) == texels@.subrange(0, i - 1).push(
                texels@[i - 1],
            ));
        }
        assert(texels@.subrange(0, i as int) == texels@);
        let r = TextureDescriptor { width: dimensions.0, height: dimensions.1, offset };
        assert(global_texture_data@.subrange(
            r.offset as int,
            r.offset + r.texels(),
        ) == texture@);
        r
    }
}

/// A texture that the array locates is located still after more texels are
/// appended to the array.
pub proof fn lemma_locates_after_append(
    desc: TextureDescriptor,
    texture: Seq<[Scalar; 3]>,
    textures: Seq<[Scalar; 3]>,
    more: Seq<[Scalar; 3]>,
)
    requires
        desc.locates(texture, textures),
    ensures
        desc.locates(texture, textures + more),
{
    assert((textures + more).subrange(desc.offset as int, desc.offset + desc.texels())
        == textures.subrange(desc.offset as int, desc.offset + desc.texels()));
}

/// The number of texels of `material`, as far as it can be counted in 64 bits.
fn count_texels(material: &Material) -> (n: u64)
    ensures
        n == material.texels() || (n == u64::MAX && material.texels() >= u64::MAX),
{
    match material {
        Material::Lambertian { albedo } => albedo.as_slice().len() as u64,
        Material::Metal { albedo, fuzz } => albedo.as_slice().len() as u64,
        Material::Dielectric { refraction_index } => 0,
        Material::Checkerboard { even, odd } => {
            let a: u64 = odd.as_slice().len() as u64;
            let b: u64 = even.as_slice().len() as u64;
            if a <= u64::MAX - b {
                a + b
            } else {
                u64::MAX
            }
        },
    }
}

/// The flat form of `material`, whose texels go to the end of
/// `global_texture_data`.
pub fn append_material(material: &Material, global_texture_data: &mut Vec<[Scalar; 3]>) -> (r:
    GpuMaterial)
    requires
        old(global_texture_data)@.len() + material.texels() <= u32::MAX,
    ensures
        final(global_texture_data)@ == old(global_texture_data)@ + texels_of(*material),
        r == flat(*material, old(global_texture_data)@.len() as int),
{
    match material {
        Material::Lambertian { albedo } => GpuMaterial::lambertian(albedo, global_texture_data),
        Material::Metal { albedo, fuzz } => GpuMaterial::metal(albedo, *fuzz, global_texture_data),
        Material::Dielectric { refraction_index } => {
            assert(global_texture_data@ + Seq::<[Scalar; 3]>::empty() == global_texture_data@);
            GpuMaterial::dielectric(*refraction_index)
        },
        Material::Checkerboard { even, odd } => {
            let r = GpuMaterial::checkerboard(odd, even, global_texture_data);
            assert(old(global_texture_data)@ + odd@ + even@ == old(global_texture_data)@ + (odd@
                + even@));
            r
        },
    }
}

/// The texels of the materials before `n`, one material after the other.
pub open spec fn texels_up_to(materials: Seq<Material>, n: int) -> Seq<[Scalar; 3]>
    decreases n,
{
    if n <= 0 {
        Seq::empty()
    } else {
        texels_up_to(materials, n - 1) + texels_of(materials[n - 1])
    }
}

/// The texels of the materials before `n` are as many as `texels_before`
/// counts, and those before an earlier material are their first part.
pub proof fn lemma_texels_up_to(materials: Seq<Material>, a: int, b: int)
    requires
        0 <= a <= b <= materials.len(),
    ensures
        texels_up_to(materials, b).len() == texels_before(materials, b),
        texels_before(materials, a) <= texels_before(materials, b),
        texels_up_to(materials, b).subrange(0, texels_before(materials, a) as int) == texels_up_to(
            materials,
            a,
        ),
    decreases b,
{
    if b > 0 {
        if a < b {
            lemma_texels_up_to(materials, a, b - 1);
            let shorter = texels_up_to(materials, b - 1);
            let last = texels_of(materials[b - 1]);
            assert((shorter + last).subrange(0, texels_before(materials, a) as int)
                == shorter.subrange(0, texels_before(materials, a) as int));
        } else {
            lemma_texels_up_to(materials, b - 1, b - 1);
            assert(texels_up_to(materials, b).subrange(0, texels_before(materials, b) as int)
                == texels_up_to(materials, b));
        }
    } else {
        assert(texels_up_to(materials, 0).subrange(0, 0) == texels_up_to(materials, 0));
    }
}

/// In the texels of all the materials before `n`, those of material `i` lie
/// from `texels_before(i)` on.
pub proof fn lemma_texels_of_material(materials: Seq<Material>, i: int, n: int)
    requires
        0 <= i < n <= materials.len(),
    ensures
        texels_before(materials, i + 1) <= texels_before(materials, n),
        texels_up_to(materials, n).subrange(
            texels_before(materials, i) as int,
            texels_before(materials, i + 1) as int,
        ) == texels_of(materials[i]),
{
    lemma_texels_up_to(materials, i + 1, n);
    lemma_texels_up_to(materials, i, i + 1);
    let whole = texels_up_to(materials, n);
    let part = texels_up_to(materials, i + 1);
    let lo = texels_before(materials, i) as int;
    let hi = texels_before(materials, i + 1) as int;
    assert(whole.subrange(lo, hi) == part.subrange(lo, hi));
    assert(part == texels_up_to(materials, i) + texels_of(materials[i]));
    assert(part.subrange(lo, hi) == texels_of(materials[i]));
}

/// The descriptors of `record` say where in `textures` the textures of
/// `material` lie.
pub open spec fn located(material: Material, record: GpuMaterial, textures: Seq<[Scalar; 3]>) -> bool {
    match material {
        Material::Lambertian { albedo } => record.desc1.locates(albedo@, textures),
        Material::Metal { albedo, fuzz } => record.desc1.locates(albedo@, textures),
        Material::Dielectric { refraction_index } => true,
        Material::Checkerboard { even, odd } => record.desc1.locates(odd@, textures)
            && record.desc2.locates(even@, textures),
    }
}

/// In the flat form of all the materials, the descriptors of each record say
/// where the textures of its material lie in the array of all texels.
pub proof fn lemma_flat_is_located(materials: Seq<Material>, i: int)
    requires
        0 <= i < materials.len(),
        materials[i].well_formed(),
        texels_before(materials, materials.len() as int) <= u32::MAX,
    ensures
        located(
            materials[i],
            flat(materials[i], texels_before(materials, i) as int),
            texels_up_to(materials, materials.len() as int),
        ),
{
    let n = materials.len() as int;
    let all = texels_up_to(materials, n);
    let lo = texels_before(materials, i) as int;
    lemma_texels_of_material(materials, i, n);
    lemma_texels_up_to(materials, i, n);
    let mine = all.subrange(lo, texels_before(materials, i + 1) as int);
    match materials[i] {
        Material::Lambertian { albedo } => {
            albedo.lemma_well_formed();
        },
        Material::Metal { albedo, fuzz } => {
            albedo.lemma_well_formed();
        },
        Material::Dielectric { refraction_index } => {},
        Material::Checkerboard { even, odd } => {
            even.lemma_well_formed();
            odd.lemma_well_formed();
            let mid = lo + odd@.len();
            assert(mine == odd@ + even@);
            assert(all.subrange(lo, mid) == mine.subrange(0, odd@.len() as int));
            assert(mine.subrange(0, odd@.len() as int) == odd@);
            assert(all.subrange(mid, mid + even@.len()) == mine.subrange(
                odd@.len() as int,
                mine.len() as int,
            ));
            assert(mine.subrange(odd@.len() as int, mine.len() as int) == even@);
        },
    }
}

/// All the materials in flat form, with the array of all their texels: the
/// texels of each material follow those of the one before it. None where the
/// texels are more than 32 bits can count.
pub fn gpu_materials(materials: &Vec<Material>) -> (r: Option<(Vec<GpuMaterial>, Vec<[Scalar; 3]>)>)
    ensures
        r is Some <==> texels_before(materials@, materials@.len() as int) <= u32::MAX,
        r matches Some((records, texels)) ==> {
            &&& records@.len() == materials@.len()
            &&& texels@ == texels_up_to(materials@, materials@.len() as int)
            &&& forall|i: int|
                0 <= i < materials@.len() ==> #[trigger] records@[i] == flat(
                    materials@[i],
                    texels_before(materials@, i) as int,
                )
        },
{
    let mut records: Vec<GpuMaterial> = Vec::new();
    let mut texels: Vec<[Scalar; 3]> = Vec::new();
    let mut i: usize = 0;
    while i < materials.len()
        invariant
            i <= materials@.len(),
            records@.len() == i,
            texels@ == texels_up_to(materials@, i as int),
            texels@.len() <= u32::MAX,
            forall|j: int|
                0 <= j < i ==> #[trigger] records@[j] == flat(
                    materials@[j],
                    texels_before(materials@, j) as int,
                ),
        decreases materials@.len() - i,
    {
        let material = &materials[i];
        let need: u64 = count_texels(material);
        proof {
            lemma_texels_up_to(materials@, i as int, i as int);
            lemma_texels_up_to(materials@, i + 1, materials@.len() as int);
        }
        if need > u32::MAX as u64 - texels.len() as u64 {
            return None;
        }
        let record = append_material(material, &mut texels);
        records.push(record);
        i = i + 1;
    }
    proof {
        lemma_texels_up_to(materials@, i as int, i as int);
    }
    Some((records, texels))
}

} // verus!
