//! Textures, their place in the one array that holds them all, and the lookup
//! of a texel by surface coordinates.

use vstd::prelude::*;
use crate::scalar::{lemma_one_is_unit, lemma_truncated_is_not_negative, unit, Scalar};
use crate::vector::{arry_to_vec3, Vec3};

verus! {

/// A grid of colors, row by row. A grid of one texel is a plain color.
#[derive(Debug)]
pub struct Texture {
    dimensions: (u32, u32),
    data: Vec<[Scalar; 3]>,
}

impl Texture {
    #[verifier::type_invariant]
    spec fn holds_every_texel(self) -> bool {
        self.well_formed()
    }

    /// There is one texel for each place of the grid. Every texture that the
    /// library makes is so.
    pub closed spec fn well_formed(&self) -> bool {
        self.data@.len() == self.dimensions.0 * self.dimensions.1
    }

    /// A well-formed texture has width times height texels.
    pub proof fn lemma_well_formed(&self)
        requires
            self.well_formed(),
        ensures
            self@.len() == self.size().0 * self.size().1,
    {
    }

    /// The texels, row by row.
    pub closed spec fn view(&self) -> Seq<[Scalar; 3]> {
        self.data@
    }

    /// Width and height.
    pub closed spec fn size(&self) -> (u32, u32) {
        self.dimensions
    }

    /// The texture of the decoded image of the given width and height, whose
    /// texels are `data`, row by row; none where `data` does not hold width
    /// times height texels.
    pub fn new_from_image(dimensions: (u32, u32), data: Vec<[Scalar; 3]>) -> (r: Option<Texture>)
        ensures
            r is Some <==> data@.len() == dimensions.0 * dimensions.1,
            r matches Some(t) ==> t@ == data@ && t.size() == dimensions && t.well_formed(),
    {
        assert(dimensions.0 * dimensions.1 <= 0xffff_ffff * 0xffff_ffff) by (nonlinear_arith)
            requires
                0 <= dimensions.0 <= 0xffff_ffff,
                0 <= dimensions.1 <= 0xffff_ffff,
        ;
        let want: u64 = (dimensions.0 as u64) * (dimensions.1 as u64);
        if data.len() as u64 == want {
            Some(Texture { dimensions, data })
        } else {
            None
        }
    }

    /// The texture of one texel, `color`.
    pub fn new_from_color(color: Vec3) -> (t: Texture)
        ensures
            t.size() == (1u32, 1u32),
            t@ == seq![[color.x, color.y, color.z]],
            t.well_formed(),
    {
        let mut data: Vec<[Scalar; 3]> = Vec::new();
        data.push([color.x, color.y, color.z]);
        Texture { dimensions: (1, 1), data }
    }

    pub fn as_slice(&self) -> (s: &[[Scalar; 3]])
        ensures
            s@ == self@,
            s@.len() == self.size().0 * self.size().1,
            self.well_formed(),
    {
        proof {
            use_type_invariant(self);
        }
        self.data.as_slice()
    }

    pub fn dimensions(&self) -> (d: (u32, u32))
        ensures
            d == self.size(),
            self@.len() == d.0 * d.1,
            self.well_formed(),
    {
        proof {
            use_type_invariant(self);
        }
        self.dimensions
    }
}

/// Where a texture lies in the array of all texels: `height` rows of `width`
/// texels from `offset` on.
#[derive(Clone, Copy, Debug)]
pub struct TextureDescriptor {
    pub width: u32,
    pub height: u32,
    pub offset: u32,
}

impl TextureDescriptor {
    /// The number of texels.
    pub open spec fn texels(self) -> int {
        self.width * self.height
    }

    /// The texture lies within an array of `len` texels.
    pub open spec fn fits(self, len: int) -> bool {
        self.offset + self.texels() <= len
    }

    /// The array `textures` holds the texels `texture` where the descriptor
    /// says.
    pub open spec fn locates(self, texture: Seq<[Scalar; 3]>, textures: Seq<[Scalar; 3]>) -> bool {
        &&& texture.len() == self.texels()
        &&& self.fits(textures.len() as int)
        &&& textures.subrange(self.offset as int, self.offset + self.texels()) == texture
    }

    /// The descriptor of no texture: no texels, at the far end.
    pub fn empty() -> (d: TextureDescriptor)
        ensures
            d.width == 0,
            d.height == 0,
            d.offset == 0xffff_ffff,
    {
        TextureDescriptor { width: 0, height: 0, offset: 0xffff_ffff }
    }
}

/// The largest number of a column or a row.
pub const LAST_CELL: u32 = 0xffff_ffff;

/// The place in the array of all texels of the texel in the given column and
/// row of the texture. Column and row are handed in as numbers and cut to
/// their whole parts here, as a cast to `u32` does: below zero and a NaN give
/// 0.
///
/// The caller computes them from the surface coordinates `(u, v)`, each held
/// to the span from zero to one: the column is `u * width`, and the row is
/// `(1 - v) * height`, since `v` grows upwards while rows are stored top down.
pub open spec fn texel_index(desc: TextureDescriptor, column: Scalar, row: Scalar) -> int {
    desc.offset + row.truncated(LAST_CELL as nat) * desc.width + column.truncated(LAST_CELL as nat)
}

/// The color of the texture `desc` in the given column and row; none where
/// the texel's place lies outside `textures`.
pub open spec fn texel_at(
    desc: TextureDescriptor,
    textures: Seq<[Scalar; 3]>,
    column: Scalar,
    row: Scalar,
) -> Option<Vec3> {
    let index = texel_index(desc, column, row);
    if index < textures.len() {
        Some(Vec3 { x: textures[index][0], y: textures[index][1], z: textures[index][2] })
    } else {
        None
    }
}

/// The color of the texture `desc` in the given column and row, which are cut
/// to their whole parts; none where the texel's place, `offset + row * width +
/// column`, lies outside `textures`.
///
/// For the surface coordinates `(u, v)`, each held to the span from zero to
/// one, the caller hands in `u * width` as the column and `(1 - v) * height`
/// as the row.
pub fn texture_lookup(desc: TextureDescriptor, textures: &[[Scalar; 3]], column: Scalar, row: Scalar) -> (r:
    Option<Vec3>)
    ensures
        r == texel_at(desc, textures@, column, row),
        r is Some <==> texel_index(desc, column, row) < textures@.len(),
{
    let j: u32 = column.to_u32();
    let i: u32 = row.to_u32();
    assert(i * desc.width <= 0xffff_ffff * 0xffff_ffff) by (nonlinear_arith)
        requires
            0 <= i <= 0xffff_ffff,
            0 <= desc.width <= 0xffff_ffff,
    ;
    let index: u64 = desc.offset as u64 + (i as u64) * (desc.width as u64) + j as u64;
    if index < textures.len() as u64 {
        Some(arry_to_vec3(textures[index as usize]))
    } else {
        None
    }
}

/// A texture that lies within the array is never left by a lookup in one of
/// its columns and one of its rows: the texel's place is one of the texture's
/// own.
pub proof fn lemma_lookup_stays_inside(desc: TextureDescriptor, len: int, column: Scalar, row: Scalar)
    requires
        desc.fits(len),
        column.truncated(LAST_CELL as nat) < desc.width,
        row.truncated(LAST_CELL as nat) < desc.height,
    ensures
        desc.offset <= texel_index(desc, column, row) < desc.offset + desc.texels(),
        texel_index(desc, column, row) < len,
{
    let w = desc.width as int;
    let h = desc.height as int;
    let j = column.truncated(LAST_CELL as nat);
    let i = row.truncated(LAST_CELL as nat);
    lemma_truncated_is_not_negative(column, LAST_CELL as nat);
    lemma_truncated_is_not_negative(row, LAST_CELL as nat);
    assert(0 <= i * w && i * w + j < w * h) by (nonlinear_arith)
        requires
            0 <= j < w,
            0 <= i < h,
    ;
}

/// A number that is at least zero and below the whole number `n` has a whole
/// part below `n`: a coordinate product below the width is a column of the
/// texture.
pub proof fn lemma_cell_below(s: Scalar, n: int)
    requires
        0 < n <= LAST_CELL,
        !s.nan(),
        s.scaled() < n * unit(),
    ensures
        0 <= s.truncated(LAST_CELL as nat) < n,
{
    lemma_one_is_unit();
    lemma_truncated_is_not_negative(s, LAST_CELL as nat);
    let un = unit() as int;
    let x = s.scaled();
    if x >= 0 {
        assert(x / un < n) by (nonlinear_arith)
            requires
                0 <= x < n * un,
                un > 0,
        ;
    }
}

} // verus!
