//! Textures: either a solid color or a decoded image held as a plain pixel
//! grid. Decoding an image file is an outside concern; the renderer works on
//! the grid of normalized colors a decoder hands over, and a malformed grid
//! degrades to a solid black texture, as a failed decode does.

use vstd::prelude::*;
use crate::fixed::{Fx, fx_sub, fx_mul, div_trunc, SCALE, FX_ONE};
use crate::math::fx_clamp3;
use crate::vector::{Color, Vec3i};

verus! {

/// A decoded image: `pixels` holds `height` rows of `width` normalized
/// colors, row by row from the top of the image.
pub struct ImageData {
    pub width: u32,
    pub height: u32,
    pub pixels: Vec<Color>,
}

/// A color with every channel inside `[0, 1]`, as a decoded texel must be.
pub open spec fn color_normalized(c: Vec3i) -> bool {
    &&& 0 <= c.a <= FX_ONE as int
    &&& 0 <= c.b <= FX_ONE as int
    &&& 0 <= c.c <= FX_ONE as int
}

impl ImageData {
    /// A usable grid: positive bounded dimensions, one pixel per cell, and
    /// every pixel a normalized color.
    pub open spec fn wf(self) -> bool {
        &&& 1 <= self.width <= 0xFFFF
        &&& 1 <= self.height <= 0xFFFF
        &&& self.pixels@.len() == self.width * self.height
        &&& forall|i: int|
            0 <= i < self.pixels@.len() ==> color_normalized((#[trigger] self.pixels@[i])@)
    }
}

pub enum Texture {
    Solid(Color),
    Img(ImageData),
}

/// Column of the texel a horizontal coordinate selects: clamp into `[0, 1]`,
/// scale by the width, truncate, and keep inside the grid.
pub open spec fn tex_col_s(width: int, u: int) -> int {
    let u_clamp = fx_clamp3(u, 0, FX_ONE as int);
    let i = div_trunc(fx_mul(u_clamp, width * (SCALE as int)), SCALE as int);
    if i >= width {
        width - 1
    } else {
        i
    }
}

/// Row of the texel a vertical coordinate selects; the vertical axis is
/// flipped, as image rows run from the top.
pub open spec fn tex_row_s(height: int, v: int) -> int {
    let v_clamp = fx_sub(FX_ONE as int, fx_clamp3(v, 0, FX_ONE as int));
    let j = div_trunc(fx_mul(v_clamp, height * (SCALE as int)), SCALE as int);
    if j >= height {
        height - 1
    } else {
        j
    }
}

/// The color a texture yields at surface coordinates `(u, v)`.
pub open spec fn tex_get_s(t: Texture, u: int, v: int) -> Vec3i {
    match t {
        Texture::Solid(c) => c@,
        Texture::Img(d) => {
            let i = tex_col_s(d.width as int, u);
            let j = tex_row_s(d.height as int, v);
            d.pixels@[j * (d.width as int) + i]@
        },
    }
}

/// Structural equality of textures over their models; used to carry a
/// texture's behavior across a duplication.
pub open spec fn tex_eq(t1: Texture, t2: Texture) -> bool {
    match t1 {
        Texture::Solid(c1) => t2 matches Texture::Solid(c2) && c1 == c2,
        Texture::Img(d1) => t2 matches Texture::Img(d2) && d1.width == d2.width && d1.height
            == d2.height && d1.pixels@ == d2.pixels@,
    }
}

pub proof fn lemma_tex_eq_get(t1: Texture, t2: Texture, u: int, v: int)
    requires
        tex_eq(t1, t2),
    ensures
        tex_get_s(t1, u, v) == tex_get_s(t2, u, v),
        t1.wf() == t2.wf(),
{
}

/// `0 <= row * width + col < width * height` for in-grid coordinates.
proof fn lemma_row_major_index(width: int, height: int, i: int, j: int)
    requires
        0 <= i < width,
        0 <= j < height,
    ensures
        0 <= j * width + i < width * height,
{
    assert(0 <= j * width + i < width * height) by (nonlinear_arith)
        requires
            0 <= i < width && 0 <= j < height,
    ;
}

/// Whether every pixel of a grid is a normalized color.
fn all_normalized(pixels: &Vec<Color>) -> (r: bool)
    ensures
        r == forall|i: int|
            0 <= i < pixels@.len() ==> color_normalized((#[trigger] pixels@[i])@),
{
    let mut i: usize = 0;
    while i < pixels.len()
        invariant
            i <= pixels@.len(),
            forall|j: int| 0 <= j < i ==> color_normalized((#[trigger] pixels@[j])@),
        decreases pixels@.len() - i,
    {
        let p: Color = pixels[i];
        let ok: bool = 0 <= p.a.0 && p.a.0 <= FX_ONE && 0 <= p.b.0 && p.b.0 <= FX_ONE && 0
            <= p.c.0 && p.c.0 <= FX_ONE;
        if !ok {
            proof {
                assert(!color_normalized(pixels@[i as int]@));
            }
            return false;
        }
        i = i + 1;
    }
    true
}

fn copy_pixels(src: &Vec<Color>) -> (r: Vec<Color>)
    ensures
        r@ == src@,
{
    let mut out: Vec<Color> = Vec::new();
    let mut i: usize = 0;
    while i < src.len()
        invariant
            i <= src.len(),
            out@ == src@.take(i as int),
        decreases src.len() - i,
    {
        out.push(src[i]);
        proof {
            assert(out@ =~= src@.take(i as int + 1));
        }
        i = i + 1;
    }
    proof {
        assert(src@.take(src@.len() as int) =~= src@);
    }
    out
}

impl Texture {
    pub open spec fn wf(self) -> bool {
        match self {
            Texture::Solid(_) => true,
            Texture::Img(d) => d.wf(),
        }
    }

    pub fn from_color(c: Color) -> (r: Texture)
        ensures
            r == Texture::Solid(c),
            r.wf(),
    {
        Texture::Solid(c)
    }

    /// Build an image texture from a decoded pixel grid; a grid that does
    /// not fit the declared dimensions, or holds a channel outside `[0, 1]`,
    /// degrades to solid black, as a failed decode does.
    pub fn from_pixels(width: u32, height: u32, pixels: Vec<Color>) -> (r: Texture)
        ensures
            r.wf(),
            (1 <= width <= 0xFFFF && 1 <= height <= 0xFFFF && pixels@.len() == width * height
                && (forall|i: int|
                    0 <= i < pixels@.len() ==> color_normalized((#[trigger] pixels@[i])@))) ==> (
            r matches Texture::Img(d) && d.width == width && d.height == height && d.pixels@
                == pixels@),
    {
        if 1 <= width && width <= 0xFFFF && 1 <= height && height <= 0xFFFF {
            proof {
                assert((width as int) * (height as int) < 0x100000000) by (nonlinear_arith)
                    requires
                        width <= 0xFFFF && height <= 0xFFFF,
                ;
            }
            if pixels.len() == (width as usize) * (height as usize) && all_normalized(&pixels) {
                return Texture::Img(ImageData { width, height, pixels });
            }
        }
        Texture::Solid(Color::new(Fx(0), Fx(0), Fx(0)))
    }

    /// A structurally equal copy of the texture.
    pub fn duplicate(&self) -> (r: Texture)
        ensures
            tex_eq(r, *self),
    {
        match self {
            Texture::Solid(c) => Texture::Solid(*c),
            Texture::Img(d) => Texture::Img(
                ImageData { width: d.width, height: d.height, pixels: copy_pixels(&d.pixels) },
            ),
        }
    }

    /// The texel column and row for normalized surface coordinates.
    pub fn uv_to_ij(img: &ImageData, u: &Fx, v: &Fx) -> (r: (u32, u32))
        requires
            img.wf(),
        ensures
            r.0 as int == tex_col_s(img.width as int, u@),
            r.1 as int == tex_row_s(img.height as int, v@),
            r.0 < img.width,
            r.1 < img.height,
    {
        let u_clamp: Fx = crate::math::clamp(*u, Fx(0), Fx(FX_ONE));
        let v_clamp: Fx = Fx(FX_ONE).sub(crate::math::clamp(*v, Fx(0), Fx(FX_ONE)));

        let wfx: Fx = Fx((img.width as i64) * SCALE);
        let hfx: Fx = Fx((img.height as i64) * SCALE);

        let iw: i64 = u_clamp.mul(wfx).0 / SCALE;
        let jh: i64 = v_clamp.mul(hfx).0 / SCALE;
        proof {
            lemma_scaled_coord(img.width as int, u_clamp@);
            lemma_scaled_coord(img.height as int, v_clamp@);
        }

        let mut i: u32 = iw as u32;
        let mut j: u32 = jh as u32;

        if i >= img.width {
            i = img.width - 1;
        }
        if j >= img.height {
            j = img.height - 1;
        }

        (i, j)
    }

    /// The color of the texture at `(u, v)`: the solid color, or the texel
    /// the coordinates select, with the vertical axis flipped. An image
    /// texture always yields a normalized color.
    pub fn get(&self, u: &Fx, v: &Fx) -> (r: Color)
        requires
            self.wf(),
        ensures
            r@ == tex_get_s(*self, u@, v@),
            self matches Texture::Img(_) ==> color_normalized(r@),
    {
        match self {
            Texture::Solid(c) => *c,
            Texture::Img(img) => {
                let (i, j) = Texture::uv_to_ij(img, u, v);
                proof {
                    lemma_row_major_index(
                        img.width as int,
                        img.height as int,
                        i as int,
                        j as int,
                    );
                    assert((j as int) * (img.width as int) + (i as int) < 0x100000000)
                        by (nonlinear_arith)
                        requires
                            i < img.width <= 0xFFFF && j < img.height <= 0xFFFF,
                    ;
                }
                let idx: usize = (j as usize) * (img.width as usize) + (i as usize);
                img.pixels[idx]
            },
        }
    }
}

/// For a clamped coordinate `0 <= x <= 1`, the scaled and truncated texel
/// index is non-negative and at most the dimension itself.
proof fn lemma_scaled_coord(dim: int, x: int)
    requires
        1 <= dim <= 0xFFFF,
        0 <= x <= FX_ONE as int,
    ensures
        0 <= fx_mul(x, dim * (SCALE as int)) <= dim * (SCALE as int),
        0 <= div_trunc(fx_mul(x, dim * (SCALE as int)), SCALE as int) <= dim,
{
    let s = SCALE as int;
    let w = dim * s;
    assert(0 < w <= 0xFFFF * 65536) by (nonlinear_arith)
        requires
            1 <= dim <= 0xFFFF && s == 65536 && w == dim * s,
    ;
    let q1 = div_trunc(x * w, s);
    assert(0 <= x * w <= s * w) by (nonlinear_arith)
        requires
            0 <= x <= s && w > 0,
    ;
    assert(q1 == (x * w) / s);
    assert(0 <= (x * w) / s && (x * w) / s <= w) by (nonlinear_arith)
        requires
            0 <= x * w <= s * w && s == 65536,
    ;
    assert(fx_mul(x, w) == q1);
    let q2 = div_trunc(q1, s);
    assert(q2 == q1 / s);
    assert(0 <= q1 / s && q1 / s <= dim) by (nonlinear_arith)
        requires
            0 <= q1 <= w && w == dim * s && s == 65536,
    ;
}

} // verus!
