//! Triangulated grids over the square `[-1/2, 1/2]²`.
//!
//! Coordinates are kept exact. A vertex holds two fractions of the unit
//! interval and a height in the encoding of its source; the position it
//! stands for is `(x - 1/2, y - 1/2, z)`. Turning these into floating-point
//! attributes is left to the caller.

use crate::HeightMap;
use vstd::arithmetic::div_mod::lemma_fundamental_div_mod;
use vstd::arithmetic::div_mod::lemma_fundamental_div_mod_converse;
use vstd::arithmetic::div_mod::lemma_mod_bound;
use vstd::prelude::*;

verus! {

/// A fraction `num / den`.
#[derive(Clone, Copy, Debug, PartialEq, Eq, Structural)]
pub struct Ratio {
    pub num: u32,
    pub den: u32,
}

impl Ratio {
    /// The fraction lies in the unit interval and its denominator is not zero.
    pub open spec fn wf(self) -> bool {
        1 <= self.den && self.num <= self.den
    }

    /// The 8-bit level of a height that is this fraction: 255 times the
    /// fraction, rounded down.
    pub fn level(self) -> (level: u8)
        requires
            self.wf(),
        ensures
            level == level_of(self),
    {
        proof {
            lemma_level_error(self);
        }
        (255 * (self.num as u64) / (self.den as u64)) as u8
    }
}

/// A height sample, in the encoding of the source it was read from.
#[derive(Clone, Copy, Debug, PartialEq, Eq, Structural)]
pub enum Height {
    /// An 8-bit channel: the height is this number over 255.
    Level(u8),
    /// A 32-bit float channel: its four bytes, in memory order.
    Raw(u8, u8, u8, u8),
}

/// The 8-bit level of a height that is a fraction of the unit interval: 255
/// times the fraction, rounded down.
pub open spec fn level_of(height: Ratio) -> int {
    (255 * height.num) / (height.den as int)
}

/// A level is never above the height it stands for and less than 1/255
/// below it: with `q` the level of `n / d`, `0 <= n / d - q / 255 < 1 / 255`,
/// which cleared of fractions is `0 <= 255 n - q d < d`.
pub proof fn lemma_level_error(height: Ratio)
    requires
        height.wf(),
    ensures
        0 <= level_of(height) <= 255,
        0 <= 255 * height.num - level_of(height) * height.den < height.den,
{
    let n = height.num as int;
    let d = height.den as int;
    lemma_fundamental_div_mod(255 * n, d);
    lemma_mod_bound(255 * n, d);
    let q = (255 * n) / d;
    assert(q * d == d * q) by (nonlinear_arith);
    assert(0 <= q <= 255) by (nonlinear_arith)
        requires
            0 <= 255 * n - q * d < d,
            0 <= n <= d,
            d >= 1,
    ;
}

/// A vertex of a mesh: the position `(x - 1/2, y - 1/2, z)`.
#[derive(Clone, Copy, Debug, PartialEq, Eq, Structural)]
pub struct Vertex {
    pub x: Ratio,
    pub y: Ratio,
    pub z: Height,
}

/// A texture coordinate `(u, v)`.
#[derive(Clone, Copy, Debug, PartialEq, Eq, Structural)]
pub struct Uv {
    pub u: Ratio,
    pub v: Ratio,
}

/// Number of sample points along each axis of a grid.
#[derive(Clone, Copy, Debug, PartialEq, Eq, Structural)]
pub struct GridSpec {
    pub width: u32,
    pub height: u32,
}

/// Why a grid cannot be built.
#[derive(Clone, Copy, Debug, PartialEq, Eq, Structural)]
pub enum GridError {
    /// The width or the height is zero.
    Empty,
    /// The grid has more vertices than a 32-bit index can number.
    TooLarge,
}

/// The number of the lattice point `(x, y)` in a grid `w` points wide.
pub open spec fn lattice_index(x: int, y: int, w: int) -> int {
    x + y * w
}

/// The six indices of the quad whose lower left corner is `(x, y)`: the
/// triangle below the diagonal, then the one above it, both counter-clockwise.
pub open spec fn quad_index_list(x: int, y: int, w: int) -> Seq<int> {
    seq![
        lattice_index(x, y, w),
        lattice_index(x + 1, y, w),
        lattice_index(x + 1, y + 1, w),
        lattice_index(x, y, w),
        lattice_index(x + 1, y + 1, w),
        lattice_index(x, y + 1, w),
    ]
}

/// The texture coordinate of a position: `u = 1/2 + x`, `v = 1/2 - y`, which
/// in fractions of the unit interval is `u = x`, `v = 1 - y`.
pub open spec fn uv_of(p: Vertex) -> Uv {
    Uv { u: p.x, v: Ratio { num: (p.y.den - p.y.num) as u32, den: p.y.den } }
}

/// Twice the signed area of the triangle `a b c` in lattice units, scaled by
/// the denominators: positive when the corners run counter-clockwise.
pub open spec fn orientation(a: Vertex, b: Vertex, c: Vertex) -> int {
    (b.x.num - a.x.num) * (c.y.num - a.y.num) - (b.y.num - a.y.num) * (c.x.num - a.x.num)
}

impl GridSpec {
    /// Why the grid with shared vertices cannot be built, if it cannot.
    pub open spec fn error(self) -> Option<GridError> {
        if self.width == 0 || self.height == 0 {
            Some(GridError::Empty)
        } else if self.width * self.height > u32::MAX {
            Some(GridError::TooLarge)
        } else {
            None
        }
    }

    /// Why the grid with four vertices per cell cannot be built, if it cannot.
    pub open spec fn quad_error(self) -> Option<GridError> {
        if self.width == 0 || self.height == 0 {
            Some(GridError::Empty)
        } else if 4 * (self.width * self.height) > u32::MAX {
            Some(GridError::TooLarge)
        } else {
            None
        }
    }

    /// The number by which lattice steps along x are divided: the number of
    /// steps, or 1 where the grid is a single column.
    pub open spec fn divisor_x(self) -> u32 {
        if self.width > 1 {
            (self.width - 1) as u32
        } else {
            1
        }
    }

    /// The number by which lattice steps along y are divided.
    pub open spec fn divisor_y(self) -> u32 {
        if self.height > 1 {
            (self.height - 1) as u32
        } else {
            1
        }
    }

    /// The number of quads of the grid with shared vertices.
    pub open spec fn quads(self) -> int {
        (self.width - 1) * (self.height - 1)
    }

    /// Vertex number `i` of the grid with shared vertices, at height zero:
    /// row by row from `y = 0`, each row from `x = 0`.
    pub open spec fn vertex(self, i: int) -> Vertex {
        Vertex {
            x: Ratio { num: (i % (self.width as int)) as u32, den: self.divisor_x() },
            y: Ratio { num: (i / (self.width as int)) as u32, den: self.divisor_y() },
            z: Height::Level(0),
        }
    }

    /// Entry number `j` of the index list of the grid with shared vertices:
    /// six entries per quad, the quads row by row.
    pub open spec fn index(self, j: int) -> int {
        let quad = j / 6;
        let x = quad % (self.width - 1);
        let y = quad / (self.width - 1);
        quad_index_list(x, y, self.width as int)[j % 6]
    }

    /// Vertex number `i` of the grid with four vertices per cell, at height
    /// zero. The cells are numbered row by row; cell `(cx, cy)` covers
    /// `[cx / width, (cx + 1) / width] × [cy / height, (cy + 1) / height]`
    /// of the unit square, and its corners are numbered counter-clockwise
    /// from the lower left one.
    pub open spec fn cell_vertex(self, i: int) -> Vertex {
        let cell = i / 4;
        let corner = i % 4;
        let cx = cell % (self.width as int);
        let cy = cell / (self.width as int);
        let right: int = if corner == 1 || corner == 2 {
            1
        } else {
            0
        };
        let up: int = if corner >= 2 {
            1
        } else {
            0
        };
        Vertex {
            x: Ratio { num: (cx + right) as u32, den: self.width },
            y: Ratio { num: (cy + up) as u32, den: self.height },
            z: Height::Level(0),
        }
    }

    /// Entry number `j` of the index list of the grid with four vertices per
    /// cell: six entries per cell, naming the cell's own four vertices.
    pub open spec fn cell_index(self, j: int) -> int {
        4 * (j / 6) + cell_corner(j % 6)
    }
}

/// The corner that entry `k` of a cell's six indices names: the triangle
/// `0 1 2` below the diagonal, then `0 2 3` above it.
pub open spec fn cell_corner(k: int) -> int {
    if k == 0 || k == 3 {
        0
    } else if k == 1 {
        1
    } else if k == 2 || k == 4 {
        2
    } else {
        3
    }
}

/// Accumulates the attributes of a mesh.
#[derive(Debug)]
pub struct MeshBuilder {
    pub positions: Vec<Vertex>,
    pub uvs: Vec<Uv>,
    pub indices: Vec<u32>,
}

impl MeshBuilder {
    /// The invariant of mesh attributes: one texture coordinate per position,
    /// derived from it; coordinates within the unit square; whole triangles;
    /// every index names a position.
    pub open spec fn wf(self) -> bool {
        &&& self.uvs@.len() == self.positions@.len()
        &&& self.indices@.len() % 3 == 0
        &&& forall|i: int|
            0 <= i < self.positions@.len() ==> {
                &&& (#[trigger] self.positions@[i]).x.wf()
                &&& self.positions@[i].y.wf()
                &&& self.uvs@[i] == uv_of(self.positions@[i])
            }
        &&& forall|j: int|
            0 <= j < self.indices@.len() ==> (#[trigger] self.indices@[j]) < self.positions@.len()
    }

    /// Every vertex lies at height zero.
    pub open spec fn is_flat(self) -> bool {
        forall|i: int|
            0 <= i < self.positions@.len() ==> (#[trigger] self.positions@[i]).z == Height::Level(0)
    }

    /// The mesh is the grid of `size` with shared vertices, whatever its
    /// heights: `width * height` vertices on the lattice, their texture
    /// coordinates, and two triangles for each of the
    /// `(width - 1) * (height - 1)` quads.
    pub open spec fn is_grid(self, size: GridSpec) -> bool {
        &&& self.positions@.len() == size.width * size.height
        &&& self.uvs@.len() == size.width * size.height
        &&& self.indices@.len() == 6 * size.quads()
        &&& forall|i: int|
            0 <= i < size.width * size.height ==> {
                &&& (#[trigger] self.positions@[i]).x == size.vertex(i).x
                &&& self.positions@[i].y == size.vertex(i).y
                &&& self.uvs@[i] == uv_of(size.vertex(i))
            }
        &&& forall|j: int|
            0 <= j < 6 * size.quads() ==> (#[trigger] self.indices@[j]) == size.index(j)
    }

    /// The mesh is the grid of `size` with four vertices of its own for each
    /// of the `width * height` cells, whatever its heights.
    pub open spec fn is_quad_grid(self, size: GridSpec) -> bool {
        &&& self.positions@.len() == 4 * (size.width * size.height)
        &&& self.uvs@.len() == 4 * (size.width * size.height)
        &&& self.indices@.len() == 6 * (size.width * size.height)
        &&& forall|i: int|
            0 <= i < 4 * (size.width * size.height) ==> {
                &&& (#[trigger] self.positions@[i]).x == size.cell_vertex(i).x
                &&& self.positions@[i].y == size.cell_vertex(i).y
                &&& self.uvs@[i] == uv_of(size.cell_vertex(i))
            }
        &&& forall|j: int|
            0 <= j < 6 * (size.width * size.height) ==> (#[trigger] self.indices@[j])
                == size.cell_index(j)
    }

    /// Every vertex has a height that `heightmap` gives at its point.
    pub open spec fn is_sampled<H: HeightMap>(self, heightmap: &H) -> bool {
        forall|i: int|
            0 <= i < self.positions@.len() ==> heightmap.yields(
                (#[trigger] self.positions@[i]).x,
                self.positions@[i].y,
                self.positions@[i].z,
            )
    }

    /// The texture coordinate of a position, with the vertical axis flipped.
    pub fn position_to_uv(p: &Vertex) -> (uv: Uv)
        requires
            p.y.num <= p.y.den,
        ensures
            uv == uv_of(*p),
    {
        Uv { u: p.x, v: Ratio { num: p.y.den - p.y.num, den: p.y.den } }
    }

    /// The number of the lattice point `(x, y)` in a grid `w` points wide.
    pub fn index(x: u32, y: u32, w: u32) -> (i: u32)
        requires
            lattice_index(x as int, y as int, w as int) <= u32::MAX,
        ensures
            i == lattice_index(x as int, y as int, w as int),
    {
        assert(y * w <= u32::MAX) by (nonlinear_arith)
            requires
                x + y * w <= u32::MAX,
        ;
        x + y * w
    }

    /// The indices of the two triangles of the quad whose lower left corner
    /// is `(x, y)`.
    pub fn quad_indices(x: u32, y: u32, w: u32) -> (quad: [u32; 6])
        requires
            y < u32::MAX,
            lattice_index(x + 1, y + 1, w as int) <= u32::MAX,
        ensures
            quad@.len() == 6,
            forall|k: int|
                0 <= k < 6 ==> (#[trigger] quad@[k]) == quad_index_list(
                    x as int,
                    y as int,
                    w as int,
                )[k],
    {
        assert(0 <= y * w && y * w + w == (y + 1) * w) by (nonlinear_arith);
        [
            Self::index(x, y, w),
            Self::index(x + 1, y, w),
            Self::index(x + 1, y + 1, w),
            Self::index(x, y, w),
            Self::index(x + 1, y + 1, w),
            Self::index(x, y + 1, w),
        ]
    }

    /// The grid of `size` with shared vertices, at height zero.
    ///
    /// Vertex `(x, y)` of the lattice stands at
    /// `(x / (width - 1) - 1/2, y / (height - 1) - 1/2, 0)`; along an axis
    /// with a single point the divisor is 1. Each quad of the lattice gives
    /// two counter-clockwise triangles. A size with a zero in it, or with
    /// more points than 32-bit indices can number, is refused.
    pub fn grid(size: GridSpec) -> (built: Result<MeshBuilder, GridError>)
        ensures
            built is Ok <==> size.error() is None,
            built matches Err(e) ==> size.error() == Some(e),
            built matches Ok(mesh) ==> mesh.is_grid(size) && mesh.is_flat() && mesh.wf(),
    {
        if size.width == 0 || size.height == 0 {
            return Err(GridError::Empty);
        }
        let w: u32 = size.width;
        let h: u32 = size.height;
        assert(w * h <= 0xffff_ffff * 0xffff_ffff) by (nonlinear_arith)
            requires
                w <= 0xffff_ffff,
                h <= 0xffff_ffff,
        ;
        if w as u64 * h as u64 > u32::MAX as u64 {
            return Err(GridError::TooLarge);
        }
        let dx: u32 = if w > 1 {
            w - 1
        } else {
            1
        };
        let dy: u32 = if h > 1 {
            h - 1
        } else {
            1
        };
        let mut positions: Vec<Vertex> = Vec::new();
        let mut y: u32 = 0;
        while y < h
            invariant
                y <= h,
                w == size.width,
                h == size.height,
                w >= 1,
                dx == size.divisor_x(),
                dy == size.divisor_y(),
                positions@.len() == y * w,
                forall|i: int| 0 <= i < positions@.len() ==> #[trigger] positions@[i] == size.vertex(i),
            decreases h - y,
        {
            let mut x: u32 = 0;
            while x < w
                invariant
                    x <= w,
                    y < h,
                    w == size.width,
                    h == size.height,
                    w >= 1,
                    dx == size.divisor_x(),
                    dy == size.divisor_y(),
                    positions@.len() == y * w + x,
                    forall|i: int|
                        0 <= i < positions@.len() ==> #[trigger] positions@[i] == size.vertex(i),
                decreases w - x,
            {
                proof {
                    lemma_fundamental_div_mod_converse(y * w + x, w as int, y as int, x as int);
                }
                positions.push(
                    Vertex {
                        x: Ratio { num: x, den: dx },
                        y: Ratio { num: y, den: dy },
                        z: Height::Level(0),
                    },
                );
                x = x + 1;
            }
            assert((y + 1) * w == y * w + w) by (nonlinear_arith);
            y = y + 1;
        }
        assert(h * w == w * h) by (nonlinear_arith);
        let bw: u32 = w - 1;
        let bh: u32 = h - 1;
        let mut indices: Vec<u32> = Vec::new();
        let mut y: u32 = 0;
        while y < bh
            invariant
                y <= bh,
                w == size.width,
                h == size.height,
                bw == w - 1,
                bh == h - 1,
                w * h <= u32::MAX,
                indices@.len() == 6 * (y * bw),
                forall|j: int| 0 <= j < indices@.len() ==> #[trigger] indices@[j] == size.index(j),
            decreases bh - y,
        {
            let mut x: u32 = 0;
            while x < bw
                invariant
                    x <= bw,
                    y < bh,
                    w == size.width,
                    h == size.height,
                    bw == w - 1,
                    bh == h - 1,
                    w * h <= u32::MAX,
                    indices@.len() == 6 * (y * bw + x),
                    forall|j: int|
                        0 <= j < indices@.len() ==> #[trigger] indices@[j] == size.index(j),
                decreases bw - x,
            {
                proof {
                    lemma_lattice_index_bound(x + 1, y + 1, w as int, h as int);
                    lemma_fundamental_div_mod_converse(y * bw + x, bw as int, y as int, x as int);
                }
                let quad = Self::quad_indices(x, y, w);
                indices.push(quad[0]);
                indices.push(quad[1]);
                indices.push(quad[2]);
                indices.push(quad[3]);
                indices.push(quad[4]);
                indices.push(quad[5]);
                x = x + 1;
            }
            assert((y + 1) * bw == y * bw + bw) by (nonlinear_arith);
            y = y + 1;
        }
        assert(bh * bw == (w - 1) * (h - 1)) by (nonlinear_arith)
            requires
                bw == w - 1,
                bh == h - 1,
        ;
        let mut uvs: Vec<Uv> = Vec::new();
        let mut i: usize = 0;
        while i < positions.len()
            invariant
                i <= positions@.len(),
                size.error() is None,
                positions@.len() == size.width * size.height,
                forall|k: int| 0 <= k < positions@.len() ==> #[trigger] positions@[k] == size.vertex(k),
                uvs@.len() == i,
                forall|k: int| 0 <= k < i ==> #[trigger] uvs@[k] == uv_of(size.vertex(k)),
            decreases positions@.len() - i,
        {
            proof {
                lemma_grid_vertex(size, i as int);
            }
            uvs.push(Self::position_to_uv(&positions[i]));
            i = i + 1;
        }
        let mesh = MeshBuilder { positions, uvs, indices };
        proof {
            assert forall|k: int| 0 <= k < mesh.positions@.len() implies {
                &&& (#[trigger] mesh.positions@[k]).x.wf()
                &&& mesh.positions@[k].y.wf()
                &&& mesh.uvs@[k] == uv_of(mesh.positions@[k])
            } by {
                lemma_grid_vertex(size, k);
            }
            assert forall|j: int| 0 <= j < mesh.indices@.len() implies (#[trigger] mesh.indices@[j])
                < mesh.positions@.len() by {
                lemma_grid_index_bound(size, j);
            }
        }
        Ok(mesh)
    }

    /// The grid of `size` with four vertices per cell, at height zero.
    ///
    /// Each of the `width * height` cells covers a `1/width × 1/height` part
    /// of the square and has four vertices of its own, so that neighbouring
    /// cells share none, and two counter-clockwise triangles over them. A
    /// size with a zero in it, or with more vertices than 32-bit indices can
    /// number, is refused.
    pub fn quad_grid(size: GridSpec) -> (built: Result<MeshBuilder, GridError>)
        ensures
            built is Ok <==> size.quad_error() is None,
            built matches Err(e) ==> size.quad_error() == Some(e),
            built matches Ok(mesh) ==> mesh.is_quad_grid(size) && mesh.is_flat() && mesh.wf(),
    {
        if size.width == 0 || size.height == 0 {
            return Err(GridError::Empty);
        }
        let w: u32 = size.width;
        let h: u32 = size.height;
        assert(w * h <= 0xffff_ffff * 0xffff_ffff) by (nonlinear_arith)
            requires
                w <= 0xffff_ffff,
                h <= 0xffff_ffff,
        ;
        if w as u64 * h as u64 > (u32::MAX / 4) as u64 {
            return Err(GridError::TooLarge);
        }
        let mut positions: Vec<Vertex> = Vec::new();
        let mut indices: Vec<u32> = Vec::new();
        let mut cy: u32 = 0;
        while cy < h
            invariant
                cy <= h,
                w == size.width,
                h == size.height,
                w >= 1,
                4 * (w * h) <= u32::MAX,
                positions@.len() == 4 * (cy * w),
                indices@.len() == 6 * (cy * w),
                forall|i: int|
                    0 <= i < positions@.len() ==> #[trigger] positions@[i] == size.cell_vertex(i),
                forall|j: int|
                    0 <= j < indices@.len() ==> #[trigger] indices@[j] == size.cell_index(j),
            decreases h - cy,
        {
            let mut cx: u32 = 0;
            while cx < w
                invariant
                    cx <= w,
                    cy < h,
                    w == size.width,
                    h == size.height,
                    w >= 1,
                    4 * (w * h) <= u32::MAX,
                    positions@.len() == 4 * (cy * w + cx),
                    indices@.len() == 6 * (cy * w + cx),
                    forall|i: int|
                        0 <= i < positions@.len() ==> #[trigger] positions@[i] == size.cell_vertex(
                            i,
                        ),
                    forall|j: int|
                        0 <= j < indices@.len() ==> #[trigger] indices@[j] == size.cell_index(j),
                decreases w - cx,
            {
                proof {
                    lemma_lattice_index_bound(cx as int, cy as int, w as int, h as int);
                    lemma_fundamental_div_mod_converse(cy * w + cx, w as int, cy as int, cx as int);
                }
                let base: u32 = 4 * (cy * w + cx);
                positions.push(
                    Vertex {
                        x: Ratio { num: cx, den: w },
                        y: Ratio { num: cy, den: h },
                        z: Height::Level(0),
                    },
                );
                positions.push(
                    Vertex {
                        x: Ratio { num: cx + 1, den: w },
                        y: Ratio { num: cy, den: h },
                        z: Height::Level(0),
                    },
                );
                positions.push(
                    Vertex {
                        x: Ratio { num: cx + 1, den: w },
                        y: Ratio { num: cy + 1, den: h },
                        z: Height::Level(0),
                    },
                );
                positions.push(
                    Vertex {
                        x: Ratio { num: cx, den: w },
                        y: Ratio { num: cy + 1, den: h },
                        z: Height::Level(0),
                    },
                );
                indices.push(base);
                indices.push(base + 1);
                indices.push(base + 2);
                indices.push(base);
                indices.push(base + 2);
                indices.push(base + 3);
                cx = cx + 1;
            }
            assert((cy + 1) * w == cy * w + w) by (nonlinear_arith);
            cy = cy + 1;
        }
        assert(h * w == w * h) by (nonlinear_arith);
        let mut uvs: Vec<Uv> = Vec::new();
        let mut i: usize = 0;
        while i < positions.len()
            invariant
                i <= positions@.len(),
                size.quad_error() is None,
                positions@.len() == 4 * (size.width * size.height),
                forall|k: int|
                    0 <= k < positions@.len() ==> #[trigger] positions@[k] == size.cell_vertex(k),
                uvs@.len() == i,
                forall|k: int| 0 <= k < i ==> #[trigger] uvs@[k] == uv_of(size.cell_vertex(k)),
            decreases positions@.len() - i,
        {
            proof {
                lemma_quad_grid_vertex(size, i as int);
            }
            uvs.push(Self::position_to_uv(&positions[i]));
            i = i + 1;
        }
        let mesh = MeshBuilder { positions, uvs, indices };
        proof {
            assert forall|k: int| 0 <= k < mesh.positions@.len() implies {
                &&& (#[trigger] mesh.positions@[k]).x.wf()
                &&& mesh.positions@[k].y.wf()
                &&& mesh.uvs@[k] == uv_of(mesh.positions@[k])
            } by {
                lemma_quad_grid_vertex(size, k);
            }
        }
        Ok(mesh)
    }

    /// Sets the height of every vertex to what `heightmap` gives at its
    /// point. Points, texture coordinates and indices stay as they are.
    pub fn update_z_positions<H: HeightMap>(&mut self, heightmap: &H)
        requires
            forall|i: int|
                0 <= i < old(self).positions@.len() ==> heightmap.accepts(
                    (#[trigger] old(self).positions@[i]).x,
                    old(self).positions@[i].y,
                ),
        ensures
            final(self).positions@.len() == old(self).positions@.len(),
            forall|i: int|
                0 <= i < old(self).positions@.len() ==> {
                    &&& (#[trigger] final(self).positions@[i]).x == old(self).positions@[i].x
                    &&& final(self).positions@[i].y == old(self).positions@[i].y
                },
            final(self).is_sampled(heightmap),
            final(self).uvs == old(self).uvs,
            final(self).indices == old(self).indices,
            old(self).wf() ==> final(self).wf(),
    {
        let height = |x: Ratio, y: Ratio| -> (z: Height)
            requires
                heightmap.accepts(x, y),
            ensures
                heightmap.yields(x, y, z),
            { heightmap.h(x, y) };
        self.set_heights(&height);
    }

    /// Sets the height of every vertex to what `height` returns for its
    /// point. Points, texture coordinates and indices stay as they are.
    pub fn set_heights<F: Fn(Ratio, Ratio) -> Height>(&mut self, height: &F)
        requires
            forall|i: int|
                0 <= i < old(self).positions@.len() ==> height.requires(
                    ((#[trigger] old(self).positions@[i]).x, old(self).positions@[i].y),
                ),
        ensures
            final(self).positions@.len() == old(self).positions@.len(),
            forall|i: int|
                0 <= i < old(self).positions@.len() ==> {
                    &&& (#[trigger] final(self).positions@[i]).x == old(self).positions@[i].x
                    &&& final(self).positions@[i].y == old(self).positions@[i].y
                    &&& height.ensures(
                        (old(self).positions@[i].x, old(self).positions@[i].y),
                        final(self).positions@[i].z,
                    )
                },
            final(self).uvs == old(self).uvs,
            final(self).indices == old(self).indices,
            old(self).wf() ==> final(self).wf(),
    {
        let mut i: usize = 0;
        while i < self.positions.len()
            invariant
                i <= self.positions@.len(),
                self.positions@.len() == old(self).positions@.len(),
                self.uvs == old(self).uvs,
                self.indices == old(self).indices,
                forall|k: int|
                    0 <= k < self.positions@.len() ==> {
                        &&& (#[trigger] self.positions@[k]).x == old(self).positions@[k].x
                        &&& self.positions@[k].y == old(self).positions@[k].y
                    },
                forall|k: int|
                    0 <= k < old(self).positions@.len() ==> height.requires(
                        ((#[trigger] old(self).positions@[k]).x, old(self).positions@[k].y),
                    ),
                forall|k: int|
                    0 <= k < i ==> height.ensures(
                        (old(self).positions@[k].x, old(self).positions@[k].y),
                        (#[trigger] self.positions@[k]).z,
                    ),
            decreases self.positions@.len() - i,
        {
            let p = self.positions[i];
            assert(p.x == old(self).positions@[i as int].x);
            let z = height(p.x, p.y);
            self.positions.set(i, Vertex { x: p.x, y: p.y, z });
            i = i + 1;
        }
    }
}

/// In a numbering row by row, `w` to the row and `h` rows, number `i` lies in
/// column `i % w` of row `i / w`.
proof fn lemma_row_major(i: int, w: int, h: int)
    by (nonlinear_arith)
    requires
        w > 0,
        0 <= i < w * h,
    ensures
        0 <= i % w < w,
        0 <= i / w < h,
        i == (i / w) * w + i % w,
{
}

/// The number of column `x` in row `y` is below the number of points.
proof fn lemma_lattice_index_bound(x: int, y: int, w: int, h: int)
    by (nonlinear_arith)
    requires
        0 <= x < w,
        0 <= y < h,
    ensures
        0 <= lattice_index(x, y, w) < w * h,
        0 <= y * w,
        (y + 1) * w == y * w + w,
{
}

/// Every vertex of a grid that can be built lies in the unit square, and the
/// vertices are numbered row by row.
pub proof fn lemma_grid_vertex(size: GridSpec, i: int)
    requires
        size.error() is None,
        0 <= i < size.width * size.height,
    ensures
        size.vertex(i).x.wf(),
        size.vertex(i).y.wf(),
        size.vertex(i).x.num < size.width,
        size.vertex(i).y.num < size.height,
        lattice_index(size.vertex(i).x.num as int, size.vertex(i).y.num as int, size.width as int)
            == i,
{
    lemma_row_major(i, size.width as int, size.height as int);
}

/// Every entry of the index list of a grid that can be built is the number
/// of one of its vertices.
pub proof fn lemma_grid_index_bound(size: GridSpec, j: int)
    requires
        size.error() is None,
        0 <= j < 6 * size.quads(),
    ensures
        0 <= size.index(j) < size.width * size.height,
{
    let w = size.width as int;
    let h = size.height as int;
    let quad = j / 6;
    assert(w > 1 && h > 1) by (nonlinear_arith)
        requires
            w >= 1,
            h >= 1,
            0 < (w - 1) * (h - 1),
    ;
    lemma_row_major(quad, w - 1, h - 1);
    let x = quad % (w - 1);
    let y = quad / (w - 1);
    lemma_lattice_index_bound(x, y, w, h);
    lemma_lattice_index_bound(x + 1, y, w, h);
    lemma_lattice_index_bound(x + 1, y + 1, w, h);
    lemma_lattice_index_bound(x, y + 1, w, h);
}


/// Every vertex of a grid with four vertices per cell that can be built lies
/// in the unit square, at a corner of its cell.
pub proof fn lemma_quad_grid_vertex(size: GridSpec, i: int)
    requires
        size.quad_error() is None,
        0 <= i < 4 * (size.width * size.height),
    ensures
        size.cell_vertex(i).x.wf(),
        size.cell_vertex(i).y.wf(),
{
    lemma_row_major(i / 4, size.width as int, size.height as int);
}


/// A grid with shared vertices has one position for each lattice point and
/// six indices, two triangles, for each quad, and every index names one of
/// the positions.
pub proof fn lemma_grid_counts(mesh: MeshBuilder, size: GridSpec)
    requires
        size.error() is None,
        mesh.is_grid(size),
    ensures
        mesh.positions@.len() == size.width * size.height,
        mesh.indices@.len() == 6 * ((size.width - 1) * (size.height - 1)),
        forall|j: int|
            0 <= j < mesh.indices@.len() ==> 0 <= (#[trigger] mesh.indices@[j])
                < mesh.positions@.len(),
{
    assert forall|j: int| 0 <= j < mesh.indices@.len() implies 0 <= (#[trigger] mesh.indices@[j])
        < mesh.positions@.len() by {
        lemma_grid_index_bound(size, j);
    }
}

/// A grid with four vertices per cell has four positions and six indices
/// for each cell, and every index names one of the positions.
pub proof fn lemma_quad_grid_counts(mesh: MeshBuilder, size: GridSpec)
    requires
        size.quad_error() is None,
        mesh.is_quad_grid(size),
    ensures
        mesh.positions@.len() == 4 * (size.width * size.height),
        mesh.indices@.len() == 6 * (size.width * size.height),
        forall|j: int|
            0 <= j < mesh.indices@.len() ==> 0 <= (#[trigger] mesh.indices@[j])
                < mesh.positions@.len(),
{
    let cells = size.width * size.height;
    assert forall|j: int| 0 <= j < mesh.indices@.len() implies 0 <= (#[trigger] mesh.indices@[j])
        < mesh.positions@.len() by {
        assert(mesh.indices@[j] == size.cell_index(j));
        assert(0 <= j / 6 < cells);
        assert(0 <= cell_corner(j % 6) <= 3);
    }
}

/// Every triangle of a grid with shared vertices runs counter-clockwise:
/// triangle number `t` takes entries `3 t`, `3 t + 1` and `3 t + 2` of the
/// index list, and the vertices they name turn to the left.
pub proof fn lemma_grid_winding(size: GridSpec, t: int)
    requires
        size.error() is None,
        0 <= t < 2 * size.quads(),
    ensures
        orientation(
            size.vertex(size.index(3 * t)),
            size.vertex(size.index(3 * t + 1)),
            size.vertex(size.index(3 * t + 2)),
        ) > 0,
{
    let w = size.width as int;
    let h = size.height as int;
    let quad = (3 * t) / 6;
    assert(w > 1 && h > 1) by (nonlinear_arith)
        requires
            w >= 1,
            h >= 1,
            0 < (w - 1) * (h - 1),
    ;
    lemma_row_major(quad, w - 1, h - 1);
    let x = quad % (w - 1);
    let y = quad / (w - 1);
    lemma_vertex_of_lattice_index(size, x, y);
    lemma_vertex_of_lattice_index(size, x + 1, y);
    lemma_vertex_of_lattice_index(size, x + 1, y + 1);
    lemma_vertex_of_lattice_index(size, x, y + 1);
    assert((3 * t + 1) / 6 == quad && (3 * t + 2) / 6 == quad);
    let a = size.vertex(size.index(3 * t));
    let b = size.vertex(size.index(3 * t + 1));
    let c = size.vertex(size.index(3 * t + 2));
    let corners = quad_index_list(x, y, w);
    if (3 * t) % 6 == 0 {
        assert((3 * t + 1) % 6 == 1 && (3 * t + 2) % 6 == 2);
        assert(size.index(3 * t) == corners[0]);
        assert(size.index(3 * t + 1) == corners[1]);
        assert(size.index(3 * t + 2) == corners[2]);
        assert(a.x.num == x && a.y.num == y);
        assert(b.x.num == x + 1 && b.y.num == y);
        assert(c.x.num == x + 1 && c.y.num == y + 1);
        assert(orientation(a, b, c) == 1 * 1 - 0 * 1);
    } else {
        assert((3 * t) % 6 == 3 && (3 * t + 1) % 6 == 4 && (3 * t + 2) % 6 == 5);
        assert(size.index(3 * t) == corners[3]);
        assert(size.index(3 * t + 1) == corners[4]);
        assert(size.index(3 * t + 2) == corners[5]);
        assert(a.x.num == x && a.y.num == y);
        assert(b.x.num == x + 1 && b.y.num == y + 1);
        assert(c.x.num == x && c.y.num == y + 1);
        assert(orientation(a, b, c) == 1 * 1 - 1 * 0);
    }
}

/// Every triangle of a grid with four vertices per cell runs
/// counter-clockwise.
pub proof fn lemma_quad_grid_winding(size: GridSpec, t: int)
    requires
        size.quad_error() is None,
        0 <= t < 2 * (size.width * size.height),
    ensures
        orientation(
            size.cell_vertex(size.cell_index(3 * t)),
            size.cell_vertex(size.cell_index(3 * t + 1)),
            size.cell_vertex(size.cell_index(3 * t + 2)),
        ) > 0,
{
    let cell = (3 * t) / 6;
    lemma_row_major(cell, size.width as int, size.height as int);
    let cx = cell % (size.width as int);
    let cy = cell / (size.width as int);
    assert((3 * t + 1) / 6 == cell && (3 * t + 2) / 6 == cell);
    let a = size.cell_vertex(size.cell_index(3 * t));
    let b = size.cell_vertex(size.cell_index(3 * t + 1));
    let c = size.cell_vertex(size.cell_index(3 * t + 2));
    if (3 * t) % 6 == 0 {
        assert((3 * t + 1) % 6 == 1 && (3 * t + 2) % 6 == 2);
        assert(size.cell_index(3 * t) == 4 * cell);
        assert(size.cell_index(3 * t + 1) == 4 * cell + 1);
        assert(size.cell_index(3 * t + 2) == 4 * cell + 2);
        assert(a.x.num == cx && a.y.num == cy);
        assert(b.x.num == cx + 1 && b.y.num == cy);
        assert(c.x.num == cx + 1 && c.y.num == cy + 1);
        assert(orientation(a, b, c) == 1 * 1 - 0 * 1);
    } else {
        assert((3 * t) % 6 == 3 && (3 * t + 1) % 6 == 4 && (3 * t + 2) % 6 == 5);
        assert(size.cell_index(3 * t) == 4 * cell);
        assert(size.cell_index(3 * t + 1) == 4 * cell + 2);
        assert(size.cell_index(3 * t + 2) == 4 * cell + 3);
        assert(a.x.num == cx && a.y.num == cy);
        assert(b.x.num == cx + 1 && b.y.num == cy + 1);
        assert(c.x.num == cx && c.y.num == cy + 1);
        assert(orientation(a, b, c) == 1 * 1 - 1 * 0);
    }
}

/// The vertex whose number is that of the lattice point `(x, y)` stands at
/// that point.
proof fn lemma_vertex_of_lattice_index(size: GridSpec, x: int, y: int)
    requires
        size.error() is None,
        0 <= x < size.width,
        0 <= y < size.height,
    ensures
        size.vertex(lattice_index(x, y, size.width as int)).x.num == x,
        size.vertex(lattice_index(x, y, size.width as int)).y.num == y,
{
    lemma_fundamental_div_mod_converse(lattice_index(x, y, size.width as int), size.width as int, y, x);
}

} // verus!
