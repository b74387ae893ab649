//! The heightmap terrain and its triangle-strip mesh builder.
//!
//! A `HeightGrid` is a row-major array of fixed-point height samples. The
//! builder sweeps the rows pairwise: for each cell column it emits the
//! cell's lower and upper vertex, so a W x H grid yields 2*W*(H-1)
//! vertices, and the index list simply enumerates them in emission order.
//! Strip restart between row sweeps is deliberately absent: the strip
//! stays connected across rows, a simplification this demo accepts at the
//! cost of artifacts along row boundaries.

use vstd::prelude::*;

use crate::vec3::Vec3i;

verus! {

/// Largest accepted grid side: it keeps every vertex index inside `u32`
/// and every buffer length inside a 32-bit `usize`.
pub const GRID_DIM_LIMIT: usize = 32768;

/// A row-major grid of fixed-point height samples.
pub struct HeightGrid {
    pub width: usize,
    pub height: usize,
    pub heights: Vec<i64>,
}

impl HeightGrid {
    /// The sample array holds exactly one value per grid point.
    pub open spec fn wf(self) -> bool {
        self.heights@.len() == self.width * self.height
    }

    /// The height sample at column `x` of row `y`.
    pub open spec fn height_at(self, x: int, y: int) -> i64 {
        self.heights@[y * self.width + x]
    }

    /// Builds a grid from its dimensions and its row-major samples.
    pub fn new(width: usize, height: usize, heights: Vec<i64>) -> (g: HeightGrid)
        requires
            heights@.len() == width * height,
        ensures
            g.width == width,
            g.height == height,
            g.heights@ == heights@,
            g.wf(),
    {
        HeightGrid { width, height, heights }
    }

    /// Reads the sample at column `x` of row `y`.
    pub fn sample(&self, x: usize, y: usize) -> (h: i64)
        requires
            self.wf(),
            x < self.width,
            y < self.height,
        ensures
            h == self.height_at(x as int, y as int),
    {
        let n = self.heights.len();
        proof {
            lemma_row_major_bound(self.width as int, self.height as int, x as int, y as int);
            assert(y * self.width + x < n);
        }
        self.heights[y * self.width + x]
    }

    /// The lower vertex a cell contributes: the grid point itself, its
    /// height as the third coordinate.
    pub open spec fn lower_vertex(self, x: int, y: int) -> Vec3i {
        Vec3i { x: x as i64, y: y as i64, z: self.height_at(x, y) }
    }

    /// The upper vertex a cell contributes: the grid point one row up.
    pub open spec fn upper_vertex(self, x: int, y: int) -> Vec3i {
        Vec3i { x: x as i64, y: (y + 1) as i64, z: self.height_at(x, y + 1) }
    }
}

/// A triangle-strip vertex/index buffer, built once and then immutable.
pub struct MeshBuffer {
    pub vertices: Vec<Vec3i>,
    pub indices: Vec<u32>,
}

/// How many vertices the strip over a W x H grid holds: two per cell of
/// the H-1 swept row pairs.
pub open spec fn strip_vertex_count(width: nat, height: nat) -> nat {
    if height == 0 {
        0
    } else {
        (2 * width * (height - 1)) as nat
    }
}

/// Where a cell's pair of vertices starts in the buffer.
pub open spec fn cell_base(width: int, x: int, y: int) -> int {
    2 * (y * width + x)
}

/// A row-major position is inside the sample array.
proof fn lemma_row_major_bound(w: int, h: int, x: int, y: int)
    requires
        0 <= x < w,
        0 <= y < h,
    ensures
        0 <= y * w + x < w * h,
{
    assert(0 <= y * w + x < w * h) by (nonlinear_arith)
        requires
            0 <= x < w,
            0 <= y < h,
    ;
}

/// Cells in sweep order occupy strictly increasing row-major positions.
proof fn lemma_cell_order(w: int, x1: int, y1: int, x2: int, y2: int)
    requires
        0 <= x1 < w,
        0 <= x2 < w,
        0 <= y1,
        0 <= y2,
        y1 < y2 || (y1 == y2 && x1 < x2),
    ensures
        y1 * w + x1 < y2 * w + x2,
{
    assert(y1 * w + x1 < y2 * w + x2) by (nonlinear_arith)
        requires
            0 <= x1 < w,
            0 <= x2 < w,
            y1 < y2 || (y1 == y2 && x1 < x2),
    ;
}

/// Builds the triangle-strip mesh over a height grid.
///
/// The buffer holds exactly `strip_vertex_count` vertices and as many
/// indices; the indices enumerate the vertices in order; and the pair of
/// vertices at a cell's base are the cell's lower and upper grid points
/// with their height samples.
pub fn build_strip_mesh(grid: &HeightGrid) -> (m: MeshBuffer)
    requires
        grid.wf(),
        grid.width <= GRID_DIM_LIMIT,
        grid.height <= GRID_DIM_LIMIT,
    ensures
        m.vertices@.len() == strip_vertex_count(grid.width as nat, grid.height as nat),
        m.indices@.len() == m.vertices@.len(),
        forall|i: int| 0 <= i < m.indices@.len() ==> m.indices@[i] == i,
        forall|x: int, y: int|
            0 <= x < grid.width && 0 <= y < grid.height - 1 ==> {
                &&& m.vertices@[#[trigger] cell_base(grid.width as int, x, y)] == grid.lower_vertex(
                    x,
                    y,
                )
                &&& m.vertices@[cell_base(grid.width as int, x, y) + 1] == grid.upper_vertex(x, y)
            },
{
    let mut vertices: Vec<Vec3i> = Vec::new();
    let mut indices: Vec<u32> = Vec::new();
    if grid.height == 0 {
        return MeshBuffer { vertices, indices };
    }
    let width = grid.width;
    let rows = grid.height - 1;
    let mut y: usize = 0;
    while y < rows
        invariant
            grid.wf(),
            width == grid.width,
            rows == grid.height - 1,
            grid.width <= GRID_DIM_LIMIT,
            grid.height <= GRID_DIM_LIMIT,
            y <= rows,
            vertices@.len() == 2 * (y * width),
            indices@.len() == vertices@.len(),
            forall|i: int| 0 <= i < indices@.len() ==> indices@[i] == i,
            forall|xx: int, yy: int|
                0 <= xx < width && 0 <= yy < y ==> {
                    &&& vertices@[#[trigger] cell_base(width as int, xx, yy)]
                        == grid.lower_vertex(xx, yy)
                    &&& vertices@[cell_base(width as int, xx, yy) + 1] == grid.upper_vertex(xx, yy)
                },
        decreases rows - y,
    {
        let mut x: usize = 0;
        while x < width
            invariant
                grid.wf(),
                width == grid.width,
                rows == grid.height - 1,
                grid.width <= GRID_DIM_LIMIT,
                grid.height <= GRID_DIM_LIMIT,
                y < rows,
                x <= width,
                vertices@.len() == 2 * (y * width + x),
                indices@.len() == vertices@.len(),
                forall|i: int| 0 <= i < indices@.len() ==> indices@[i] == i,
                forall|xx: int, yy: int|
                    0 <= xx < width && (yy < y || (yy == y && xx < x)) && 0 <= yy ==> {
                        &&& vertices@[#[trigger] cell_base(width as int, xx, yy)]
                            == grid.lower_vertex(xx, yy)
                        &&& vertices@[cell_base(width as int, xx, yy) + 1]
                            == grid.upper_vertex(xx, yy)
                    },
            decreases width - x,
        {
            proof {
                assert(width * grid.height <= 0x40000000) by (nonlinear_arith)
                    requires
                        width <= 32768,
                        grid.height <= 32768,
                ;
                assert(y * width + x < width * grid.height) by (nonlinear_arith)
                    requires
                        0 <= x < width,
                        0 <= y < rows,
                        rows == grid.height - 1,
                ;
                assert((y + 1) * width + x < width * grid.height) by (nonlinear_arith)
                    requires
                        0 <= x < width,
                        0 <= y < rows,
                        rows == grid.height - 1,
                ;
            }
            let base = y * width + x;
            let low = grid.heights[base];
            let high = grid.heights[(y + 1) * width + x];
            let ghost old_vertices = vertices@;
            vertices.push(Vec3i { x: x as i64, y: y as i64, z: low });
            vertices.push(Vec3i { x: x as i64, y: (y + 1) as i64, z: high });
            indices.push((2 * base) as u32);
            indices.push((2 * base + 1) as u32);
            proof {
                assert(cell_base(width as int, x as int, y as int) == old_vertices.len());
                assert forall|xx: int, yy: int|
                    0 <= xx < width && (yy < y || (yy == y && xx < x + 1)) && 0 <= yy implies {
                    &&& vertices@[#[trigger] cell_base(width as int, xx, yy)]
                        == grid.lower_vertex(xx, yy)
                    &&& vertices@[cell_base(width as int, xx, yy) + 1] == grid.upper_vertex(xx, yy)
                } by {
                    if yy < y || (yy == y && xx < x) {
                        lemma_cell_order(width as int, xx, yy, x as int, y as int);
                    }
                }
            }
            x = x + 1;
        }
        proof {
            assert((y + 1) * width == y * width + width) by (nonlinear_arith);
        }
        y = y + 1;
    }
    proof {
        assert(2 * (rows * width) == strip_vertex_count(grid.width as nat, grid.height as nat))
            by (nonlinear_arith)
            requires
                rows == grid.height - 1,
                width == grid.width,
                grid.height >= 1,
        ;
    }
    MeshBuffer { vertices, indices }
}

} // verus!
