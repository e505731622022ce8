//! Immutable geometric description of a uniform rectangular zone grid.

use vstd::prelude::*;

verus! {

/// A uniform rectangular grid of `ni * nj` zones. The coordinate fields
/// (`x0`, `y0`, `dx`, `dy`) carry the scalar type `T` and are opaque to the
/// mesh itself: every derived quantity the solver core needs is a function
/// of the zone counts alone.
#[derive(Debug, Clone)]
pub struct Mesh<T> {
    /// Number of zones on the i-axis
    pub ni: i32,
    /// Number of zones on the j-axis
    pub nj: i32,
    /// Left coordinate edge of the domain
    pub x0: T,
    /// Bottom coordinate edge of the domain
    pub y0: T,
    /// Zone spacing on the i-axis
    pub dx: T,
    /// Zone spacing on the j-axis
    pub dy: T,
}

impl<T: Copy> Mesh<T> {
    /// A mesh is well formed when its zone counts are non-negative.
    pub open spec fn wf(self) -> bool {
        0 <= self.ni && 0 <= self.nj
    }

    /// Creates a square mesh that is centered on the origin, with the given
    /// number of zones on each side. The caller supplies the coordinate of
    /// the left/bottom edge and the zone spacing; for a domain of radius
    /// `r` these are `-r` and `2 * r / resolution`.
    pub fn centered_square(origin: T, spacing: T, resolution: u32) -> (m: Mesh<T>)
        requires
            resolution <= i32::MAX,
        ensures
            m.wf(),
            m.ni == resolution as i32,
            m.nj == resolution as i32,
            m.x0 == origin,
            m.y0 == origin,
            m.dx == spacing,
            m.dy == spacing,
    {
        Mesh {
            x0: origin,
            y0: origin,
            ni: resolution as i32,
            nj: resolution as i32,
            dx: spacing,
            dy: spacing,
        }
    }

    /// Returns the number of zones on the i-axis as a `u32`.
    pub fn ni(&self) -> (r: u32)
        requires
            self.wf(),
        ensures
            r as int == self.ni as int,
    {
        self.ni as u32
    }

    /// Returns the number of zones on the j-axis as a `u32`.
    pub fn nj(&self) -> (r: u32)
        requires
            self.wf(),
        ensures
            r as int == self.nj as int,
    {
        self.nj as u32
    }

    /// Returns the number of total zones (`ni * nj`) as a `usize`.
    pub fn num_total_zones(&self) -> (r: usize)
        requires
            self.wf(),
            self.ni * self.nj <= i32::MAX,
        ensures
            r as int == self.ni * self.nj,
    {
        (self.ni * self.nj) as usize
    }

    /// Returns the number of zones in each direction.
    pub fn shape(&self) -> (r: [u32; 2])
        requires
            self.wf(),
        ensures
            r[0] as int == self.ni as int,
            r[1] as int == self.nj as int,
    {
        [self.ni as u32, self.nj as u32]
    }

    /// Returns the row-major memory strides. Assumes 3 conserved
    /// quantities.
    pub fn strides(&self) -> (r: [usize; 2])
        requires
            self.wf(),
            3 * self.nj <= usize::MAX,
        ensures
            r[0] as int == 3 * self.nj,
            r[1] as int == 3,
    {
        [self.nj as usize * 3, 3]
    }
}

/// Row-major layout law: with the strides `[3 * nj, 3]` of
/// [`Mesh::strides`], field `k` of zone `(i, j)` lives at flat index
/// `i * (3 * nj) + j * 3 + k`, and for interior zones that index lies
/// inside a buffer of `ni * nj` zones with 3 fields each.
pub proof fn lemma_flat_index<T: Copy>(m: Mesh<T>, i: int, j: int, k: int)
    requires
        m.wf(),
        0 <= i < m.ni,
        0 <= j < m.nj,
        0 <= k < 3,
    ensures
        0 <= i * (3 * m.nj) + j * 3 + k,
        i * (3 * m.nj) + j * 3 + k < 3 * (m.ni * m.nj),
{
    let nj = m.nj as int;
    let ni = m.ni as int;
    assert(0 <= i * (3 * nj) + j * 3 + k && i * (3 * nj) + j * 3 + k < 3 * (ni * nj))
        by (nonlinear_arith)
        requires
            0 <= i < ni,
            0 <= j < nj,
            0 <= k < 3,
    ;
}

} // verus!
