//! The interior restriction of a halo buffer: the row-major flat view of
//! the physical zones alone, in the layout of [`crate::mesh::Mesh::strides`].

use vstd::arithmetic::div_mod::lemma_fundamental_div_mod_converse;
use vstd::prelude::*;

use crate::kernel::halo_patch_of;
use crate::mesh::Mesh;
use crate::patch::Patch;

verus! {

/// The flat index, inside a halo buffer of depth 2 for `mesh`, of the
/// value that interior flat index `idx` names: field `k` of interior zone
/// `(i, j)` sits at halo zone `(i + 2, j + 2)`.
pub open spec fn halo_source<T: Copy>(mesh: Mesh<T>, idx: int) -> int {
    let row = 3 * mesh.nj;
    let i = idx / row;
    let j = (idx % row) / 3;
    let k = (idx % row) % 3;
    (i + 2) * (3 * (mesh.nj + 4)) + 3 * (j + 2) + k
}

/// The interior restriction of a halo buffer: the `3 * ni * nj` field
/// values of the interior zones, in row-major order.
pub open spec fn interior_extract<T: Copy>(mesh: Mesh<T>, primitive: Seq<T>) -> Seq<T> {
    Seq::new((3 * mesh.ni * mesh.nj) as nat, |idx: int| primitive[halo_source(mesh, idx)])
}

/// Bounds and ring identities for the two flat indices that copying field
/// `k` of interior zone `(i, j)` out of a halo buffer uses.
proof fn lemma_copy_indices(ni: int, nj: int, i: int, j: int, k: int)
    requires
        0 <= i < ni,
        0 <= j < nj,
        0 <= k < 3,
    ensures
        0 <= i * nj,
        i * nj + j < ni * nj,
        (i * nj + j) * 3 + k < 3 * (ni * nj),
        (i * nj + j) * 3 + k == i * (3 * nj) + 3 * j + k,
        0 < (i + 2) * (nj + 4),
        nj + 4 <= (ni + 4) * (nj + 4),
        (i + 2) * (nj + 4) + (j + 2) < (ni + 4) * (nj + 4),
        ((i + 2) * (nj + 4) + (j + 2)) * 3 + k < 3 * ((ni + 4) * (nj + 4)),
        ((i + 2) * (nj + 4) + (j + 2)) * 3 + k == (i + 2) * (3 * (nj + 4)) + 3 * (j + 2) + k,
        (ni + 4) * (nj + 4) <= 3 * ((ni + 4) * (nj + 4)),
        ni * nj <= 3 * (ni * nj),
        3 * (ni * nj) == 3 * ni * nj,
{
    assert(0 <= i * nj && i * nj + j < ni * nj && (i * nj + j) * 3 + k < 3 * (ni * nj)
        && (i * nj + j) * 3 + k == i * (3 * nj) + 3 * j + k && ni * nj <= 3 * (ni * nj)
        && 3 * (ni * nj) == 3 * ni * nj)
        by (nonlinear_arith)
        requires
            0 <= i < ni,
            0 <= j < nj,
            0 <= k < 3,
    ;
    assert(0 < (i + 2) * (nj + 4) && nj + 4 <= (ni + 4) * (nj + 4)
        && (i + 2) * (nj + 4) + (j + 2) < (ni + 4) * (nj + 4)
        && ((i + 2) * (nj + 4) + (j + 2)) * 3 + k < 3 * ((ni + 4) * (nj + 4))
        && ((i + 2) * (nj + 4) + (j + 2)) * 3 + k == (i + 2) * (3 * (nj + 4)) + 3 * (j + 2) + k
        && (ni + 4) * (nj + 4) <= 3 * ((ni + 4) * (nj + 4)))
        by (nonlinear_arith)
        requires
            0 <= i < ni,
            0 <= j < nj,
            0 <= k < 3,
    ;
}

/// Inverting the row-major interior index: `halo_source` of
/// `i * (3 * nj) + 3 * j + k` names field `k` of halo zone
/// `(i + 2, j + 2)`.
proof fn lemma_halo_source_at<T: Copy>(mesh: Mesh<T>, i: int, j: int, k: int)
    requires
        0 <= i < mesh.ni,
        0 <= j < mesh.nj,
        0 <= k < 3,
    ensures
        halo_source(mesh, i * (3 * mesh.nj) + 3 * j + k)
            == (i + 2) * (3 * (mesh.nj + 4)) + 3 * (j + 2) + k,
{
    let nj = mesh.nj as int;
    let row = 3 * nj;
    let dst = i * row + 3 * j + k;
    assert(3 * j + k < row);
    lemma_fundamental_div_mod_converse(dst, row, i, 3 * j + k);
    lemma_fundamental_div_mod_converse(3 * j + k, 3, j, k);
}

/// Copies the interior field values out of a halo buffer, in row-major
/// order: the flat array of length `ni * nj * 3` whose layout
/// `Mesh::strides` describes.
pub fn extract_interior<T: Copy>(mesh: &Mesh<T>, primitive: &Patch<T>) -> (v: Vec<T>)
    requires
        mesh.wf(),
        halo_patch_of(*primitive, *mesh),
    ensures
        v@ == interior_extract(*mesh, primitive@),
{
    let ni: usize = mesh.ni() as usize;
    let nj: usize = mesh.nj() as usize;
    // Brings the buffer length's usize bound into scope for the index
    // arithmetic below.
    let _plen: usize = primitive.data.len();
    let mut v: Vec<T> = Vec::new();
    let mut i: usize = 0;
    while i < ni
        invariant
            mesh.wf(),
            ni == mesh.ni as int,
            nj == mesh.nj as int,
            halo_patch_of(*primitive, *mesh),
            primitive.data@.len() == 3 * ((mesh.ni + 4) * (mesh.nj + 4)),
            primitive.data@.len() <= usize::MAX,
            i <= ni,
            v@.len() == i as int * (3 * mesh.nj),
            forall|d: int|
                0 <= d < v@.len() ==> v@[d] == interior_extract(*mesh, primitive@)[d],
        decreases ni - i,
    {
        let mut j: usize = 0;
        while j < nj
            invariant
                mesh.wf(),
                ni == mesh.ni as int,
                nj == mesh.nj as int,
                halo_patch_of(*primitive, *mesh),
                primitive.data@.len() == 3 * ((mesh.ni + 4) * (mesh.nj + 4)),
                primitive.data@.len() <= usize::MAX,
                i < ni,
                j <= nj,
                v@.len() == i as int * (3 * mesh.nj) + 3 * j as int,
                forall|d: int|
                    0 <= d < v@.len() ==> v@[d] == interior_extract(*mesh, primitive@)[d],
            decreases nj - j,
        {
            let mut k: usize = 0;
            while k < 3
                invariant
                    mesh.wf(),
                    ni == mesh.ni as int,
                    nj == mesh.nj as int,
                    halo_patch_of(*primitive, *mesh),
                    primitive.data@.len() == 3 * ((mesh.ni + 4) * (mesh.nj + 4)),
                    primitive.data@.len() <= usize::MAX,
                    i < ni,
                    j < nj,
                    k <= 3,
                    v@.len() == i as int * (3 * mesh.nj) + 3 * j as int + k as int,
                    forall|d: int|
                        0 <= d < v@.len() ==> v@[d] == interior_extract(*mesh, primitive@)[d],
                decreases 3 - k,
            {
                proof {
                    lemma_copy_indices(
                        mesh.ni as int,
                        mesh.nj as int,
                        i as int,
                        j as int,
                        k as int,
                    );
                    lemma_halo_source_at(*mesh, i as int, j as int, k as int);
                }
                let src: usize = ((i + 2) * (nj + 4) + (j + 2)) * 3 + k;
                let value: T = primitive.data[src];
                v.push(value);
                proof {
                    assert(v@[v@.len() - 1]
                        == interior_extract(*mesh, primitive@)[v@.len() - 1]);
                }
                k = k + 1;
            }
            j = j + 1;
        }
        proof {
            assert((i + 1) as int * (3 * mesh.nj)
                == i as int * (3 * mesh.nj) + 3 * mesh.nj) by (nonlinear_arith);
        }
        i = i + 1;
    }
    proof {
        assert(ni as int * (3 * mesh.nj) == 3 * mesh.ni * mesh.nj) by (nonlinear_arith)
            requires ni == mesh.ni as int;
        assert(v@ =~= interior_extract(*mesh, primitive@));
    }
    v
}

} // verus!
