//! Halo-capable rectangular array container with a fixed per-zone field
//! count, stored as a flat row-major buffer.

use vstd::prelude::*;

verus! {

/// A rectangular array over an index range with an explicit origin (which
/// may be negative, encoding a halo region), a shape in zones, and a fixed
/// number of fields per zone. The storage is a flat row-major buffer of
/// length `shape[0] * shape[1] * num_fields`. A patch has no behavior
/// beyond storage and flat materialization: the numerical kernels operate
/// on the entire buffer through the public `data` field.
#[derive(Debug, Clone)]
pub struct Patch<T> {
    /// Index of the lower-left zone; negative entries encode halo zones.
    pub origin: [i32; 2],
    /// Number of zones covered on each axis, halo included.
    pub shape: [u32; 2],
    /// Number of field values stored per zone.
    pub num_fields: u32,
    /// Flat row-major storage of length `shape[0] * shape[1] * num_fields`.
    pub data: Vec<T>,
}

impl<T> View for Patch<T> {
    type V = Seq<T>;

    open spec fn view(&self) -> Seq<T> {
        self.data@
    }
}

impl<T: Copy> Patch<T> {
    /// A patch is well formed when its buffer length matches its shape and
    /// field count.
    pub open spec fn wf(self) -> bool {
        self.data@.len() == self.shape[0] * self.shape[1] * self.num_fields
    }

    /// Builds a patch holding a copy of the given flat row-major buffer.
    /// The buffer length must match the shape and field count exactly.
    pub fn from_vec(origin: [i32; 2], shape: [u32; 2], num_fields: u32, data: &Vec<T>) -> (p: Patch<T>)
        requires
            data@.len() == shape[0] * shape[1] * num_fields,
        ensures
            p.wf(),
            p.origin == origin,
            p.shape == shape,
            p.num_fields == num_fields,
            p@ == data@,
    {
        let mut buffer: Vec<T> = Vec::new();
        let mut i: usize = 0;
        while i < data.len()
            invariant
                i <= data@.len(),
                buffer@ == data@.subrange(0, i as int),
            decreases data@.len() - i,
        {
            buffer.push(data[i]);
            assert(buffer@ == data@.subrange(0, i + 1 as int));
            i = i + 1;
        }
        assert(buffer@ == data@);
        Patch { origin, shape, num_fields, data: buffer }
    }

    /// Allocates a patch whose buffer is filled with the given zero
    /// element of the scalar type.
    pub fn zeros(origin: [i32; 2], shape: [u32; 2], num_fields: u32, zero: T) -> (p: Patch<T>)
        requires
            shape[0] * shape[1] <= usize::MAX,
            shape[0] * shape[1] * num_fields <= usize::MAX,
        ensures
            p.wf(),
            p.origin == origin,
            p.shape == shape,
            p.num_fields == num_fields,
            p@.len() == shape[0] * shape[1] * num_fields,
            forall|k: int| 0 <= k < p@.len() ==> p@[k] == zero,
    {
        let zones: usize = (shape[0] as usize) * (shape[1] as usize);
        let total: usize = zones * (num_fields as usize);
        let mut buffer: Vec<T> = Vec::new();
        let mut i: usize = 0;
        while i < total
            invariant
                i <= total,
                buffer@.len() == i,
                forall|k: int| 0 <= k < i ==> buffer@[k] == zero,
            decreases total - i,
        {
            buffer.push(zero);
            i = i + 1;
        }
        Patch { origin, shape, num_fields, data: buffer }
    }

    /// Returns a full copy of the buffer in the same row-major layout.
    pub fn to_vec(&self) -> (v: Vec<T>)
        ensures
            v@ == self@,
    {
        let mut buffer: Vec<T> = Vec::new();
        let mut i: usize = 0;
        while i < self.data.len()
            invariant
                i <= self.data@.len(),
                buffer@ == self.data@.subrange(0, i as int),
            decreases self.data@.len() - i,
        {
            buffer.push(self.data[i]);
            assert(buffer@ == self.data@.subrange(0, i + 1 as int));
            i = i + 1;
        }
        assert(buffer@ == self.data@);
        buffer
    }
}

} // verus!
