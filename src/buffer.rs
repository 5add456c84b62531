//! Sizing of a GPU buffer built from an array of elements.

use vstd::prelude::*;

verus! {

/// What a buffer is bound as.
#[derive(Clone, Copy, Debug, PartialEq, Eq, Structural)]
pub enum BufferUsage {
    Vertex,
    Uniform,
}

/// `len` rounded up to a multiple of `atom`.
pub open spec fn aligned_size(len: int, atom: int) -> int
    recommends
        atom > 0,
{
    ((len + atom - 1) / atom) * atom
}

/// A buffer's layout: the byte length of its contents and the size it is
/// created with.
pub struct Buffer {
    /// Number of elements of the contents.
    pub count: u64,
    /// Bytes per element.
    pub stride: u64,
    /// Bytes of contents: `count * stride`.
    pub len: u64,
    /// Bytes requested from the device: `len` rounded up to the
    /// non-coherent atom size.
    pub size: u64,
    pub usage: BufferUsage,
}

impl Buffer {
    pub open spec fn wf(&self) -> bool {
        &&& self.len == self.count * self.stride
        &&& self.len > 0
        &&& self.len <= self.size
    }

    /// Lays out a buffer for `count` elements of `stride` bytes, with its size
    /// rounded up to a multiple of `non_coherent_atom_size`.
    pub fn new(count: u64, stride: u64, usage: BufferUsage, non_coherent_atom_size: u64) -> (r: Buffer)
        requires
            count > 0,
            stride > 0,
            non_coherent_atom_size > 0,
            count * stride + non_coherent_atom_size <= u64::MAX,
        ensures
            r.wf(),
            r.count == count,
            r.stride == stride,
            r.len == count * stride,
            r.size == aligned_size(count * stride, non_coherent_atom_size as int),
            r.usage == usage,
    {
        proof {
            assert(count * stride >= count) by (nonlinear_arith)
                requires
                    stride > 0,
            ;
        }
        let len = count * stride;
        let atom = non_coherent_atom_size;
        let q = (len + atom - 1) / atom;
        proof {
            let a = atom as int;
            let n = (len + atom - 1) as int;
            let qi = q as int;
            assert(n == a * (n / a) + n % a && 0 <= n % a < a) by (nonlinear_arith)
                requires
                    a > 0,
            ;
            assert(qi * a <= n && qi * a >= len) by (nonlinear_arith)
                requires
                    n == a * (n / a) + n % a,
                    0 <= n % a < a,
                    qi == n / a,
                    n == len + a - 1,
            ;
        }
        let size = q * atom;
        Buffer { count, stride, len, size, usage }
    }
}

} // verus!
