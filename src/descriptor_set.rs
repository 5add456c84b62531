//! The descriptor set layout and pool: one uniform buffer for the vertex
//! stage, and a pool that holds exactly what one such set needs.

use vstd::prelude::*;

use gfx_hal::pso::{BufferDescriptorFormat, BufferDescriptorType, DescriptorRangeDesc, DescriptorType};

verus! {

/// The descriptor type of the uniform buffer.
pub open spec fn uniform_type() -> DescriptorType {
    DescriptorType::Buffer {
        ty: BufferDescriptorType::Uniform,
        format: BufferDescriptorFormat::Structured { dynamic_offset: false },
    }
}

/// One binding of a set layout.
#[derive(Clone, Copy, Debug)]
pub struct LayoutBinding {
    pub binding: u32,
    pub ty: DescriptorType,
    pub count: usize,
    /// Visible to the vertex stage only.
    pub vertex_stage: bool,
}

/// A set layout with its pool, and the number of sets allocated from it.
pub struct DescriptorSet {
    pub bindings: Vec<LayoutBinding>,
    pub pool_ranges: Vec<DescriptorRangeDesc>,
    pub max_sets: usize,
    pub allocated: usize,
}

impl DescriptorSet {
    /// The pool holds, for each binding, exactly its descriptors, for
    /// `max_sets` sets, and no more sets are allocated than it holds.
    pub open spec fn wf(&self) -> bool {
        &&& self.bindings@.len() == self.pool_ranges@.len()
        &&& forall|i: int| 0 <= i < self.bindings@.len() ==> {
            &&& (#[trigger] self.pool_ranges@[i]).ty == self.bindings@[i].ty
            &&& self.pool_ranges@[i].count == self.bindings@[i].count * self.max_sets
        }
        &&& self.allocated <= self.max_sets
    }

    /// One binding, 0, holding one uniform buffer for the vertex stage; a
    /// pool for one such set; the one set allocated.
    pub fn new() -> (r: DescriptorSet)
        ensures
            r.wf(),
            r.bindings@.len() == 1,
            r.bindings@[0].binding == 0,
            r.bindings@[0].ty == uniform_type(),
            r.bindings@[0].count == 1,
            r.bindings@[0].vertex_stage,
            r.pool_ranges@ == seq![DescriptorRangeDesc { ty: uniform_type(), count: 1 }],
            r.max_sets == 1,
            r.allocated == 1,
    {
        let ty = DescriptorType::Buffer {
            ty: BufferDescriptorType::Uniform,
            format: BufferDescriptorFormat::Structured { dynamic_offset: false },
        };
        let bindings = vec![LayoutBinding { binding: 0, ty, count: 1, vertex_stage: true }];
        let pool_ranges = vec![DescriptorRangeDesc { ty, count: 1 }];
        proof {
            assert(bindings@ =~= seq![LayoutBinding { binding: 0, ty, count: 1, vertex_stage: true }]);
            assert(pool_ranges@ =~= seq![DescriptorRangeDesc { ty: uniform_type(), count: 1 }]);
        }
        let r = DescriptorSet { bindings, pool_ranges, max_sets: 1, allocated: 1 };
        assert(r.bindings@[0].count == 1);
        assert(r.bindings@[0].count * r.max_sets == 1);
        r
    }
}

} // verus!
