//! The fixed state of the graphics pipeline and of its render pass: the
//! vertex input layout, which must match the vertex record byte for byte,
//! and the single color attachment.

use vstd::prelude::*;

use gfx_hal::format::Format;
use gfx_hal::image::Layout;
use gfx_hal::pass::{Attachment, AttachmentLoadOp, AttachmentOps, AttachmentStoreOp};
use gfx_hal::pso::{AttributeDesc, Element, VertexBufferDesc, VertexInputRate};

verus! {

/// Bytes of one 32-bit float component.
pub const COMPONENT_BYTES: u32 = 4;

/// Float components of a vertex position.
pub const POSITION_COMPONENTS: u32 = 2;

/// Float components of a vertex color.
pub const COLOR_COMPONENTS: u32 = 3;

/// Byte offset of the position within a vertex record.
pub const POSITION_OFFSET: u32 = 0;

/// Byte offset of the color within a vertex record: right after the position.
pub const COLOR_OFFSET: u32 = 8;

/// Bytes of one vertex record: position then color, unpadded.
pub const VERTEX_STRIDE: u32 = 20;

/// Shader location of the position attribute.
pub const POSITION_LOCATION: u32 = 0;

/// Shader location of the color attribute.
pub const COLOR_LOCATION: u32 = 1;

/// The subpass of the render pass the pipeline draws in.
pub const SUBPASS_INDEX: u8 = 0;

/// The vertex input of the pipeline: one buffer at binding 0, stepped per
/// vertex, and two attributes, position and color.
pub struct Pipeline {
    pub vertex_buffers: Vec<VertexBufferDesc>,
    pub attributes: Vec<AttributeDesc>,
}

/// The layout that a vertex record of two position floats followed by three
/// color floats has.
pub open spec fn record_layout() -> bool {
    &&& POSITION_OFFSET == 0
    &&& COLOR_OFFSET == POSITION_OFFSET + POSITION_COMPONENTS * COMPONENT_BYTES
    &&& VERTEX_STRIDE == COLOR_OFFSET + COLOR_COMPONENTS * COMPONENT_BYTES
}

pub open spec fn vertex_buffer_spec() -> VertexBufferDesc {
    VertexBufferDesc { binding: 0, stride: VERTEX_STRIDE, rate: VertexInputRate::Vertex }
}

pub open spec fn attributes_spec() -> Seq<AttributeDesc> {
    seq![
        AttributeDesc {
            location: POSITION_LOCATION,
            binding: 0,
            element: Element { format: Format::Rg32Sfloat, offset: POSITION_OFFSET },
        },
        AttributeDesc {
            location: COLOR_LOCATION,
            binding: 0,
            element: Element { format: Format::Rgb32Sfloat, offset: COLOR_OFFSET },
        },
    ]
}

impl Pipeline {
    /// The vertex input for the vertex record: stride of the whole record,
    /// two floats at offset 0, three floats at offset 8.
    pub fn new() -> (r: Pipeline)
        ensures
            r.vertex_buffers@ == seq![vertex_buffer_spec()],
            r.attributes@ == attributes_spec(),
    {
        let vertex_buffers = vec![
            VertexBufferDesc { binding: 0, stride: VERTEX_STRIDE, rate: VertexInputRate::Vertex },
        ];
        let attributes = vec![
            AttributeDesc {
                location: POSITION_LOCATION,
                binding: 0,
                element: Element { format: Format::Rg32Sfloat, offset: POSITION_OFFSET },
            },
            AttributeDesc {
                location: COLOR_LOCATION,
                binding: 0,
                element: Element { format: Format::Rgb32Sfloat, offset: COLOR_OFFSET },
            },
        ];
        proof {
            assert(vertex_buffers@ =~= seq![vertex_buffer_spec()]);
            assert(attributes@ =~= attributes_spec());
        }
        Pipeline { vertex_buffers, attributes }
    }
}

/// The attributes tile the vertex record: position from 0, color right after
/// it, the record ending where the color ends.
pub proof fn lemma_vertex_layout_matches_record()
    ensures
        record_layout(),
        attributes_spec()[0].element.offset == POSITION_OFFSET,
        attributes_spec()[1].element.offset == COLOR_OFFSET,
        vertex_buffer_spec().stride == VERTEX_STRIDE,
{
}

pub open spec fn color_attachment_spec(format: Format) -> Attachment {
    Attachment {
        format: Some(format),
        samples: 1,
        ops: AttachmentOps { load: AttachmentLoadOp::Clear, store: AttachmentStoreOp::Store },
        stencil_ops: AttachmentOps { load: AttachmentLoadOp::DontCare, store: AttachmentStoreOp::DontCare },
        layouts: core::ops::Range { start: Layout::Undefined, end: Layout::Present },
    }
}

/// The render pass's one color attachment, in the swapchain's format:
/// cleared on load, stored, moved from `Undefined` to `Present`.
pub fn color_attachment(format: Format) -> (r: Attachment)
    ensures
        r == color_attachment_spec(format),
{
    Attachment {
        format: Some(format),
        samples: 1,
        ops: AttachmentOps { load: AttachmentLoadOp::Clear, store: AttachmentStoreOp::Store },
        stencil_ops: AttachmentOps { load: AttachmentLoadOp::DontCare, store: AttachmentStoreOp::DontCare },
        layouts: core::ops::Range { start: Layout::Undefined, end: Layout::Present },
    }
}

} // verus!
