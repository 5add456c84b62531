//! The gfx-hal value types that the renderer logic reads, and the one pure
//! gfx-hal query it relies on.

use vstd::prelude::*;

verus! {

/// Declares gfx_hal::format::Format, a field-less enum of texel formats.
#[verifier::external_type_specification]
pub struct ExFormat(gfx_hal::format::Format);

/// Declares gfx_hal::window::Extent2D: width and height in pixels.
#[verifier::external_type_specification]
pub struct ExExtent2D(gfx_hal::window::Extent2D);

/// Declares gfx_hal::pso::Rect: an origin and a size, in signed 16-bit pixels.
#[verifier::external_type_specification]
pub struct ExRect(gfx_hal::pso::Rect);

/// Declares gfx_hal::image::Layout, a field-less enum of image layouts.
#[verifier::external_type_specification]
pub struct ExLayout(gfx_hal::image::Layout);

/// Declares gfx_hal::pass::AttachmentLoadOp: what happens to an attachment at load.
#[verifier::external_type_specification]
pub struct ExAttachmentLoadOp(gfx_hal::pass::AttachmentLoadOp);

/// Declares gfx_hal::pass::AttachmentStoreOp: what happens to an attachment at store.
#[verifier::external_type_specification]
pub struct ExAttachmentStoreOp(gfx_hal::pass::AttachmentStoreOp);

/// Declares gfx_hal::pass::AttachmentOps: a load and a store operation.
#[verifier::external_type_specification]
pub struct ExAttachmentOps(gfx_hal::pass::AttachmentOps);

/// Declares gfx_hal::pass::Attachment: format, samples, operations and layouts of a render-pass attachment.
#[verifier::external_type_specification]
pub struct ExAttachment(gfx_hal::pass::Attachment);

/// Declares gfx_hal::pso::VertexInputRate: per-vertex or per-instance stepping.
#[verifier::external_type_specification]
pub struct ExVertexInputRate(gfx_hal::pso::VertexInputRate);

/// Declares gfx_hal::pso::VertexBufferDesc: binding, stride and rate of a vertex buffer.
#[verifier::external_type_specification]
pub struct ExVertexBufferDesc(gfx_hal::pso::VertexBufferDesc);

#[verifier::external_type_specification]
#[verifier::reject_recursive_types(F)]
pub struct ExElement<F>(gfx_hal::pso::Element<F>);

/// Declares gfx_hal::pso::AttributeDesc: location, binding and element of a vertex attribute.
#[verifier::external_type_specification]
pub struct ExAttributeDesc(gfx_hal::pso::AttributeDesc);

/// Declares gfx_hal::pso::ImageDescriptorType, a variant payload of DescriptorType.
#[verifier::external_type_specification]
pub struct ExImageDescriptorType(gfx_hal::pso::ImageDescriptorType);

/// Declares gfx_hal::pso::BufferDescriptorType: storage or uniform.
#[verifier::external_type_specification]
pub struct ExBufferDescriptorType(gfx_hal::pso::BufferDescriptorType);

/// Declares gfx_hal::pso::BufferDescriptorFormat: structured or texel.
#[verifier::external_type_specification]
pub struct ExBufferDescriptorFormat(gfx_hal::pso::BufferDescriptorFormat);

/// Declares gfx_hal::pso::DescriptorType: the kind of resource a descriptor refers to.
#[verifier::external_type_specification]
pub struct ExDescriptorType(gfx_hal::pso::DescriptorType);

/// Declares gfx_hal::pso::DescriptorRangeDesc: a descriptor type and a count, for a pool.
#[verifier::external_type_specification]
pub struct ExDescriptorRangeDesc(gfx_hal::pso::DescriptorRangeDesc);

/// Whether the channel type of a format's base format is sRGB.
pub uninterp spec fn srgb_channel(f: gfx_hal::format::Format) -> bool;

/// Relies on gfx_hal::format::Format::base_format, whose second component is
/// the channel type; the answer depends on the format alone. `base_format`
/// asserts that the format is not the hidden `__NumFormats` sentinel.
#[verifier::external_body]
pub(crate) fn channel_is_srgb(f: gfx_hal::format::Format) -> (r: bool)
    requires
        !(f is __NumFormats),
    ensures
        r == srgb_channel(f),
{
    matches!(f.base_format().1, gfx_hal::format::ChannelType::Srgb)
}

} // verus!
