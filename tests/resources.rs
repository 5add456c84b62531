use gfx_hal::format::Format;
use gfx_hal::image::Layout;
use gfx_hal::memory::Requirements;
use gfx_hal::pass::{AttachmentLoadOp, AttachmentStoreOp};
use gfx_hal::pso::{DescriptorType, Rect};
use gfx_hal::window::Extent2D;
use gfx_triangle::buffer::{Buffer, BufferUsage};
use gfx_triangle::descriptor_set::DescriptorSet;
use gfx_triangle::memory::{upload_type, Memory, MemoryError, COHERENT, CPU_VISIBLE};
use gfx_triangle::pipeline::{color_attachment, Pipeline, COLOR_OFFSET, VERTEX_STRIDE};
use gfx_triangle::swapchain::{select_format, Swapchain};
use gfx_triangle::teardown::{teardown_plan, Release};

const HOST: u16 = CPU_VISIBLE | COHERENT;
const DEVICE_LOCAL: u16 = 0x1;

fn req(size: u64, type_mask: u64) -> Requirements {
    Requirements { size, alignment: 4, type_mask }
}

#[test]
fn buffer_rounds_to_atom() {
    let b = Buffer::new(3, 20, BufferUsage::Vertex, 64);
    assert_eq!(b.len, 60);
    assert_eq!(b.size, 64);
    let b = Buffer::new(2, 4, BufferUsage::Uniform, 256);
    assert_eq!(b.len, 8);
    assert_eq!(b.size, 256);
    let b = Buffer::new(4, 16, BufferUsage::Uniform, 64);
    assert_eq!(b.size, 64);
    let b = Buffer::new(5, 1, BufferUsage::Uniform, 1);
    assert_eq!(b.size, 5);
}

#[test]
fn upload_type_first_match_wins() {
    let types = vec![DEVICE_LOCAL, HOST, HOST | DEVICE_LOCAL];
    assert_eq!(upload_type(&types, 0b111), Some(1));
    assert_eq!(upload_type(&types, 0b101), Some(2));
    assert_eq!(upload_type(&types, 0b001), None);
    assert_eq!(upload_type(&vec![CPU_VISIBLE, HOST], 0b11), Some(1));
    assert_eq!(upload_type(&vec![], u64::MAX), None);
}

#[test]
fn memory_size_covers_requirement() {
    let b = Buffer::new(3, 20, BufferUsage::Vertex, 64);
    let m = Memory::new(b, &req(64, 0b10), &vec![DEVICE_LOCAL, HOST]).unwrap();
    assert_eq!(m.type_id, 1);
    assert!(m.size >= m.required);
    assert_eq!(m.size, 64);
    let up = m.initial_upload();
    assert_eq!((up.offset, up.len), (0, 60));
}

#[test]
fn memory_errors() {
    let b = Buffer::new(3, 20, BufferUsage::Vertex, 64);
    assert_eq!(
        Memory::new(b, &req(64, 0b01), &vec![DEVICE_LOCAL, HOST]).err(),
        Some(MemoryError::NoUploadType)
    );
    let b = Buffer::new(3, 20, BufferUsage::Vertex, 64);
    assert_eq!(
        Memory::new(b, &req(32, 0b10), &vec![DEVICE_LOCAL, HOST]).err(),
        Some(MemoryError::RequirementTooSmall)
    );
}

#[test]
fn partial_update_bounds() {
    let b = Buffer::new(2, 4, BufferUsage::Uniform, 4);
    let m = Memory::new(b, &req(16, 1), &vec![HOST]).unwrap();
    let up = m.update_data(0).unwrap();
    assert_eq!((up.offset, up.len), (0, 8));
    let up = m.update_data(8).unwrap();
    assert_eq!((up.offset, up.len), (8, 8));
    assert_eq!(m.update_data(9), Err(MemoryError::OutOfBounds));
    assert_eq!(m.update_data(16), Err(MemoryError::OutOfBounds));
    assert_eq!(m.update_data(u64::MAX), Err(MemoryError::OutOfBounds));
}

#[test]
fn format_prefers_srgb() {
    let formats = Some(vec![Format::Bgra8Unorm, Format::Rgba8Unorm, Format::Bgra8Srgb, Format::Rgba8Srgb]);
    assert_eq!(select_format(&formats), Format::Bgra8Srgb);
}

#[test]
fn format_first_when_no_srgb() {
    let formats = Some(vec![Format::Bgra8Unorm, Format::Rgba8Unorm]);
    assert_eq!(select_format(&formats), Format::Bgra8Unorm);
}

#[test]
fn format_default_when_unspecified() {
    assert_eq!(select_format(&None), Format::Rgba8Srgb);
    assert_eq!(select_format(&Some(vec![])), Format::Rgba8Srgb);
}

#[test]
fn recreate_twice_same_viewport() {
    let dims = Extent2D { width: 1024, height: 768 };
    let mut s = Swapchain::new(&None, dims, dims);
    assert_eq!(s.viewport, Rect { x: 0, y: 0, w: 1024, h: 768 });
    let e = Extent2D { width: 800, height: 600 };
    s.recreate(e);
    let first = s.viewport;
    s.recreate(e);
    assert_eq!(s.viewport, first);
    assert_eq!(first, Rect { x: 0, y: 0, w: 800, h: 600 });
    assert_eq!(s.dims, dims);
    assert_eq!(s.format, Format::Rgba8Srgb);
}

#[test]
fn vertex_layout_matches_record() {
    let p = Pipeline::new();
    assert_eq!(VERTEX_STRIDE, 20);
    assert_eq!(p.vertex_buffers.len(), 1);
    assert_eq!(p.vertex_buffers[0].stride, 20);
    assert_eq!(p.attributes.len(), 2);
    assert_eq!(p.attributes[0].element.offset, 0);
    assert_eq!(p.attributes[0].element.format, Format::Rg32Sfloat);
    assert_eq!(p.attributes[1].element.offset, COLOR_OFFSET);
    assert_eq!(p.attributes[1].element.offset, 8);
    assert_eq!(p.attributes[1].element.format, Format::Rgb32Sfloat);
}

#[test]
fn render_pass_attachment() {
    let a = color_attachment(Format::Bgra8Srgb);
    assert_eq!(a.format, Some(Format::Bgra8Srgb));
    assert_eq!(a.ops.load, AttachmentLoadOp::Clear);
    assert_eq!(a.ops.store, AttachmentStoreOp::Store);
    assert_eq!(a.layouts, Layout::Undefined..Layout::Present);
}

#[test]
fn descriptor_pool_matches_layout() {
    let d = DescriptorSet::new();
    assert_eq!(d.bindings.len(), 1);
    assert_eq!(d.pool_ranges.len(), 1);
    assert_eq!(d.pool_ranges[0].count, d.bindings[0].count);
    assert_eq!(d.bindings[0].binding, 0);
    assert!(matches!(d.bindings[0].ty, DescriptorType::Buffer { .. }));
    assert_eq!(d.max_sets, 1);
}

#[test]
fn teardown_order_two_slots() {
    let plan = teardown_plan(2);
    assert_eq!(plan.len(), 13 + 6);
    assert_eq!(plan[0], Release::WaitIdle);
    assert_eq!(plan[3], Release::FreeMemory(BufferUsage::Vertex));
    assert_eq!(plan[4], Release::DestroyBuffer(BufferUsage::Vertex));
    assert_eq!(
        plan[7..15].to_vec(),
        vec![
            Release::DestroySemaphore(0),
            Release::DestroySemaphore(1),
            Release::WaitFence(0),
            Release::DestroyFence(0),
            Release::WaitFence(1),
            Release::DestroyFence(1),
            Release::FreeCommandBuffers,
            Release::DestroyCommandPool,
        ]
    );
    assert_eq!(plan[18], Release::DestroyPipelineLayout);
}
