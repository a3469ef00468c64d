use autograph::framegraph::AliasedResource;
use autograph::framegraph::AliasedResourceIndex;
use autograph::framegraph::Error;
use autograph::framegraph::FrameGraph;
use autograph::framegraph::FrameGraphAllocator;
use autograph::framegraph::Lifetime;
use autograph::framegraph::ResourceInfo;
use autograph::framegraph::ResourceUsage;
use autograph::texture::TextureDesc;

fn desc(width: u32, height: u32) -> TextureDesc {
    let mut d = TextureDesc::default();
    d.width = width;
    d.height = height;
    d
}

#[test]
fn empty_graph_finalizes() {
    let fg = FrameGraph::new();
    let mut alloc = FrameGraphAllocator::new();
    assert!(fg.can_finalize(&alloc));
    let ctx = fg.finalize(&mut alloc).ok().unwrap();
    assert!(ctx.pass_order().is_empty());
    assert!(alloc.allocations.is_empty());
}

#[test]
fn passes_run_in_dependency_order() {
    let mut fg = FrameGraph::new();
    let b = fg.create_render_pass("b".to_string());
    let a = fg.create_render_pass("a".to_string());
    let t = fg.create_texture(a, "t".to_string(), &desc(64, 64), ResourceUsage::RenderTarget);
    fg.read(b, t, ResourceUsage::SampledImage);
    let mut alloc = FrameGraphAllocator::new();
    assert!(fg.can_finalize(&alloc));
    let ctx = fg.finalize(&mut alloc).ok().unwrap();
    // pass "a" (number 1) writes what pass "b" (number 0) reads
    assert_eq!(ctx.pass_order(), vec![1, 0]);
}

#[test]
fn lifetime_spans_writing_passes() {
    let mut fg = FrameGraph::new();
    let p0 = fg.create_render_pass("p0".to_string());
    let p1 = fg.create_render_pass("p1".to_string());
    let p2 = fg.create_render_pass("p2".to_string());
    let t = fg.create_texture(p0, "t".to_string(), &desc(8, 8), ResourceUsage::RenderTarget);
    let t1 = fg.write(p1, t, ResourceUsage::RenderTarget);
    fg.read(p2, t1, ResourceUsage::SampledImage);
    let mut alloc = FrameGraphAllocator::new();
    let ctx = fg.finalize(&mut alloc).ok().unwrap();
    assert_eq!(ctx.pass_order(), vec![0, 1, 2]);
    let l = ctx.lifetime(t).unwrap();
    let l1 = ctx.lifetime(t1).unwrap();
    // both versions are the same resource
    assert_eq!(l, l1);
    // the lifetime runs from the creating pass to the last writer; reads do
    // not extend it
    assert!(l.begin < l.end);
    assert_eq!(alloc.allocations.len(), 1);
}

#[test]
fn write_then_read_of_old_version_is_a_hazard() {
    let mut fg = FrameGraph::new();
    let a = fg.create_render_pass("a".to_string());
    let b = fg.create_render_pass("b".to_string());
    let c = fg.create_render_pass("c".to_string());
    let t = fg.create_texture(a, "t".to_string(), &desc(16, 16), ResourceUsage::RenderTarget);
    fg.write(b, t, ResourceUsage::RWImage);
    fg.read(c, t, ResourceUsage::SampledImage);
    let mut alloc = FrameGraphAllocator::new();
    assert!(fg.can_finalize(&alloc));
    match fg.finalize(&mut alloc) {
        Err(e) => {
            assert_eq!(e, Error::ConcurrentWriteHazard);
            assert_eq!(e.description(), "concurrent write hazard detected");
        }
        Ok(_) => panic!("expected a hazard"),
    }
    assert!(alloc.allocations.is_empty());
}

#[test]
fn two_writers_of_one_version_is_a_hazard() {
    let mut fg = FrameGraph::new();
    let a = fg.create_render_pass("a".to_string());
    let b = fg.create_render_pass("b".to_string());
    let c = fg.create_render_pass("c".to_string());
    let t = fg.create_texture(a, "t".to_string(), &desc(16, 16), ResourceUsage::RenderTarget);
    fg.write(b, t, ResourceUsage::RWImage);
    fg.write(c, t, ResourceUsage::RWImage);
    let mut alloc = FrameGraphAllocator::new();
    assert!(fg.finalize(&mut alloc).is_err());
}

#[test]
fn readers_alone_are_no_hazard() {
    let mut fg = FrameGraph::new();
    let a = fg.create_render_pass("a".to_string());
    let b = fg.create_render_pass("b".to_string());
    let c = fg.create_render_pass("c".to_string());
    let t = fg.create_texture(a, "t".to_string(), &desc(16, 16), ResourceUsage::RenderTarget);
    fg.read(b, t, ResourceUsage::SampledImage);
    fg.read(c, t, ResourceUsage::SampledImage);
    let mut alloc = FrameGraphAllocator::new();
    assert!(fg.finalize(&mut alloc).is_ok());
}

#[test]
fn textures_with_disjoint_lifetimes_share_an_allocation() {
    let mut fg = FrameGraph::new();
    let a = fg.create_render_pass("a".to_string());
    let b = fg.create_render_pass("b".to_string());
    let c = fg.create_render_pass("c".to_string());
    let t1 = fg.create_texture(a, "t1".to_string(), &desc(32, 32), ResourceUsage::RenderTarget);
    fg.read(b, t1, ResourceUsage::SampledImage);
    let t2 = fg.create_texture(b, "t2".to_string(), &desc(32, 32), ResourceUsage::RenderTarget);
    fg.read(c, t2, ResourceUsage::SampledImage);
    let t3 = fg.create_texture(c, "t3".to_string(), &desc(32, 32), ResourceUsage::RenderTarget);
    let mut alloc = FrameGraphAllocator::new();
    let ctx = fg.finalize(&mut alloc).ok().unwrap();
    assert_eq!(alloc.allocations.len(), 1);
    assert_eq!(ctx.aliased_index(t1), Some(AliasedResourceIndex(0)));
    assert_eq!(ctx.aliased_index(t2), Some(AliasedResourceIndex(0)));
    assert_eq!(ctx.aliased_index(t3), Some(AliasedResourceIndex(0)));
    assert_eq!(*ctx.aliased_resource(&alloc, t3), AliasedResource::Texture { desc: desc(32, 32) });
}

#[test]
fn textures_with_overlapping_lifetimes_get_their_own() {
    let mut fg = FrameGraph::new();
    let a = fg.create_render_pass("a".to_string());
    let b = fg.create_render_pass("b".to_string());
    let t1 = fg.create_texture(a, "t1".to_string(), &desc(32, 32), ResourceUsage::RenderTarget);
    let t2 = fg.create_texture(a, "t2".to_string(), &desc(32, 32), ResourceUsage::RenderTarget);
    fg.read(b, t1, ResourceUsage::SampledImage);
    fg.read(b, t2, ResourceUsage::SampledImage);
    let mut alloc = FrameGraphAllocator::new();
    let ctx = fg.finalize(&mut alloc).ok().unwrap();
    assert_eq!(alloc.allocations.len(), 2);
    assert_eq!(ctx.aliased_index(t1), Some(AliasedResourceIndex(0)));
    assert_eq!(ctx.aliased_index(t2), Some(AliasedResourceIndex(1)));
    let l1: Lifetime = ctx.lifetime(t1).unwrap();
    let l2: Lifetime = ctx.lifetime(t2).unwrap();
    assert!(l1.overlaps(&l2));
}

#[test]
fn textures_of_other_descriptions_get_their_own() {
    let mut fg = FrameGraph::new();
    let a = fg.create_render_pass("a".to_string());
    let b = fg.create_render_pass("b".to_string());
    let t1 = fg.create_texture(a, "t1".to_string(), &desc(32, 32), ResourceUsage::RenderTarget);
    fg.read(b, t1, ResourceUsage::SampledImage);
    let t2 = fg.create_texture(b, "t2".to_string(), &desc(16, 16), ResourceUsage::RenderTarget);
    let mut alloc = FrameGraphAllocator::new();
    let ctx = fg.finalize(&mut alloc).ok().unwrap();
    assert_eq!(alloc.allocations.len(), 2);
    assert_eq!(ctx.aliased_index(t2), Some(AliasedResourceIndex(1)));
    assert_eq!(alloc.allocations[1], AliasedResource::Texture { desc: desc(16, 16) });
}

#[test]
fn allocations_are_reused_across_frames() {
    let mut alloc = FrameGraphAllocator::new();
    for _frame in 0..2 {
        let mut fg = FrameGraph::new();
        let a = fg.create_render_pass("a".to_string());
        let t = fg.create_texture(a, "t".to_string(), &desc(4, 4), ResourceUsage::RenderTarget);
        let ctx = fg.finalize(&mut alloc).ok().unwrap();
        assert_eq!(ctx.aliased_index(t), Some(AliasedResourceIndex(0)));
    }
    assert_eq!(alloc.allocations.len(), 1);
}

#[test]
fn buffers_get_a_new_allocation() {
    let mut fg = FrameGraph::new();
    let a = fg.create_render_pass("a".to_string());
    let buf = fg.create_buffer(a, "buf".to_string(), 256, ResourceUsage::ShaderStorageBuffer);
    match fg.resource_info(buf) {
        ResourceInfo::Buffer { byte_size } => assert_eq!(*byte_size, 256),
        _ => panic!("expected a buffer"),
    }
    let mut alloc = FrameGraphAllocator::new();
    let ctx = fg.finalize(&mut alloc).ok().unwrap();
    assert_eq!(alloc.allocations, vec![AliasedResource::Buffer { byte_size: 256 }]);
    assert_eq!(ctx.aliased_index(buf), Some(AliasedResourceIndex(0)));
    assert_eq!(*ctx.aliased_resource(&alloc, buf), AliasedResource::Buffer { byte_size: 256 });
}

#[test]
fn cycles_cannot_be_finalized() {
    let mut fg = FrameGraph::new();
    let a = fg.create_render_pass("a".to_string());
    let t = fg.create_texture(a, "t".to_string(), &desc(4, 4), ResourceUsage::RenderTarget);
    fg.read(a, t, ResourceUsage::SampledImage);
    let alloc = FrameGraphAllocator::new();
    assert!(!fg.can_finalize(&alloc));
}

#[test]
fn two_writes_of_one_resource_by_one_pass_cannot_be_finalized() {
    let mut fg = FrameGraph::new();
    let a = fg.create_render_pass("a".to_string());
    let b = fg.create_render_pass("b".to_string());
    let t = fg.create_texture(a, "t".to_string(), &desc(4, 4), ResourceUsage::RenderTarget);
    let v1 = fg.clone_resource(t);
    let v2 = fg.clone_resource(t);
    fg.write(b, v1, ResourceUsage::RWImage);
    fg.write(b, v2, ResourceUsage::RWImage);
    let alloc = FrameGraphAllocator::new();
    assert!(!fg.can_finalize(&alloc));
}

#[test]
fn clone_resource_bumps_the_version() {
    let mut fg = FrameGraph::new();
    let a = fg.create_render_pass("a".to_string());
    let t = fg.create_texture(a, "t".to_string(), &desc(4, 4), ResourceUsage::RenderTarget);
    let before = fg.node_count();
    let t1 = fg.clone_resource(t);
    assert_eq!(t1.0 as usize, before);
    assert_eq!(fg.node_count(), before + 1);
    match fg.resource_info(t1) {
        ResourceInfo::Texture { desc: d } => assert_eq!(*d, desc(4, 4)),
        _ => panic!("expected a texture"),
    }
}

#[test]
fn textures_never_share_a_buffer_allocation() {
    let mut fg = FrameGraph::new();
    let a = fg.create_render_pass("a".to_string());
    let b = fg.create_render_pass("b".to_string());
    let buf = fg.create_buffer(a, "buf".to_string(), 64, ResourceUsage::UniformBuffer);
    fg.read(b, buf, ResourceUsage::UniformBuffer);
    let t = fg.create_texture(b, "t".to_string(), &desc(8, 8), ResourceUsage::RenderTarget);
    let mut alloc = FrameGraphAllocator::new();
    let ctx = fg.finalize(&mut alloc).ok().unwrap();
    assert_eq!(ctx.aliased_index(buf), Some(AliasedResourceIndex(0)));
    assert_eq!(ctx.aliased_index(t), Some(AliasedResourceIndex(1)));
    assert_eq!(alloc.allocations.len(), 2);
}

#[test]
fn test_empty() {
    let fg = FrameGraph::new();
    assert_eq!(fg.node_count(), 0);
}

#[test]
fn test_simple() {
    let fg = FrameGraph::new();
    assert_eq!(fg.node_count(), 0);
}

#[test]
fn test_borrows() {
    let fg = FrameGraph::new();
    assert_eq!(fg.node_count(), 0);
}
