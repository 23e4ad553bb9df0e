//! The order in which GPU objects are destroyed at shutdown.

use vstd::prelude::*;

verus! {

/// The kinds of objects the renderer creates, swapchain images aside: those
/// belong to the presentation engine and are never destroyed by the host.
#[derive(Clone, Copy, Debug, PartialEq, Eq, Structural)]
pub enum ResourceKind {
    Semaphore,
    Fence,
    /// With it go the command buffers allocated from it.
    CommandPool,
    Framebuffer,
    Pipeline,
    PipelineLayout,
    RenderPass,
    /// With it go the descriptor sets allocated from it.
    DescriptorPool,
    DescriptorSetLayout,
    Sampler,
    ImageView,
    Image,
    Buffer,
    /// Device memory and allocations.
    Memory,
    Swapchain,
    Allocator,
    Device,
    Surface,
    Instance,
}

pub const RESOURCE_KINDS: usize = 19;

/// Whether objects of kind `a` refer to objects of kind `b`, so that `a` must
/// be destroyed before `b`.
pub open spec fn depends_on(a: ResourceKind, b: ResourceKind) -> bool {
    let device_owned = b == ResourceKind::Device;
    match a {
        ResourceKind::Semaphore | ResourceKind::Fence | ResourceKind::Sampler => device_owned,
        ResourceKind::CommandPool => device_owned || b == ResourceKind::Framebuffer || b
            == ResourceKind::Pipeline || b == ResourceKind::PipelineLayout || b
            == ResourceKind::RenderPass || b == ResourceKind::DescriptorPool || b
            == ResourceKind::Buffer,
        ResourceKind::Framebuffer => device_owned || b == ResourceKind::ImageView || b
            == ResourceKind::RenderPass,
        ResourceKind::Pipeline => device_owned || b == ResourceKind::PipelineLayout || b
            == ResourceKind::RenderPass,
        ResourceKind::PipelineLayout => device_owned || b == ResourceKind::DescriptorSetLayout,
        ResourceKind::RenderPass => device_owned,
        ResourceKind::DescriptorPool => device_owned || b == ResourceKind::DescriptorSetLayout
            || b == ResourceKind::Sampler || b == ResourceKind::ImageView || b
            == ResourceKind::Buffer,
        ResourceKind::DescriptorSetLayout => device_owned || b == ResourceKind::Sampler,
        ResourceKind::ImageView => device_owned || b == ResourceKind::Image || b
            == ResourceKind::Swapchain,
        ResourceKind::Image | ResourceKind::Buffer => device_owned || b == ResourceKind::Memory,
        ResourceKind::Memory => device_owned || b == ResourceKind::Allocator,
        ResourceKind::Swapchain => device_owned || b == ResourceKind::Surface,
        ResourceKind::Allocator => device_owned,
        ResourceKind::Device => b == ResourceKind::Instance,
        ResourceKind::Surface => b == ResourceKind::Instance,
        ResourceKind::Instance => false,
    }
}

/// The position of each kind in the teardown sequence.
pub open spec fn rank(k: ResourceKind) -> nat {
    match k {
        ResourceKind::Semaphore => 0,
        ResourceKind::Fence => 1,
        ResourceKind::CommandPool => 2,
        ResourceKind::Framebuffer => 3,
        ResourceKind::Pipeline => 4,
        ResourceKind::PipelineLayout => 5,
        ResourceKind::RenderPass => 6,
        ResourceKind::DescriptorPool => 7,
        ResourceKind::DescriptorSetLayout => 8,
        ResourceKind::Sampler => 9,
        ResourceKind::ImageView => 10,
        ResourceKind::Image => 11,
        ResourceKind::Buffer => 12,
        ResourceKind::Memory => 13,
        ResourceKind::Swapchain => 14,
        ResourceKind::Surface => 15,
        ResourceKind::Allocator => 16,
        ResourceKind::Device => 17,
        ResourceKind::Instance => 18,
    }
}

proof fn lemma_dependencies_ranked(a: ResourceKind, b: ResourceKind)
    ensures
        depends_on(a, b) ==> rank(a) < rank(b),
        rank(a) < RESOURCE_KINDS,
        rank(a) == rank(b) ==> a == b,
{
}

/// The teardown sequence: views before images before memory, pipelines before
/// layouts, descriptor pools before set layouts, the window surface after the
/// swapchain, and the device context (allocator, device, instance) last.
pub fn teardown_order() -> (r: Vec<ResourceKind>)
    ensures
        r@.len() == RESOURCE_KINDS,
        forall|i: int| 0 <= i < r@.len() ==> rank(#[trigger] r@[i]) == i,
{
    let mut r: Vec<ResourceKind> = Vec::new();
    r.push(ResourceKind::Semaphore);
    r.push(ResourceKind::Fence);
    r.push(ResourceKind::CommandPool);
    r.push(ResourceKind::Framebuffer);
    r.push(ResourceKind::Pipeline);
    r.push(ResourceKind::PipelineLayout);
    r.push(ResourceKind::RenderPass);
    r.push(ResourceKind::DescriptorPool);
    r.push(ResourceKind::DescriptorSetLayout);
    r.push(ResourceKind::Sampler);
    r.push(ResourceKind::ImageView);
    r.push(ResourceKind::Image);
    r.push(ResourceKind::Buffer);
    r.push(ResourceKind::Memory);
    r.push(ResourceKind::Swapchain);
    r.push(ResourceKind::Surface);
    r.push(ResourceKind::Allocator);
    r.push(ResourceKind::Device);
    r.push(ResourceKind::Instance);
    r
}

/// Every kind is destroyed exactly once, and never before a kind that refers to it.
pub proof fn lemma_teardown_respects_dependencies(order: Seq<ResourceKind>)
    requires
        order.len() == RESOURCE_KINDS,
        forall|i: int| 0 <= i < order.len() ==> rank(#[trigger] order[i]) == i,
    ensures
        forall|i: int, j: int|
            0 <= i < j < order.len() ==> !depends_on(#[trigger] order[j], #[trigger] order[i]),
        forall|k: ResourceKind| order.contains(k),
        forall|i: int, j: int|
            0 <= i < j < order.len() ==> #[trigger] order[i] != #[trigger] order[j],
{
    assert forall|i: int, j: int| 0 <= i < j < order.len() implies !depends_on(
        #[trigger] order[j],
        #[trigger] order[i],
    ) by {
        lemma_dependencies_ranked(order[j], order[i]);
    }
    assert forall|k: ResourceKind| order.contains(k) by {
        lemma_dependencies_ranked(k, k);
        let i = rank(k) as int;
        lemma_dependencies_ranked(order[i], k);
        assert(order[i] == k);
    }
}

} // verus!
