use funky_renderer::device::{
    decode_api_version, find_memory_type, select_device, ApiVersion, InitError, QueueFamily,
};
use funky_renderer::teardown::{teardown_order, ResourceKind, RESOURCE_KINDS};
use funky_renderer::texture::GltfTexture;

fn pos(order: &[ResourceKind], k: ResourceKind) -> usize {
    order.iter().position(|x| *x == k).unwrap()
}

#[test]
fn teardown_order_respects_dependencies() {
    let order = teardown_order();
    assert_eq!(order.len(), RESOURCE_KINDS);
    assert!(pos(&order, ResourceKind::ImageView) < pos(&order, ResourceKind::Image));
    assert!(pos(&order, ResourceKind::Image) < pos(&order, ResourceKind::Memory));
    assert!(pos(&order, ResourceKind::Pipeline) < pos(&order, ResourceKind::PipelineLayout));
    assert!(pos(&order, ResourceKind::DescriptorPool) < pos(&order, ResourceKind::DescriptorSetLayout));
    assert!(pos(&order, ResourceKind::Framebuffer) < pos(&order, ResourceKind::ImageView));
    assert!(pos(&order, ResourceKind::Swapchain) < pos(&order, ResourceKind::Surface));
    assert!(pos(&order, ResourceKind::Surface) < pos(&order, ResourceKind::Device));
    assert!(pos(&order, ResourceKind::Memory) < pos(&order, ResourceKind::Allocator));
    assert_eq!(order[0], ResourceKind::Semaphore);
    assert_eq!(order[RESOURCE_KINDS - 1], ResourceKind::Instance);
    assert_eq!(order[RESOURCE_KINDS - 2], ResourceKind::Device);
    assert_eq!(order[RESOURCE_KINDS - 3], ResourceKind::Allocator);
}

const BOTH: QueueFamily = QueueFamily { graphics: true, present: true };
const GFX: QueueFamily = QueueFamily { graphics: true, present: false };
const PRESENT: QueueFamily = QueueFamily { graphics: false, present: true };

#[test]
fn first_device_with_a_suitable_family() {
    let devices = vec![vec![GFX, PRESENT], vec![PRESENT, BOTH, BOTH]];
    assert_eq!(select_device(&devices), Ok((1, 1)));
    assert_eq!(select_device(&vec![vec![BOTH]]), Ok((0, 0)));
}

#[test]
fn no_device_or_family_is_an_init_error() {
    assert_eq!(select_device(&vec![]), Err(InitError::NoDevice));
    assert_eq!(select_device(&vec![vec![GFX], vec![], vec![PRESENT]]), Err(InitError::NoQueueFamily));
}

#[test]
fn memory_type_needs_filter_bit_and_properties() {
    // host visible = 2, host coherent = 4, device local = 1
    let flags = vec![1, 2, 6, 7];
    assert_eq!(find_memory_type(&flags, 0b1111, 6), Some(2));
    assert_eq!(find_memory_type(&flags, 0b1011, 6), Some(3));
    assert_eq!(find_memory_type(&flags, 0b0011, 6), None);
    assert_eq!(find_memory_type(&flags, 0b1111, 0), Some(0));
    assert_eq!(find_memory_type(&vec![], u32::MAX, 0), None);
}

#[test]
fn fallback_texture_is_white_pixel() {
    let t = GltfTexture::fallback_white();
    assert_eq!((t.width, t.height), (1, 1));
    assert_eq!(t.data, vec![255, 255, 255, 255]);
    assert_eq!(t.staging_size(), Some(4));
}

#[test]
fn staging_size_checks_data_length() {
    let t = GltfTexture { width: 2, height: 3, data: vec![0; 24] };
    assert_eq!(t.staging_size(), Some(24));
    let short = GltfTexture { width: 2, height: 3, data: vec![0; 23] };
    assert_eq!(short.staging_size(), None);
    let huge = GltfTexture { width: u32::MAX, height: u32::MAX, data: vec![] };
    assert_eq!(huge.staging_size(), None);
}

#[test]
fn api_version_unpacks() {
    let v = (1u32 << 22) | (3 << 12) | 281;
    assert_eq!(decode_api_version(v), ApiVersion { major: 1, minor: 3, patch: 281 });
    let with_variant = (1u32 << 29) | (1 << 22) | (2 << 12) | 5;
    assert_eq!(decode_api_version(with_variant), ApiVersion { major: 1, minor: 2, patch: 5 });
    assert_eq!(decode_api_version(0), ApiVersion { major: 0, minor: 0, patch: 0 });
}
