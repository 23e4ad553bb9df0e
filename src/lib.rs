//! Frame pacing, swapchain bookkeeping and resource ordering for a Vulkan renderer.
//!
//! The library decides; the host application performs the graphics calls that
//! the decisions ask for and reports what happened. `frame::FrameSync` is the
//! centre: a ring of `MAX_FRAMES_IN_FLIGHT` frame slots, each with its fence and
//! semaphores, driven by events (fence waited, image acquired, submitted,
//! presented, swapchain rebuilt, resized, shutdown) and answering with the next
//! action. Around it: surface configuration (`surface`), device and memory type
//! choice (`device`), shader bytecode (`spirv`), the overlay's index batching
//! (`overlay`), the worker split for parallel recording (`work`), textures
//! (`texture`) and the teardown order (`teardown`).

pub mod device;
pub mod frame;
pub mod overlay;
pub mod spirv;
pub mod surface;
pub mod teardown;
pub mod texture;
pub mod work;
