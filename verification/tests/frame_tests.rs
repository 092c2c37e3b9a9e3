//! Swapchain recreation, frame pacing against the mock fence, and the
//! layout-transition sequencing of recorded draws.

use maat_graphics::frame::FrameScheduler;
use maat_graphics::gpu::GpuCommand;
use maat_graphics::gpu::GpuContext;
use maat_graphics::gpu::ImageLayout;
use maat_graphics::gpu_image::GpuImage;
use maat_graphics::gpu_image::ImageFormat;
use maat_graphics::renderpass::RenderPass;
use maat_graphics::renderpass::RenderPassTarget;
use maat_graphics::renderpass::SampleCount;
use maat_graphics::gpu_image::find_memory_type;
use maat_graphics::gpu_image::has_graphics_bit;
use maat_graphics::swapchain::SwapchainController;
use maat_graphics::swapchain::SwapchainError;

#[test]
fn resize_recreate_is_idempotent() {
    let mut gpu = GpuContext::new();
    let mut swapchain = SwapchainController::new(800, 600, 3);
    let pass = RenderPass::new(ImageFormat::B8G8R8A8Unorm);
    let mut target = RenderPassTarget::create_frame_buffers(
        &mut gpu,
        pass,
        3,
        800,
        600,
        SampleCount::OneBit,
    );
    assert_eq!(target.framebuffer_count(), 3);

    for _ in 0..2 {
        swapchain.set_screen_resolution(1024, 768);
        assert!(!swapchain.is_valid());
        swapchain.recreate().unwrap();
        assert!(swapchain.is_valid());

        let created_before = gpu.framebuffers_created();
        let destroyed_before = gpu.framebuffers_destroyed();
        target.recreate(&mut gpu, swapchain.get_image_count(), 1024, 768);
        assert_eq!(target.framebuffer_count(), swapchain.get_image_count());
        // No leaked framebuffers: destroys match creates across the resize.
        assert_eq!(
            gpu.framebuffers_created() - created_before,
            gpu.framebuffers_destroyed() - destroyed_before
        );
    }
}

#[test]
fn zero_sized_resize_is_recoverable() {
    let mut swapchain = SwapchainController::new(800, 600, 2);

    swapchain.set_screen_resolution(0, 0);
    let failed = swapchain.recreate();
    assert_eq!(failed, Err(SwapchainError::UnsupportedDimensions));
    assert!(!swapchain.is_valid());

    // The render loop skips the frame and retries after the next resize.
    swapchain.set_screen_resolution(800, 600);
    swapchain.recreate().unwrap();
    assert!(swapchain.is_valid());
    assert_eq!(swapchain.get_image_count(), 2);
}

#[test]
fn msaa_targets_track_framebuffers() {
    let mut gpu = GpuContext::new();
    let pass = RenderPass::new(ImageFormat::B8G8R8A8Unorm);
    let target = RenderPassTarget::create_frame_buffers(
        &mut gpu,
        pass,
        2,
        640,
        480,
        SampleCount::FourBit,
    );
    assert_eq!(target.framebuffer_count(), 2);
    // colour + msaa + framebuffer per swapchain image
    assert_eq!(gpu.framebuffers_created(), 6);
}

#[test]
fn out_of_date_acquire_goes_stale() {
    let mut swapchain = SwapchainController::new(800, 600, 2);
    let first = swapchain.acquire_next_image();
    let second = swapchain.acquire_next_image();
    let third = swapchain.acquire_next_image();
    assert_eq!(first, 0);
    assert_eq!(second, 1);
    assert_eq!(third, 0);

    swapchain.note_out_of_date();
    assert!(!swapchain.is_valid());
}

#[test]
fn frame_slot_reuse_waits_for_matching_fence() {
    let mut gpu = GpuContext::new();
    let mut scheduler = FrameScheduler::new(2);

    // Frames 0 and 1 start immediately.
    assert_eq!(scheduler.begin_frame(&gpu), Some(0));
    let token0 = scheduler.end_frame(&mut gpu);
    assert_eq!(scheduler.begin_frame(&gpu), Some(1));
    let token1 = scheduler.end_frame(&mut gpu);

    // Frame 2 would reuse frame 0's slot; it must wait for frame 0's
    // token, which only resolves on the explicit mock-fence trigger.
    assert_eq!(scheduler.begin_frame(&gpu), None);
    gpu.complete_oldest();
    assert!(gpu.is_token_resolved(token0));
    assert!(!gpu.is_token_resolved(token1));
    assert_eq!(scheduler.begin_frame(&gpu), Some(0));
    let _token2 = scheduler.end_frame(&mut gpu);

    // Frame 3 waits for frame 1, not frame 2.
    assert_eq!(scheduler.begin_frame(&gpu), None);
    gpu.complete_oldest();
    assert_eq!(scheduler.begin_frame(&gpu), Some(1));
}

#[test]
fn shutdown_resolves_everything() {
    let mut gpu = GpuContext::new();
    let mut scheduler = FrameScheduler::new(2);
    scheduler.begin_frame(&gpu).unwrap();
    let token = scheduler.end_frame(&mut gpu);
    assert!(!gpu.is_token_resolved(token));

    scheduler.wait_idle(&mut gpu);
    assert!(gpu.is_token_resolved(token));
}

#[test]
fn shader_read_draw_follows_its_barrier() {
    let mut gpu = GpuContext::new();
    let pixels = vec![0u8; 4 * 2 * 2];
    let img = GpuImage::create_from_bytes(&mut gpu, pixels, 2, 2, ImageFormat::R8G8B8A8Unorm);
    gpu.draw_indexed(img.get_image(), 6, 1);

    // The proved sequencing law holds of the recorded history; spot-check
    // it on the log as well.
    gpu.check_draws_sequenced();
    let mut barrier_at = None;
    let mut draw_at = None;
    for i in 0..gpu.command_count() {
        match gpu.command_at(i) {
            GpuCommand::Barrier {
                image,
                to_layout: ImageLayout::ShaderReadOnlyOptimal,
                ..
            } if image == img.get_image() => {
                if barrier_at.is_none() {
                    barrier_at = Some(i);
                }
            }
            GpuCommand::DrawIndexed { image, .. } if image == img.get_image() => {
                draw_at = Some(i);
            }
            _ => {}
        }
    }
    assert!(barrier_at.unwrap() < draw_at.unwrap());
}

#[test]
fn unsupported_transition_stays_unimplemented() {
    // Only the two upload edges exist; creation leaves an image Undefined
    // and the upload path ends at ShaderReadOnlyOptimal.
    let mut gpu = GpuContext::new();
    let pixels = vec![0u8; 4];
    let img = GpuImage::create_from_bytes(&mut gpu, pixels, 1, 1, ImageFormat::R8G8B8A8Unorm);
    assert_eq!(gpu.current_layout(img.get_image()), ImageLayout::ShaderReadOnlyOptimal);
}

#[test]
fn memory_type_selection_scans_for_the_last_match() {
    // Types: 0 host-visible only, 1 device-local, 2 device-local+cached.
    let device_local = 0b0001u32;
    let types = vec![0b0010u32, 0b0001, 0b0101];

    // Allocation allows types 1 and 2: the scan keeps the last match.
    let picked = find_memory_type(0b0110, device_local, &types);
    assert_eq!(picked, Some(2));

    // Allocation allows only type 0, which lacks the property: fatal for
    // initialization, reported as no suitable type.
    assert_eq!(find_memory_type(0b0001, device_local, &types), None);
}

#[test]
fn manual_upload_walks_the_two_edges() {
    let mut gpu = GpuContext::new();
    let img = GpuImage::create_undefined(&mut gpu, 4, 4, ImageFormat::R8G8B8A8Unorm);
    assert_eq!(gpu.current_layout(img.get_image()), ImageLayout::Undefined);

    img.transition_layout(&mut gpu, ImageLayout::TransferDstOptimal);
    assert_eq!(gpu.current_layout(img.get_image()), ImageLayout::TransferDstOptimal);

    img.transition_layout(&mut gpu, ImageLayout::ShaderReadOnlyOptimal);
    assert_eq!(gpu.current_layout(img.get_image()), ImageLayout::ShaderReadOnlyOptimal);
    assert_eq!(gpu.command_count(), 2);
}

#[test]
fn graphics_bit_is_read_from_queue_flags() {
    assert!(has_graphics_bit(0b0001));
    assert!(has_graphics_bit(0b0111));
    assert!(!has_graphics_bit(0b0110));
}
