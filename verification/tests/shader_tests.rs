//! The textured-quad shader set: bindings, graceful unknown-reference
//! draws, instanced batches with their hard capacity, and shutdown. Also
//! the camera-mode state machine and the model registry.

use maat_graphics::camera::CameraMode;
use maat_graphics::camera::CameraType;
use maat_graphics::gpu::GpuCommand;
use maat_graphics::gpu::GpuContext;
use maat_graphics::gpu_image::GpuImage;
use maat_graphics::gpu_image::ImageFormat;
use maat_graphics::math::Rational;
use maat_graphics::model::ModelRegistry;
use maat_graphics::renderpass::RenderPass;
use maat_graphics::renderpass::SampleCount;
use maat_graphics::texture_shader::ShaderError;
use maat_graphics::texture_shader::TextureInstanceData;
use maat_graphics::texture_shader::TextureShader;
use maat_graphics::texture_shader::MAX_INSTANCES;

fn upload(gpu: &mut GpuContext, w: u32, h: u32) -> GpuImage {
    let pixels = vec![255u8; (4 * w * h) as usize];
    GpuImage::create_from_bytes(gpu, pixels, w, h, ImageFormat::R8G8B8A8Unorm)
}

fn shader_with_default(gpu: &mut GpuContext) -> TextureShader {
    let default = upload(gpu, 1, 1);
    let pass = RenderPass::new(ImageFormat::B8G8R8A8Unorm);
    TextureShader::new(gpu, pass, 2, 800, 600, SampleCount::OneBit, &default)
}

fn instance() -> TextureInstanceData {
    let z = Rational::from_int(0);
    TextureInstanceData { model: [z; 4], colour: [z; 4], sprite_sheet: [z; 4] }
}

#[test]
fn unknown_texture_draws_nothing() {
    let mut gpu = GpuContext::new();
    let shader = shader_with_default(&mut gpu);
    shader.begin_renderpass(&mut gpu, 0);
    let before = gpu.command_count();

    let drew = shader.draw_texture(&mut gpu, &"missing".to_string());
    assert!(!drew);
    assert_eq!(gpu.command_count(), before);

    // The fallback texture under the empty reference always draws.
    let drew_default = shader.draw_texture(&mut gpu, &String::new());
    assert!(drew_default);
    assert_eq!(gpu.command_count(), before + 1);
}

#[test]
fn added_texture_draws_against_its_image() {
    let mut gpu = GpuContext::new();
    let mut shader = shader_with_default(&mut gpu);
    let brick = upload(&mut gpu, 2, 2);
    shader.add_texture(&gpu, "brick".to_string(), &brick);

    shader.begin_renderpass(&mut gpu, 0);
    let before = gpu.command_count();
    assert!(shader.draw_texture(&mut gpu, &"brick".to_string()));
    match gpu.command_at(before) {
        GpuCommand::DrawIndexed { image, index_count, instance_count } => {
            assert_eq!(image, brick.get_image());
            assert_eq!(index_count, 6);
            assert_eq!(instance_count, 1);
        }
        other => panic!("expected a draw, recorded {:?}", other),
    }
}

#[test]
fn text_draws_one_quad_per_glyph() {
    let mut gpu = GpuContext::new();
    let mut shader = shader_with_default(&mut gpu);
    let atlas = upload(&mut gpu, 16, 16);
    shader.add_texture(&gpu, "font".to_string(), &atlas);

    let before = gpu.command_count();
    assert!(shader.draw_text(&mut gpu, &"font".to_string(), 5));
    assert_eq!(gpu.command_count(), before + 5);

    assert!(!shader.draw_text(&mut gpu, &"missing-font".to_string(), 5));
    assert_eq!(gpu.command_count(), before + 5);
}

#[test]
fn instanced_batch_flushes_and_draws() {
    let mut gpu = GpuContext::new();
    let mut shader = shader_with_default(&mut gpu);
    let sheet = upload(&mut gpu, 8, 8);
    shader.add_texture(&gpu, "sheet".to_string(), &sheet);
    shader.add_instanced_buffer(&mut gpu, 2, "sprites".to_string());

    for _ in 0..3 {
        shader
            .add_instanced_draw(&"sprites".to_string(), instance())
            .unwrap();
    }

    let before = gpu.command_count();
    let drew = shader.draw_instanced(&mut gpu, 0, &"sprites".to_string(), &"sheet".to_string());
    assert!(drew);
    match gpu.command_at(before) {
        GpuCommand::DrawIndexed { image, index_count, instance_count } => {
            assert_eq!(image, sheet.get_image());
            assert_eq!(index_count, 6);
            assert_eq!(instance_count, 3);
        }
        other => panic!("expected an instanced draw, recorded {:?}", other),
    }

    // The batch is empty again: a second flush draws nothing.
    let drew_again =
        shader.draw_instanced(&mut gpu, 0, &"sprites".to_string(), &"sheet".to_string());
    assert!(!drew_again);
}

#[test]
fn instanced_batch_rejects_overflow_loudly() {
    let mut gpu = GpuContext::new();
    let mut shader = shader_with_default(&mut gpu);
    shader.add_instanced_buffer(&mut gpu, 1, "sprites".to_string());

    for _ in 0..MAX_INSTANCES {
        shader
            .add_instanced_draw(&"sprites".to_string(), instance())
            .unwrap();
    }
    let overflow = shader.add_instanced_draw(&"sprites".to_string(), instance());
    assert!(matches!(overflow, Err(ShaderError::InstanceCapacityExceeded)));

    let unknown = shader.add_instanced_draw(&"absent".to_string(), instance());
    assert!(matches!(unknown, Err(ShaderError::UnknownBuffer)));
}

#[test]
fn shader_recreate_keeps_counts_balanced() {
    let mut gpu = GpuContext::new();
    let mut shader = shader_with_default(&mut gpu);
    let created_before = gpu.framebuffers_created();
    let destroyed_before = gpu.framebuffers_destroyed();

    shader.recreate(&mut gpu, 2, 1024, 768);
    assert_eq!(
        gpu.framebuffers_created() - created_before,
        gpu.framebuffers_destroyed() - destroyed_before
    );
}

#[test]
fn shader_destroy_releases_everything() {
    let mut gpu = GpuContext::new();
    let mut shader = shader_with_default(&mut gpu);
    shader.add_instanced_buffer(&mut gpu, 1, "sprites".to_string());

    gpu.wait_idle();
    shader.destroy(&mut gpu);
    assert_eq!(gpu.buffers_created(), gpu.buffers_destroyed());
    assert_eq!(gpu.framebuffers_created(), gpu.framebuffers_destroyed());
}

#[test]
fn camera_modes_set_their_pitch_limits() {
    let mut mode = CameraMode::new();
    assert!(matches!(mode.camera_type, CameraType::Fly));
    assert_eq!(mode.clamp_x_rotation(500), 500);

    mode.set_first_person_mode();
    assert!(matches!(mode.camera_type, CameraType::FirstPerson));
    assert_eq!(mode.clamp_x_rotation(500), 269);
    assert_eq!(mode.clamp_x_rotation(0), 91);
    assert_eq!(mode.clamp_x_rotation(180), 180);

    mode.set_third_person_mode();
    assert_eq!(mode.clamp_x_rotation(500), 189);
    assert_eq!(mode.clamp_x_rotation(0), 89);

    mode.set_fly_mode();
    assert_eq!(mode.clamp_x_rotation(-30), -30);

    mode.toggle_invert_up_down();
    assert!(mode.invert_up_down);
    mode.toggle_invert_left_right();
    assert!(mode.invert_left_right);
}

#[test]
fn model_registry_drains_front_to_back() {
    let mut registry = ModelRegistry::new();
    registry.add_model("house".to_string(), "models/house.dae".to_string(), "brick".to_string());
    registry.add_model("tree".to_string(), "models/tree.dae".to_string(), "bark".to_string());
    assert!(!registry.is_ready());
    assert_eq!(registry.pending_count(), 2);

    let first = registry.next_pending().unwrap();
    assert_eq!(first.0, "house");
    assert_eq!(first.1.location, "models/house.dae");
    assert_eq!(first.1.texture, "brick");

    let second = registry.next_pending().unwrap();
    assert_eq!(second.0, "tree");

    assert!(registry.next_pending().is_none());
    assert!(registry.is_ready());
}

#[test]
fn vertex_and_index_buffers_hold_the_quad() {
    let mut gpu = GpuContext::new();
    let index_buffer = TextureShader::create_index_buffer(&mut gpu);
    assert_eq!(index_buffer.slot(0).as_slice(), &[0u32, 1, 2, 2, 3, 0]);

    let vertex_buffer = TextureShader::create_vertex_buffer(&mut gpu);
    let quad = vertex_buffer.slot(0);
    assert_eq!(quad.len(), 4);
    assert_eq!(quad[0].pos[0].num(), 1);
    assert_eq!(quad[0].pos[0].den(), 2);
    assert_eq!(quad[0].uvs[0].num(), 99);
    assert_eq!(quad[0].uvs[0].den(), 100);
}
