//! The asynchronous resource loader end to end: registration, dispatch,
//! drain, lookup, and the synchronous path, with real image decoding.

use maat_graphics::gpu::GpuCommand;
use maat_graphics::gpu::GpuContext;
use maat_graphics::gpu::ImageLayout;
use maat_graphics::resources::DecodedImage;
use maat_graphics::resources::LoadError;
use maat_graphics::resources::ResourceManager;

fn png_bytes(width: u32, height: u32) -> Vec<u8> {
    let img = image::RgbaImage::from_pixel(width, height, image::Rgba([10, 20, 30, 255]));
    let mut cursor = std::io::Cursor::new(Vec::new());
    image::DynamicImage::ImageRgba8(img)
        .write_to(&mut cursor, image::ImageFormat::Png)
        .unwrap();
    cursor.into_inner()
}

#[test]
fn registered_but_not_loaded_returns_none() {
    let mut manager = ResourceManager::new();
    manager
        .insert_unloaded_texture("brick".to_string(), "textures/brick.png".to_string())
        .unwrap();

    assert!(manager.get_texture("brick".to_string()).is_none());
    assert!(manager.get_texture("unknown".to_string()).is_none());
    assert!(manager.pending_objects_loaded());
}

#[test]
fn duplicate_registration_rejected_before_dispatch() {
    let mut manager = ResourceManager::new();
    manager
        .insert_unloaded_texture("brick".to_string(), "textures/brick.png".to_string())
        .unwrap();

    let second = manager
        .insert_unloaded_texture("brick".to_string(), "other/brick.png".to_string());
    assert!(matches!(second, Err(LoadError::DuplicateReference)));

    let direct = manager.load_texture("brick".to_string(), "other/brick.png".to_string());
    assert!(matches!(direct, Err(LoadError::DuplicateReference)));

    // No decode work was dispatched for the rejected registrations.
    assert!(manager.pending_objects_loaded());
}

#[test]
fn async_load_becomes_resident() {
    let mut gpu = GpuContext::new();
    let mut manager = ResourceManager::new();
    manager
        .insert_unloaded_texture("brick".to_string(), "textures/brick.png".to_string())
        .unwrap();

    let task = manager
        .load_texture_from_reference("brick".to_string())
        .expect("registered texture should dispatch");
    assert_eq!(task.location, "textures/brick.png");
    assert!(!manager.pending_objects_loaded());

    // The worker pool reads and decodes the file; here the decoded payload
    // is produced directly.
    let decoded = DecodedImage::from_bytes(&png_bytes(2, 3)).unwrap();
    let became = manager.recieve_objects(&mut gpu, vec![(task.ticket, decoded)]);
    assert_eq!(became, vec!["brick".to_string()]);
    assert!(manager.pending_objects_loaded());

    let image = manager.get_texture("brick".to_string()).expect("resident");
    assert_eq!(image.width(), 2);
    assert_eq!(image.height(), 3);

    // Repeated lookups are stable: same payload every time.
    let again = manager.get_texture("brick".to_string()).expect("resident");
    assert_eq!(again.width(), 2);
    assert_eq!(again.height(), 3);
    assert_eq!(again.get_image(), image.get_image());
}

#[test]
fn drain_tolerates_empty_and_unknown() {
    let mut gpu = GpuContext::new();
    let mut manager = ResourceManager::new();

    let none = manager.recieve_objects(&mut gpu, vec![]);
    assert!(none.is_empty());

    let decoded = DecodedImage::from_bytes(&png_bytes(1, 1)).unwrap();
    let unknown = manager.recieve_objects(&mut gpu, vec![(99, decoded)]);
    assert!(unknown.is_empty());
}

#[test]
fn sync_and_async_paths_converge() {
    let bytes = png_bytes(4, 2);

    let mut gpu_a = GpuContext::new();
    let mut sync_manager = ResourceManager::new();
    sync_manager
        .sync_load_texture(
            "brick".to_string(),
            "textures/brick.png".to_string(),
            &bytes,
            &mut gpu_a,
        )
        .unwrap();

    let mut gpu_b = GpuContext::new();
    let mut async_manager = ResourceManager::new();
    async_manager
        .insert_unloaded_texture("brick".to_string(), "textures/brick.png".to_string())
        .unwrap();
    let task = async_manager
        .load_texture_from_reference("brick".to_string())
        .unwrap();
    let decoded = DecodedImage::from_bytes(&bytes).unwrap();
    let became = async_manager.recieve_objects(&mut gpu_b, vec![(task.ticket, decoded)]);
    assert_eq!(became, vec!["brick".to_string()]);

    let a = sync_manager.get_texture("brick".to_string()).unwrap();
    let b = async_manager.get_texture("brick".to_string()).unwrap();
    assert_eq!(a.width(), b.width());
    assert_eq!(a.height(), b.height());
    // Both paths recorded the same upload command sequence.
    assert_eq!(gpu_a.command_count(), gpu_b.command_count());
}

#[test]
fn decode_failure_names_the_path() {
    let mut gpu = GpuContext::new();
    let mut manager = ResourceManager::new();
    let garbage = vec![1u8, 2, 3, 4];

    let result = manager.sync_load_texture(
        "broken".to_string(),
        "textures/broken.png".to_string(),
        &garbage,
        &mut gpu,
    );
    match result {
        Err(LoadError::DecodeFailed(path)) => assert_eq!(path, "textures/broken.png"),
        _ => panic!("expected a decode failure naming the path"),
    }
    assert!(manager.get_texture("broken".to_string()).is_none());
}

#[test]
fn decode_wrapper_decompresses() {
    // The decoded payload is the raw pixel grid, not the encoded bytes.
    let bytes = png_bytes(3, 2);
    let decoded = DecodedImage::from_bytes(&bytes).unwrap();
    assert_eq!(decoded.width(), 3);
    assert_eq!(decoded.height(), 2);
}

#[test]
fn upload_path_records_barrier_copy_barrier() {
    let mut gpu = GpuContext::new();
    let mut manager = ResourceManager::new();
    manager
        .sync_load_texture(
            "brick".to_string(),
            "textures/brick.png".to_string(),
            &png_bytes(2, 2),
            &mut gpu,
        )
        .unwrap();

    assert_eq!(gpu.command_count(), 3);
    let image = manager.get_texture("brick".to_string()).unwrap().get_image();
    assert!(matches!(
        gpu.command_at(0),
        GpuCommand::Barrier {
            image: i,
            from_layout: ImageLayout::Undefined,
            to_layout: ImageLayout::TransferDstOptimal,
        } if i == image
    ));
    assert!(matches!(
        gpu.command_at(1),
        GpuCommand::CopyBufferToImage { image: i, .. } if i == image
    ));
    assert!(matches!(
        gpu.command_at(2),
        GpuCommand::Barrier {
            image: i,
            from_layout: ImageLayout::TransferDstOptimal,
            to_layout: ImageLayout::ShaderReadOnlyOptimal,
        } if i == image
    ));
    // The staging buffer was created and destroyed within the upload.
    assert_eq!(gpu.buffers_created(), 1);
    assert_eq!(gpu.buffers_destroyed(), 1);
}

#[test]
fn fonts_load_and_look_up_separately() {
    let mut gpu = GpuContext::new();
    let mut manager = ResourceManager::new();
    manager
        .sync_load_font(
            "arial".to_string(),
            "fonts/arial.png".to_string(),
            &png_bytes(8, 8),
            &mut gpu,
        )
        .unwrap();

    assert!(manager.get_font("arial".to_string()).is_some());
    assert!(manager.get_texture("arial".to_string()).is_none());
    assert!(manager.get_font("absent".to_string()).is_none());
}

#[test]
fn all_textures_lists_resident_only() {
    let mut gpu = GpuContext::new();
    let mut manager = ResourceManager::new();
    manager
        .insert_unloaded_texture("pending".to_string(), "a.png".to_string())
        .unwrap();
    manager
        .sync_load_texture("brick".to_string(), "b.png".to_string(), &png_bytes(1, 1), &mut gpu)
        .unwrap();

    let all = manager.get_all_textures();
    assert_eq!(all.len(), 1);
    assert_eq!(all[0].0, "brick");
}

#[test]
fn destroy_waits_for_idle_and_clears() {
    let mut gpu = GpuContext::new();
    let mut manager = ResourceManager::new();
    manager
        .sync_load_texture("brick".to_string(), "b.png".to_string(), &png_bytes(1, 1), &mut gpu)
        .unwrap();

    gpu.wait_idle();
    manager.destroy(&mut gpu);
    assert!(manager.get_texture("brick".to_string()).is_none());
}
