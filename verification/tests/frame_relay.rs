use frame_relay::bridge::{TextureBridge, TextureUpdate};
use frame_relay::extract::extract_frame;
use frame_relay::frame::FrameBuffer;
use frame_relay::pixel::{channel_count, convert_to_rgb, FrameError, PixelFormat};
use frame_relay::store::FrameStore;
use frame_relay::target::OffscreenTarget;

#[test]
fn channel_counts() {
    assert_eq!(channel_count(PixelFormat::Rgba8), 4);
    assert_eq!(channel_count(PixelFormat::Rgb8), 3);
}

#[test]
fn convert_drops_alpha_exactly() {
    let bytes = vec![255u8, 0, 0, 255, 0, 255, 0, 255, 0, 0, 255, 255, 255, 255, 0, 255];
    let rgb = convert_to_rgb(PixelFormat::Rgba8, &bytes);
    assert_eq!(rgb, vec![255u8, 0, 0, 0, 255, 0, 0, 0, 255, 255, 255, 0]);
}

#[test]
fn convert_rgb_is_identity_copy() {
    let bytes = vec![1u8, 2, 3, 4, 5, 6];
    let rgb = convert_to_rgb(PixelFormat::Rgb8, &bytes);
    assert_eq!(rgb, bytes);
}

#[test]
fn round_trip_through_store_byte_for_byte() {
    let bytes: Vec<u8> = (0u8..24).collect();
    let frame = FrameBuffer::from_parts(3, 2, PixelFormat::Rgba8, bytes.clone());
    let mut store = FrameStore::new();
    store.publish(frame);
    let (taken, version) = store.try_take_if_newer(0).expect("a newer frame was published");
    assert_eq!(version, 1);
    assert_eq!(taken.width(), 3);
    assert_eq!(taken.height(), 2);
    assert_eq!(taken.format(), PixelFormat::Rgba8);
    assert_eq!(taken.bytes(), &bytes);
}

#[test]
fn version_advances_by_one_and_gates_reads() {
    let mut store = FrameStore::new();
    assert_eq!(store.version(), 0);
    assert!(store.try_take_if_newer(0).is_none());

    let frame = FrameBuffer::from_parts(1, 1, PixelFormat::Rgba8, vec![9, 9, 9, 9]);
    store.publish(frame);
    assert_eq!(store.version(), 1);

    // A reader that is up to date (or ahead) sees nothing.
    assert!(store.try_take_if_newer(1).is_none());
    assert!(store.try_take_if_newer(7).is_none());

    // A reader behind the current version gets the frame, exactly once.
    let (_, version) = store.try_take_if_newer(0).expect("version 1 not yet seen");
    assert_eq!(version, 1);
    assert!(store.try_take_if_newer(0).is_none());

    let frame = FrameBuffer::from_parts(1, 1, PixelFormat::Rgba8, vec![8, 8, 8, 8]);
    store.publish(frame);
    assert_eq!(store.version(), 2);
}

#[test]
fn latest_frame_wins_over_unconsumed_one() {
    let mut store = FrameStore::new();
    store.publish(FrameBuffer::from_parts(1, 1, PixelFormat::Rgba8, vec![1, 1, 1, 1]));
    store.publish(FrameBuffer::from_parts(1, 1, PixelFormat::Rgba8, vec![2, 2, 2, 2]));
    assert_eq!(store.version(), 2);
    let (taken, version) = store.try_take_if_newer(0).expect("two frames were published");
    assert_eq!(version, 2);
    assert_eq!(taken.bytes(), &vec![2u8, 2, 2, 2]);
    assert!(!store.has_pending());
}

#[test]
fn update_twice_without_publish_is_idempotent() {
    let mut store = FrameStore::new();
    let mut bridge = TextureBridge::new();
    store.publish(FrameBuffer::from_parts(2, 1, PixelFormat::Rgba8, vec![
        10, 20, 30, 40, 50, 60, 70, 80,
    ]));

    assert_eq!(bridge.update(&mut store), Ok(TextureUpdate::Recreated));
    let first_pixels = bridge.texture().expect("texture created").pixels().clone();
    let first_seen = bridge.last_seen();

    // No publication in between: the second tick must change nothing.
    assert_eq!(bridge.update(&mut store), Ok(TextureUpdate::NoNewFrame));
    let texture = bridge.texture().expect("texture still present");
    assert_eq!(texture.width(), 2);
    assert_eq!(texture.height(), 1);
    assert_eq!(texture.pixels(), &first_pixels);
    assert_eq!(bridge.last_seen(), first_seen);
}

#[test]
fn corrupt_frame_is_rejected_and_texture_survives() {
    let mut store = FrameStore::new();
    let mut bridge = TextureBridge::new();

    // A good frame first, so there is a texture to preserve.
    store.publish(FrameBuffer::from_parts(1, 1, PixelFormat::Rgba8, vec![5, 6, 7, 8]));
    assert_eq!(bridge.update(&mut store), Ok(TextureUpdate::Recreated));

    // Declared 512x512 RGBA, but only 100 bytes supplied: corrupt.
    store.publish(FrameBuffer::from_parts(512, 512, PixelFormat::Rgba8, vec![0; 100]));
    assert_eq!(bridge.update(&mut store), Err(FrameError::CorruptFrame));

    let texture = bridge.texture().expect("previous texture kept");
    assert_eq!(texture.width(), 1);
    assert_eq!(texture.height(), 1);
    assert_eq!(texture.pixels(), &vec![5u8, 6, 7]);
}

#[test]
fn corrupt_frame_before_any_texture_leaves_none() {
    let mut store = FrameStore::new();
    let mut bridge = TextureBridge::new();
    store.publish(FrameBuffer::from_parts(2, 2, PixelFormat::Rgba8, vec![1, 2, 3]));
    assert_eq!(bridge.update(&mut store), Err(FrameError::CorruptFrame));
    assert!(bridge.texture().is_none());
}

#[test]
fn zero_dimensions_are_rejected() {
    assert!(matches!(
        OffscreenTarget::new(0, 5, PixelFormat::Rgba8),
        Err(FrameError::InvalidDimensions)
    ));
    assert!(matches!(
        OffscreenTarget::new(5, 0, PixelFormat::Rgba8),
        Err(FrameError::InvalidDimensions)
    ));
}

#[test]
fn new_target_is_zero_filled_and_unrendered() {
    let target = OffscreenTarget::new(2, 3, PixelFormat::Rgb8).expect("positive dimensions");
    assert_eq!(target.width(), 2);
    assert_eq!(target.height(), 3);
    assert_eq!(target.format(), PixelFormat::Rgb8);
    assert!(target.snapshot().is_none());
}

#[test]
fn resize_to_zero_retains_previous_state() {
    let mut target = OffscreenTarget::new(2, 2, PixelFormat::Rgba8).expect("positive dimensions");
    target.complete_pass(vec![3; 16]).expect("right length");
    assert!(matches!(target.resize(0, 2), Err(FrameError::InvalidDimensions)));
    assert_eq!(target.width(), 2);
    assert_eq!(target.height(), 2);
    let snap = target.snapshot().expect("previous pass retained");
    assert_eq!(snap.bytes(), &vec![3u8; 16]);
}

#[test]
fn wrong_length_pass_is_rejected() {
    let mut target = OffscreenTarget::new(2, 2, PixelFormat::Rgba8).expect("positive dimensions");
    assert!(matches!(target.complete_pass(vec![0; 5]), Err(FrameError::CorruptFrame)));
    assert!(target.snapshot().is_none());
}

#[test]
fn extraction_before_first_pass_is_a_no_op() {
    let target = OffscreenTarget::new(4, 4, PixelFormat::Rgba8).expect("positive dimensions");
    let mut store = FrameStore::new();
    let mut bridge = TextureBridge::new();

    extract_frame(&target, &mut store);
    assert_eq!(store.version(), 0);
    assert!(!store.has_pending());

    // The UI side tolerates "no frame yet": nothing to display, no failure.
    assert_eq!(bridge.update(&mut store), Ok(TextureUpdate::NoNewFrame));
    assert!(bridge.texture().is_none());
}

#[test]
fn extraction_publishes_a_decoupled_copy() {
    let mut target = OffscreenTarget::new(1, 2, PixelFormat::Rgba8).expect("positive dimensions");
    target.complete_pass(vec![9, 8, 7, 6, 5, 4, 3, 2]).expect("right length");
    let mut store = FrameStore::new();
    extract_frame(&target, &mut store);
    assert_eq!(store.version(), 1);

    // Overwriting the target after extraction must not touch the handed-off copy.
    target.complete_pass(vec![0; 8]).expect("right length");
    let (taken, _) = store.try_take_if_newer(0).expect("extraction published");
    assert_eq!(taken.bytes(), &vec![9u8, 8, 7, 6, 5, 4, 3, 2]);
}

#[test]
fn same_dimensions_update_in_place() {
    let mut store = FrameStore::new();
    let mut bridge = TextureBridge::new();
    store.publish(FrameBuffer::from_parts(1, 1, PixelFormat::Rgba8, vec![1, 2, 3, 4]));
    assert_eq!(bridge.update(&mut store), Ok(TextureUpdate::Recreated));
    store.publish(FrameBuffer::from_parts(1, 1, PixelFormat::Rgba8, vec![9, 8, 7, 6]));
    assert_eq!(bridge.update(&mut store), Ok(TextureUpdate::UpdatedInPlace));
    assert_eq!(bridge.texture().expect("texture present").pixels(), &vec![9u8, 8, 7]);
}

#[test]
fn resize_between_ticks_recreates_texture() {
    let mut target = OffscreenTarget::new(512, 512, PixelFormat::Rgba8).expect("positive dimensions");
    let mut store = FrameStore::new();
    let mut bridge = TextureBridge::new();

    // First tick at 512x512.
    target.complete_pass(vec![128; 512 * 512 * 4]).expect("right length");
    extract_frame(&target, &mut store);
    assert_eq!(bridge.update(&mut store), Ok(TextureUpdate::Recreated));
    assert_eq!(bridge.texture().expect("texture present").width(), 512);

    // Resized to 256x256 before the second tick: a full recreation, not an
    // in-place update, with the new dimensions and an RGB-sized pixel count.
    target.resize(256, 256).expect("positive dimensions");
    target.complete_pass(vec![64; 256 * 256 * 4]).expect("right length");
    extract_frame(&target, &mut store);
    assert_eq!(bridge.update(&mut store), Ok(TextureUpdate::Recreated));
    let texture = bridge.texture().expect("texture present");
    assert_eq!(texture.width(), 256);
    assert_eq!(texture.height(), 256);
    assert_eq!(texture.pixels().len(), 256 * 256 * 3);
}

#[test]
fn end_to_end_two_by_two_rgba_to_rgb() {
    let mut store = FrameStore::new();
    let mut bridge = TextureBridge::new();
    store.publish(FrameBuffer::from_parts(2, 2, PixelFormat::Rgba8, vec![
        255, 0, 0, 255, 0, 255, 0, 255, 0, 0, 255, 255, 255, 255, 0, 255,
    ]));
    assert_eq!(bridge.update(&mut store), Ok(TextureUpdate::Recreated));
    let texture = bridge.texture().expect("texture present");
    assert_eq!(texture.width(), 2);
    assert_eq!(texture.height(), 2);
    // Direct channel copy, alpha dropped, no gamma adjustment.
    assert_eq!(texture.pixels(), &vec![255u8, 0, 0, 0, 255, 0, 0, 0, 255, 255, 255, 0]);
}

#[test]
fn frame_validity_checks_length_and_dimensions() {
    let good = FrameBuffer::from_parts(2, 2, PixelFormat::Rgba8, vec![0; 16]);
    assert!(good.is_valid());
    let rgb = FrameBuffer::from_parts(2, 2, PixelFormat::Rgb8, vec![0; 12]);
    assert!(rgb.is_valid());
    let short = FrameBuffer::from_parts(2, 2, PixelFormat::Rgba8, vec![0; 15]);
    assert!(!short.is_valid());
    let zero = FrameBuffer::from_parts(0, 2, PixelFormat::Rgba8, vec![]);
    assert!(!zero.is_valid());
}

#[test]
fn rgb_frame_passes_through_bridge_unchanged() {
    let mut store = FrameStore::new();
    let mut bridge = TextureBridge::new();
    store.publish(FrameBuffer::from_parts(3, 1, PixelFormat::Rgb8, vec![1, 2, 3, 4, 5, 6, 7, 8, 9]));
    assert_eq!(bridge.update(&mut store), Ok(TextureUpdate::Recreated));
    assert_eq!(bridge.texture().expect("texture present").pixels(), &vec![
        1u8, 2, 3, 4, 5, 6, 7, 8, 9,
    ]);
}
