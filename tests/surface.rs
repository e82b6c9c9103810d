use oreb::surface::{first_srgb, next_action, pick_format, FrameAction, FrameOutcome, SurfaceExtent};
use wgpu::TextureFormat;

#[test]
fn initial_extent_is_the_window_size() {
    assert_eq!(SurfaceExtent::initial(501, 501), SurfaceExtent { width: 501, height: 501 });
}

#[test]
fn initial_extent_raises_a_zero_side() {
    assert_eq!(SurfaceExtent::initial(0, 480), SurfaceExtent { width: 1, height: 480 });
    assert_eq!(SurfaceExtent::initial(640, 0), SurfaceExtent { width: 640, height: 1 });
}

#[test]
fn resize_takes_positive_sizes() {
    let mut e = SurfaceExtent::initial(501, 501);
    assert!(e.resize(640, 480));
    assert_eq!(e, SurfaceExtent { width: 640, height: 480 });
}

#[test]
fn resize_with_a_zero_side_is_ignored() {
    let mut e = SurfaceExtent { width: 640, height: 480 };
    assert!(!e.resize(0, 480));
    assert!(!e.resize(640, 0));
    assert_eq!(e, SurfaceExtent { width: 640, height: 480 });
}

#[test]
fn frame_outcomes_map_to_actions() {
    assert_eq!(next_action(FrameOutcome::Acquired), FrameAction::Draw);
    assert_eq!(next_action(FrameOutcome::Lost), FrameAction::Reset);
    assert_eq!(next_action(FrameOutcome::OutOfMemory), FrameAction::Exit);
    assert_eq!(next_action(FrameOutcome::Timeout), FrameAction::Exit);
    assert_eq!(next_action(FrameOutcome::Outdated), FrameAction::Exit);
}

#[test]
fn first_srgb_flag_is_picked() {
    assert_eq!(first_srgb(&vec![false, true, true]), 1);
    assert_eq!(first_srgb(&vec![false, false]), 0);
    assert_eq!(first_srgb(&vec![true]), 0);
}

#[test]
fn srgb_surface_format_is_preferred() {
    let formats = vec![TextureFormat::Bgra8Unorm, TextureFormat::Rgba8Unorm, TextureFormat::Bgra8UnormSrgb];
    assert_eq!(pick_format(&formats), 2);
    assert_eq!(pick_format(&vec![TextureFormat::Rgba8Unorm, TextureFormat::Bgra8Unorm]), 0);
    assert_eq!(pick_format(&vec![TextureFormat::Rgba8UnormSrgb]), 0);
}
