use shaderview::pipeline::draw_call;
use shaderview::pixels::{PixelBuffer, Rgba};
use shaderview::scheduler::{Command, LoopEvent, Phase, RenderLoopState};
use shaderview::surface::PresentMode;
use shaderview::texture::{ReloadError, UploadLayout};

fn solid(width: u32, height: u32, px: [u8; 4]) -> PixelBuffer {
    let mut bytes = Vec::new();
    for _ in 0..(width * height) {
        bytes.extend_from_slice(&px);
    }
    PixelBuffer::from_rgba8(width, height, bytes).unwrap()
}

fn all_pixels(state: &RenderLoopState<u8, u8>, want: Rgba) -> bool {
    let t = state.texture();
    (0..t.height()).all(|y| (0..t.width()).all(|x| t.pixel(x, y) == want))
}

const RED: Rgba = Rgba { r: 255, g: 0, b: 0, a: 255 };
const BLUE: Rgba = Rgba { r: 0, g: 0, b: 255, a: 255 };

#[test]
fn red_then_blue_after_reload() {
    let mut state = RenderLoopState::new(0u8, 0u8, solid(4, 4, [255, 0, 0, 255]));
    assert!(all_pixels(&state, RED));
    let cmd = state.dispatch(LoopEvent::FileChanged(Some(solid(4, 4, [0, 0, 255, 255]))));
    assert_eq!(
        cmd,
        Command::Upload(UploadLayout {
            offset: 0,
            bytes_per_row: 16,
            rows_per_image: 4,
            width: 4,
            height: 4,
            depth: 1
        })
    );
    assert!(state.redraw_pending());
    assert_eq!(state.dispatch(LoopEvent::RedrawRequested), Command::Draw(draw_call()));
    assert!(!state.redraw_pending());
    assert!(all_pixels(&state, BLUE));
    assert_eq!(state.texture().contents().len(), 64);
}

#[test]
fn resize_then_redraw() {
    let mut state = RenderLoopState::new(3u8, 5u8, solid(800, 600, [1, 2, 3, 4]));
    assert_eq!(state.config().width, 800);
    assert_eq!(state.config().height, 600);
    let cmd = state.dispatch(LoopEvent::Resized { width: 400, height: 300 });
    assert_eq!(cmd, Command::Reconfigure { width: 400, height: 300 });
    assert_eq!(state.config().width, 400);
    assert_eq!(state.config().height, 300);
    assert_eq!(state.config().format, 3);
    assert_eq!(state.config().alpha_mode, 5);
    assert_eq!(state.config().present_mode, PresentMode::Fifo);
    let draw = state.dispatch(LoopEvent::RedrawRequested);
    assert_eq!(draw, Command::Draw(draw_call()));
    assert_eq!(state.phase(), Phase::Running);
}

#[test]
fn resize_to_zero_is_clamped() {
    let mut state = RenderLoopState::new(0u8, 0u8, solid(2, 2, [0, 0, 0, 0]));
    assert_eq!(
        state.dispatch(LoopEvent::Resized { width: 0, height: 7 }),
        Command::Reconfigure { width: 1, height: 7 }
    );
    assert_eq!((state.config().width, state.config().height), (1, 7));
    assert_eq!(
        state.dispatch(LoopEvent::Resized { width: 9, height: 0 }),
        Command::Reconfigure { width: 9, height: 1 }
    );
    assert_eq!((state.config().width, state.config().height), (9, 1));
}

#[test]
fn reloads_are_shown_in_order() {
    let mut state = RenderLoopState::new(0u8, 0u8, solid(2, 3, [0, 0, 0, 255]));
    for k in 1..=5u8 {
        let cmd = state.dispatch(LoopEvent::FileChanged(Some(solid(2, 3, [k, k, k, 255]))));
        assert!(matches!(cmd, Command::Upload(_)));
        assert_eq!(state.dispatch(LoopEvent::RedrawRequested), Command::Draw(draw_call()));
        assert!(all_pixels(&state, Rgba { r: k, g: k, b: k, a: 255 }));
    }
}

#[test]
fn coalesced_reloads_show_the_last() {
    let mut state = RenderLoopState::new(0u8, 0u8, solid(2, 2, [0, 0, 0, 255]));
    for k in 1..=3u8 {
        state.dispatch(LoopEvent::FileChanged(Some(solid(2, 2, [k, 0, 0, 255]))));
    }
    assert_eq!(state.dispatch(LoopEvent::RedrawRequested), Command::Draw(draw_call()));
    assert!(all_pixels(&state, Rgba { r: 3, g: 0, b: 0, a: 255 }));
}

#[test]
fn reload_of_other_size_keeps_texture() {
    let mut state = RenderLoopState::new(0u8, 0u8, solid(4, 4, [255, 0, 0, 255]));
    let cmd = state.dispatch(LoopEvent::FileChanged(Some(solid(5, 4, [0, 0, 255, 255]))));
    assert_eq!(
        cmd,
        Command::KeepPrevious(ReloadError::SizeMismatch {
            expected_width: 4,
            expected_height: 4,
            width: 5,
            height: 4
        })
    );
    assert!(!state.redraw_pending());
    assert_eq!(state.dispatch(LoopEvent::RedrawRequested), Command::Draw(draw_call()));
    assert!(all_pixels(&state, RED));
    assert_eq!((state.texture().width(), state.texture().height()), (4, 4));
}

#[test]
fn unreadable_reload_keeps_texture() {
    let mut state = RenderLoopState::new(0u8, 0u8, solid(4, 4, [255, 0, 0, 255]));
    let cmd = state.dispatch(LoopEvent::FileChanged(None));
    assert_eq!(cmd, Command::KeepPrevious(ReloadError::Unreadable));
    assert!(!state.redraw_pending());
    assert!(all_pixels(&state, RED));
}

#[test]
fn close_is_final() {
    let mut state = RenderLoopState::new(0u8, 0u8, solid(4, 4, [255, 0, 0, 255]));
    assert_eq!(state.dispatch(LoopEvent::CloseRequested), Command::Exit);
    assert_eq!(state.phase(), Phase::Closing);
    assert_eq!(state.dispatch(LoopEvent::CloseRequested), Command::Idle);
    assert_eq!(state.dispatch(LoopEvent::RedrawRequested), Command::Idle);
    assert_eq!(state.dispatch(LoopEvent::Resized { width: 10, height: 10 }), Command::Idle);
    assert_eq!(state.dispatch(LoopEvent::AboutToWait), Command::Idle);
    let cmd = state.dispatch(LoopEvent::FileChanged(Some(solid(4, 4, [0, 0, 255, 255]))));
    assert_eq!(cmd, Command::Idle);
    assert!(all_pixels(&state, RED));
    assert_eq!((state.config().width, state.config().height), (4, 4));
    assert_eq!(state.phase(), Phase::Closing);
}

#[test]
fn about_to_wait_requests_redraw() {
    let mut state = RenderLoopState::new(0u8, 0u8, solid(1, 1, [9, 9, 9, 9]));
    assert!(!state.redraw_pending());
    assert_eq!(state.dispatch(LoopEvent::AboutToWait), Command::RequestRedraw);
    assert!(state.redraw_pending());
    assert_eq!(state.dispatch(LoopEvent::Other), Command::Idle);
    assert!(state.redraw_pending());
}
