use drop_viewer::raster::decode_rgba;
use drop_viewer::viewer::{Action, Event, Viewer};

/// A deterministic pixel pattern: `4 * width * height` channel bytes.
fn sample_data(width: u32, height: u32) -> Vec<u8> {
    let n = (4 * width * height) as usize;
    (0..n).map(|j| ((j * 7 + 3) % 256) as u8).collect()
}

/// Encode raw RGBA data as a PNG file image, losslessly.
fn png_bytes(width: u32, height: u32, data: Vec<u8>) -> Vec<u8> {
    let img = image::RgbaImage::from_raw(width, height, data).unwrap();
    let mut bytes: Vec<u8> = Vec::new();
    img.write_to(&mut std::io::Cursor::new(&mut bytes), image::ImageFormat::Png)
        .unwrap();
    bytes
}

#[test]
fn new_viewer_initial_state() {
    let v = Viewer::new(8, 4);
    assert!(v.candidate_image().is_none());
    assert!(v.active_image().is_none());
    assert!(!v.mouse_pressed());
    assert!(!v.exit_requested());
    assert_eq!(v.surface().width(), 8);
    assert_eq!(v.surface().height(), 4);
    assert_eq!(v.surface().frame(), &vec![0u8; 4 * 8 * 4]);
}

#[test]
fn decode_rgba_rejects_junk() {
    assert!(decode_rgba(&b"not_an_image".to_vec()).is_none());
    assert!(decode_rgba(&Vec::new()).is_none());
}

#[test]
fn decode_rgba_recovers_pixel_data() {
    let data = sample_data(5, 3);
    let img = decode_rgba(&png_bytes(5, 3, data.clone())).unwrap();
    assert_eq!(img.width, 5);
    assert_eq!(img.height, 3);
    assert_eq!(img.data, data);
}

#[test]
fn hover_valid_png_stages_candidate() {
    let data = sample_data(64, 48);
    let mut v = Viewer::new(32, 32);
    let act = v.handle_event(Event::HoveredFile(png_bytes(64, 48, data.clone())));
    assert_eq!(act, Action::Nothing);
    let candidate = v.candidate_image().unwrap();
    assert_eq!(candidate.width, 64);
    assert_eq!(candidate.height, 48);
    assert_eq!(candidate.data, data);
    assert!(v.active_image().is_none());
}

#[test]
fn drop_after_valid_hover_displays_image() {
    let data = sample_data(64, 48);
    let png = png_bytes(64, 48, data.clone());
    assert_ne!(png, data);
    let mut v = Viewer::new(32, 32);
    v.handle_event(Event::HoveredFile(png));
    let act = v.handle_event(Event::DroppedFile);
    assert_eq!(act, Action::Present);
    assert!(v.candidate_image().is_none());
    let active = v.active_image().unwrap();
    assert_eq!(active.width, 64);
    assert_eq!(active.height, 48);
    assert_eq!(active.data, data);
    assert_eq!(v.surface().width(), 64);
    assert_eq!(v.surface().height(), 48);
    assert_eq!(v.surface().frame(), &data);
}

#[test]
fn channel_order_is_kept() {
    let data = vec![10u8, 20, 30, 40, 50, 60, 70, 80];
    let mut v = Viewer::new(4, 4);
    v.handle_event(Event::HoveredFile(png_bytes(2, 1, data.clone())));
    v.handle_event(Event::DroppedFile);
    let frame = v.surface().frame();
    assert_eq!(frame.len(), 8);
    assert_eq!(frame[0], 10); // red of pixel 0
    assert_eq!(frame[1], 20); // green of pixel 0
    assert_eq!(frame[2], 30); // blue of pixel 0
    assert_eq!(frame[3], 40); // alpha of pixel 0
    assert_eq!(frame[4], 50); // red of pixel 1
    assert_eq!(frame[7], 80); // alpha of pixel 1
}

#[test]
fn invalid_hover_leaves_active_unchanged() {
    let data = sample_data(6, 6);
    let mut v = Viewer::new(16, 16);
    v.handle_event(Event::HoveredFile(png_bytes(6, 6, data.clone())));
    v.handle_event(Event::DroppedFile);
    let act = v.handle_event(Event::HoveredFile(b"not_an_image".to_vec()));
    assert_eq!(act, Action::Nothing);
    assert!(v.candidate_image().is_none());
    let active = v.active_image().unwrap();
    assert_eq!(active.data, data);
    assert_eq!(v.surface().frame(), &data);
}

#[test]
fn dropping_invalid_hover_clears_active() {
    let data = sample_data(6, 6);
    let mut v = Viewer::new(16, 16);
    v.handle_event(Event::HoveredFile(png_bytes(6, 6, data.clone())));
    v.handle_event(Event::DroppedFile);
    v.handle_event(Event::HoveredFile(b"not_an_image".to_vec()));
    let act = v.handle_event(Event::DroppedFile);
    assert_eq!(act, Action::Nothing);
    assert!(v.active_image().is_none());
    // The surface keeps its last committed contents; nothing is re-presented.
    assert_eq!(v.surface().frame(), &data);
}

#[test]
fn drop_with_empty_candidate_clears_active() {
    // The kept policy: promotion is an unconditional move, so a drop without
    // a prior successful hover unloads the displayed image.
    let data = sample_data(3, 2);
    let mut v = Viewer::new(16, 16);
    v.handle_event(Event::HoveredFile(png_bytes(3, 2, data.clone())));
    v.handle_event(Event::DroppedFile);
    assert!(v.active_image().is_some());
    let act = v.handle_event(Event::DroppedFile);
    assert_eq!(act, Action::Nothing);
    assert!(v.active_image().is_none());
    assert!(v.candidate_image().is_none());
}

#[test]
fn unreadable_hover_clears_candidate_only() {
    let data = sample_data(3, 3);
    let mut v = Viewer::new(16, 16);
    v.handle_event(Event::HoveredFile(png_bytes(3, 3, data.clone())));
    v.handle_event(Event::DroppedFile);
    v.handle_event(Event::HoveredFile(png_bytes(3, 3, data.clone())));
    let act = v.handle_event(Event::HoverFailed);
    assert_eq!(act, Action::Nothing);
    assert!(v.candidate_image().is_none());
    assert_eq!(v.active_image().unwrap().data, data);
}

#[test]
fn close_requested_signals_exit_once() {
    let data = sample_data(2, 2);
    let mut v = Viewer::new(16, 16);
    v.handle_event(Event::HoveredFile(png_bytes(2, 2, data.clone())));
    v.handle_event(Event::DroppedFile);
    let act = v.handle_event(Event::CloseRequested);
    assert_eq!(act, Action::Exit);
    assert!(v.exit_requested());
    // After the close request the viewer is terminal: no event does anything.
    assert_eq!(v.handle_event(Event::CloseRequested), Action::Nothing);
    assert_eq!(v.handle_event(Event::DroppedFile), Action::Nothing);
    assert_eq!(
        v.handle_event(Event::HoveredFile(b"not_an_image".to_vec())),
        Action::Nothing
    );
    assert_eq!(v.active_image().unwrap().data, data);
    assert_eq!(v.surface().frame(), &data);
    assert!(v.exit_requested());
}

#[test]
fn repeated_drop_is_idempotent() {
    let data = sample_data(7, 5);
    let png = png_bytes(7, 5, data.clone());
    let mut v = Viewer::new(16, 16);
    v.handle_event(Event::HoveredFile(png.clone()));
    v.handle_event(Event::DroppedFile);
    let first_frame = v.surface().frame().clone();
    let first_w = v.surface().width();
    let first_h = v.surface().height();
    let first_active = v.active_image().unwrap().data.clone();
    v.handle_event(Event::HoveredFile(png));
    v.handle_event(Event::DroppedFile);
    assert_eq!(v.surface().frame(), &first_frame);
    assert_eq!(v.surface().width(), first_w);
    assert_eq!(v.surface().height(), first_h);
    assert_eq!(v.active_image().unwrap().data, first_active);
}

#[test]
fn mouse_input_tracks_primary_button() {
    let mut v = Viewer::new(4, 4);
    assert_eq!(
        v.handle_event(Event::MouseInput { pressed: true, primary: true }),
        Action::Nothing
    );
    assert!(v.mouse_pressed());
    v.handle_event(Event::MouseInput { pressed: true, primary: false });
    assert!(!v.mouse_pressed());
    v.handle_event(Event::MouseInput { pressed: true, primary: true });
    v.handle_event(Event::MouseInput { pressed: false, primary: true });
    assert!(!v.mouse_pressed());
}
