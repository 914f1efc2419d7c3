use ebcapture::capture::{
    capture_full_screen, capture_window, display_frame_to_image, frame_to_image,
    save_frame_as_image_smart, surface_frame_to_image, CaptureProgress, CaptureStage,
    ScreenProgress,
};
use ebcapture::driver::{Action, Event};
use ebcapture::error::EbCaptureError;
use ebcapture::imaging::{
    convert_frame_to_image, crop_image_to_window, into_rgb_image, into_rgba_image,
};
use ebcapture::pixel::{bmp_fallback, convert_bgra_to_rgb, NormalizedImage, OpaqueImage};
use ebcapture::window_manager::{WindowHandle, WindowInfo, WindowRect};

fn numbered(pixels: usize) -> Vec<u8> {
    let mut bytes = Vec::new();
    for i in 0..pixels {
        bytes.push(i as u8);
        bytes.push(100 + i as u8);
        bytes.push(200u8.wrapping_add(i as u8));
        bytes.push(255 - i as u8);
    }
    bytes
}

fn rgba_of(img: &image::DynamicImage) -> Vec<u8> {
    img.as_rgba8().unwrap().as_raw().clone()
}

#[test]
fn canonical_image_becomes_an_rgba_image() {
    let data = numbered(6);
    let img = into_rgba_image(NormalizedImage::new(3, 2, data.clone()).unwrap()).unwrap();
    assert_eq!((img.width(), img.height()), (3, 2));
    assert_eq!(rgba_of(&img), data);
    assert!(NormalizedImage::new(3, 2, vec![0u8; 23]).is_none());
    assert!(NormalizedImage::new(3, 2, vec![0u8; 25]).is_none());
}

#[test]
fn opaque_image_becomes_an_rgb_image() {
    let data: Vec<u8> = (0..18).collect();
    let img = into_rgb_image(OpaqueImage::new(2, 3, data.clone()).unwrap()).unwrap();
    assert_eq!((img.width(), img.height()), (2, 3));
    assert_eq!(img.as_rgb8().unwrap().as_raw(), &data);
    assert!(OpaqueImage::new(2, 3, vec![0u8; 17]).is_none());
}

#[test]
fn frame_of_exact_size_becomes_an_image() {
    let frame = numbered(4);
    let img = convert_frame_to_image(&frame, 2, 2).unwrap();
    assert_eq!((img.width(), img.height()), (2, 2));
    let out = rgba_of(&img);
    for i in 0..4 {
        assert_eq!(out[4 * i], frame[4 * i + 2]);
        assert_eq!(out[4 * i + 1], frame[4 * i + 1]);
        assert_eq!(out[4 * i + 2], frame[4 * i]);
        assert_eq!(out[4 * i + 3], frame[4 * i + 3]);
    }
    // three bytes per pixel, and a recovered height
    let img = convert_frame_to_image(&frame[..12], 2, 2).unwrap();
    assert_eq!((img.width(), img.height()), (2, 2));
    assert!(rgba_of(&img).chunks(4).all(|p| p[3] == 255));
    let img = convert_frame_to_image(&vec![0u8; 32], 2, 2).unwrap();
    assert_eq!((img.width(), img.height()), (2, 4));
    assert_eq!(
        convert_frame_to_image(&vec![0u8; 40], 2, 2),
        Err(EbCaptureError::UnsupportedPixelFormat { byte_length: 40, width: 2, height: 2 })
    );
    assert_eq!(
        convert_frame_to_image(&frame[..13], 2, 2),
        Err(EbCaptureError::UnsupportedPixelFormat { byte_length: 13, width: 2, height: 2 })
    );
}

#[test]
fn crop_cuts_the_rectangle_out() {
    let data = numbered(20);
    let source = into_rgba_image(NormalizedImage::new(5, 4, data.clone()).unwrap()).unwrap();
    let rect = WindowRect { x: 1, y: 2, width: 3, height: 2 };
    let out = crop_image_to_window(source, &rect).unwrap();
    assert_eq!((out.width(), out.height()), (3, 2));
    let bytes = rgba_of(&out);
    for row in 0..2usize {
        for col in 0..3usize {
            for c in 0..4usize {
                assert_eq!(bytes[(row * 3 + col) * 4 + c], data[((row + 2) * 5 + col + 1) * 4 + c]);
            }
        }
    }
}

#[test]
fn crop_of_a_rectangle_outside_takes_a_small_image_whole() {
    let data = numbered(20);
    let source = into_rgba_image(NormalizedImage::new(5, 4, data.clone()).unwrap()).unwrap();
    for rect in [
        WindowRect { x: 50, y: 1, width: 3, height: 2 },
        WindowRect { x: -3, y: -3, width: 2, height: 2 },
        WindowRect { x: 3, y: 3, width: 4, height: 4 },
    ] {
        let out = crop_image_to_window(source.clone(), &rect).unwrap();
        assert_eq!((out.width(), out.height()), (5, 4));
        assert_eq!(rgba_of(&out), data);
    }
}

#[test]
fn crop_of_a_rectangle_outside_is_at_least_the_minimum_size() {
    let mut data = Vec::new();
    for i in 0..200 * 150 {
        data.push((i % 200) as u8);
        data.push((i / 200) as u8);
        data.push(7);
        data.push(255);
    }
    let source = into_rgba_image(NormalizedImage::new(200, 150, data.clone()).unwrap()).unwrap();
    let beyond = WindowRect { x: 300, y: 10, width: 50, height: 40 };
    let out = crop_image_to_window(source.clone(), &beyond).unwrap();
    assert_eq!((out.width(), out.height()), (100, 100));
    let bytes = rgba_of(&out);
    for row in 0..100usize {
        for col in 0..100usize {
            let pixel = &bytes[(row * 100 + col) * 4..(row * 100 + col) * 4 + 4];
            assert_eq!(pixel, &[(col + 100) as u8, (row + 10) as u8, 7, 255]);
        }
    }
    for rect in [
        WindowRect { x: 200, y: 150, width: 1, height: 1 },
        WindowRect { x: -40, y: -40, width: 30, height: 30 },
        WindowRect { x: 5000, y: -5000, width: 700, height: 700 },
        WindowRect { x: 190, y: 0, width: 20, height: 150 },
    ] {
        let out = crop_image_to_window(source.clone(), &rect).unwrap();
        assert!(out.width() >= 100 && out.height() >= 100);
        assert!(out.width() <= 200 && out.height() <= 150);
    }
}

#[test]
fn crop_of_an_image_without_alpha() {
    let data: Vec<u8> = (0..36).collect();
    let source = into_rgb_image(OpaqueImage::new(4, 3, data.clone()).unwrap()).unwrap();
    let rect = WindowRect { x: 1, y: 1, width: 2, height: 2 };
    let out = crop_image_to_window(source, &rect).unwrap();
    assert_eq!((out.width(), out.height()), (2, 2));
    assert_eq!(
        out.as_rgb8().unwrap().as_raw(),
        &vec![15, 16, 17, 18, 19, 20, 27, 28, 29, 30, 31, 32]
    );
}

#[test]
fn frames_turn_into_the_pages_image() {
    let region = WindowRect { x: 1, y: 0, width: 2, height: 2 };
    let img = surface_frame_to_image(numbered(4), &region).unwrap();
    assert_eq!((img.width(), img.height()), (2, 2));
    let img = display_frame_to_image(numbered(12), 4, 3, &region).unwrap();
    assert_eq!((img.width(), img.height()), (2, 2));
    let whole = rgba_of(&frame_to_image(numbered(12), 4, 3).unwrap());
    let cut = rgba_of(&img);
    assert_eq!(cut[0..8], whole[4..12]);
    assert_eq!(cut[8..16], whole[20..28]);
    let empty = WindowRect { x: 0, y: 0, width: 0, height: 2 };
    assert_eq!(
        surface_frame_to_image(numbered(4), &empty),
        Err(EbCaptureError::CaptureFailure { reason: "window rectangle is empty".to_string() })
    );
    assert_eq!(
        display_frame_to_image(numbered(12), 4, 3, &empty),
        Err(EbCaptureError::CaptureFailure { reason: "window rectangle is empty".to_string() })
    );
    assert_eq!(
        frame_to_image(vec![0u8; 7], 4, 3),
        Err(EbCaptureError::UnsupportedPixelFormat { byte_length: 7, width: 4, height: 3 })
    );
}

#[test]
fn capture_begins_with_the_tier_that_the_platform_has() {
    let rect = WindowRect { x: 0, y: 0, width: 8, height: 6 };
    let windows = WindowInfo { title: "a".to_string(), pid: 1, handle: WindowHandle::Windows(1) };
    let (state, action) = capture_window(&windows, &rect, "page_001.png".to_string());
    assert_eq!(action, Action::AcquireSurface { width: 8, height: 6 });
    assert_eq!(state.stage, CaptureStage::Acquiring);
    let mac = WindowInfo { title: "a".to_string(), pid: 1, handle: WindowHandle::MacOS(1) };
    let (state, action) = capture_window(&mac, &rect, "page_001.png".to_string());
    assert_eq!(action, Action::OpenDisplay);
    assert_eq!(state.stage, CaptureStage::Opening);
}

#[test]
fn frame_that_fits_no_layout_ends_the_capture() {
    let rect = WindowRect { x: 0, y: 0, width: 2, height: 2 };
    let windows = WindowInfo { title: "a".to_string(), pid: 1, handle: WindowHandle::Windows(1) };
    let (state, _) = capture_window(&windows, &rect, "p.png".to_string());
    let mut progress = state.step(Event::Done);
    let answers = vec![Event::Done, Event::Frame { bytes: vec![1, 2, 3, 4, 5] }, Event::Done];
    for event in answers {
        progress = match progress {
            CaptureProgress::Perform(state, _) => state.step(event),
            finished => finished,
        };
    }
    assert_eq!(
        progress,
        CaptureProgress::Finished(Err(EbCaptureError::UnsupportedPixelFormat {
            byte_length: 5,
            width: 2,
            height: 2
        }))
    );
}

#[test]
fn bgra_to_rgb_drops_alpha() {
    let frame: Vec<u8> = vec![1, 2, 3, 4, 5, 6, 7, 8, 9];
    let img = convert_bgra_to_rgb(&frame, 2, 1).unwrap();
    assert_eq!(img.as_bytes(), &[3, 2, 1, 7, 6, 5]);
    assert!(convert_bgra_to_rgb(&frame, 3, 1).is_err());
}

#[test]
fn last_resort_takes_whole_rows() {
    // 2 pixels per row, 17 bytes: not a multiple of 8, so three bytes per pixel
    let frame: Vec<u8> = (1..=17).collect();
    let img = bmp_fallback(&frame, 2).unwrap();
    assert_eq!((img.width(), img.height()), (2, 2));
    assert_eq!(img.as_bytes(), &[3, 2, 1, 6, 5, 4, 9, 8, 7, 12, 11, 10]);
    // 16 bytes: a multiple of 8, so four bytes per pixel
    let frame: Vec<u8> = (1..=16).collect();
    let img = bmp_fallback(&frame, 2).unwrap();
    assert_eq!((img.width(), img.height()), (2, 2));
    assert_eq!(img.as_bytes(), &[3, 2, 1, 7, 6, 5, 11, 10, 9, 15, 14, 13]);
    assert_eq!(
        bmp_fallback(&[1, 2, 3], 2),
        Err(EbCaptureError::CaptureFailure {
            reason: "frame holds no complete row of pixels".to_string()
        })
    );
    assert!(bmp_fallback(&frame, 0).is_err());
}

#[test]
fn frame_of_a_display_gives_one_canonical_image() {
    let img = save_frame_as_image_smart(numbered(6), 3, 2).unwrap();
    assert_eq!((img.width(), img.height()), (3, 2));
    let img = save_frame_as_image_smart(vec![5u8; 18], 3, 2).unwrap();
    assert_eq!((img.width(), img.height()), (3, 2));
    assert!(rgba_of(&img).chunks(4).all(|p| p == [5, 5, 5, 255]));
    let img = save_frame_as_image_smart(vec![5u8; 36], 3, 2).unwrap();
    assert_eq!((img.width(), img.height()), (3, 3));
}

#[test]
fn frame_at_a_recovered_height_of_three_bytes_per_pixel() {
    let img = save_frame_as_image_smart(vec![9u8; 18300], 100, 50).unwrap();
    assert_eq!((img.width(), img.height()), (100, 61));
    let bytes = rgba_of(&img);
    assert_eq!(bytes.len(), 100 * 61 * 4);
    assert!(bytes.chunks(4).all(|p| p == [9, 9, 9, 255]));
}

#[test]
fn frame_that_fits_no_layout_gives_no_image() {
    assert_eq!(
        save_frame_as_image_smart(vec![0u8; 40400], 100, 50),
        Err(EbCaptureError::UnsupportedPixelFormat { byte_length: 40400, width: 100, height: 50 })
    );
    assert_eq!(
        save_frame_as_image_smart(vec![5u8; 25], 3, 2),
        Err(EbCaptureError::UnsupportedPixelFormat { byte_length: 25, width: 3, height: 2 })
    );
    assert_eq!(
        save_frame_as_image_smart(vec![1, 2], 3, 2),
        Err(EbCaptureError::UnsupportedPixelFormat { byte_length: 2, width: 3, height: 2 })
    );
}

fn run_screen(frames: Vec<Event>, saves: Vec<bool>) -> (Result<(), EbCaptureError>, Vec<String>) {
    let (mut state, mut action) = capture_full_screen("shot.png".to_string());
    let mut frames = frames.into_iter();
    let mut saves = saves.into_iter();
    let mut log = Vec::new();
    let mut opened = false;
    loop {
        let event = match action {
            Action::OpenDisplay => {
                opened = true;
                log.push("open".to_string());
                Event::DisplayOpened { width: 3, height: 2 }
            }
            Action::GrabFrame => {
                assert!(opened);
                log.push("grab".to_string());
                frames.next().unwrap()
            }
            Action::Sleep { millis } => {
                log.push(format!("sleep {}", millis));
                Event::Done
            }
            Action::SaveImage { file_name, image } => {
                assert!(image.as_rgba8().is_some());
                log.push(format!("save {} {}x{}", file_name, image.width(), image.height()));
                if saves.next().unwrap() {
                    Event::Done
                } else {
                    Event::Failed
                }
            }
            Action::CloseDisplay => {
                assert!(opened);
                opened = false;
                log.push("close".to_string());
                Event::Done
            }
            other => panic!("unexpected action {:?}", other),
        };
        match state.step(event) {
            ScreenProgress::Perform(next, following) => {
                state = next;
                action = following;
            }
            ScreenProgress::Finished(result) => {
                assert!(!opened);
                return (result, log);
            }
        }
        assert!(log.len() < 100);
    }
}

#[test]
fn whole_display_is_written_at_the_first_try() {
    let frames = vec![Event::Frame { bytes: vec![] }, Event::Frame { bytes: numbered(6) }];
    let (result, log) = run_screen(frames, vec![true]);
    assert_eq!(result, Ok(()));
    assert_eq!(log, vec!["open", "grab", "sleep 100", "grab", "save shot.png 3x2", "close"]);
}

#[test]
fn whole_display_write_is_not_tried_again() {
    let frames = vec![Event::Frame { bytes: vec![] }, Event::Frame { bytes: numbered(6) }];
    let (result, log) = run_screen(frames, vec![false]);
    assert_eq!(
        result,
        Err(EbCaptureError::CaptureFailure {
            reason: "captured image could not be saved".to_string()
        })
    );
    assert_eq!(log, vec!["open", "grab", "sleep 100", "grab", "save shot.png 3x2", "close"]);
}

#[test]
fn whole_display_waits_for_a_frame_that_is_not_empty() {
    let frames = vec![
        Event::Done,
        Event::Frame { bytes: vec![] },
        Event::Failed,
        Event::Frame { bytes: vec![7u8; 27] },
    ];
    let (result, log) = run_screen(frames, vec![true]);
    assert_eq!(result, Ok(()));
    assert_eq!(
        log,
        vec![
            "open",
            "grab",
            "sleep 100",
            "grab",
            "sleep 500",
            "grab",
            "sleep 500",
            "grab",
            "save shot.png 3x3",
            "close"
        ]
    );
}

#[test]
fn whole_display_gives_up_after_three_frames() {
    let frames = vec![Event::Done, Event::Failed, Event::Frame { bytes: vec![] }, Event::Failed];
    let (result, log) = run_screen(frames, vec![]);
    assert_eq!(
        result,
        Err(EbCaptureError::CaptureFailure { reason: "screen capture failed".to_string() })
    );
    assert_eq!(
        log,
        vec!["open", "grab", "sleep 100", "grab", "sleep 500", "grab", "sleep 500", "grab", "close"]
    );
}

#[test]
fn whole_display_writes_nothing_for_a_frame_that_fits_no_layout() {
    let frames = vec![Event::Done, Event::Frame { bytes: vec![9u8; 25] }];
    let (result, log) = run_screen(frames, vec![]);
    assert_eq!(
        result,
        Err(EbCaptureError::UnsupportedPixelFormat { byte_length: 25, width: 3, height: 2 })
    );
    assert_eq!(log, vec!["open", "grab", "sleep 100", "grab", "close"]);
}

#[test]
fn display_that_cannot_be_opened_is_a_capture_failure() {
    let (state, action) = capture_full_screen("a.png".to_string());
    assert_eq!(action, Action::OpenDisplay);
    assert_eq!(
        state.step(Event::Failed),
        ScreenProgress::Finished(Err(EbCaptureError::CaptureFailure {
            reason: "primary display cannot be captured".to_string()
        }))
    );
}

#[test]
fn surface_of_an_empty_rectangle_is_not_read() {
    let rect = WindowRect { x: 0, y: 0, width: 0, height: 2 };
    let windows = WindowInfo { title: "a".to_string(), pid: 1, handle: WindowHandle::Windows(1) };
    let (state, _) = capture_window(&windows, &rect, "p.png".to_string());
    let state = match state.step(Event::Done) {
        CaptureProgress::Perform(state, Action::RenderWindow) => state,
        other => panic!("unexpected {:?}", other),
    };
    let state = match state.step(Event::Done) {
        CaptureProgress::Perform(state, Action::ReleaseSurface) => state,
        other => panic!("unexpected {:?}", other),
    };
    assert!(matches!(
        state.step(Event::Done),
        CaptureProgress::Perform(_, Action::OpenDisplay)
    ));
}

#[test]
fn surface_buffer_holds_four_bytes_per_pixel() {
    let rect = WindowRect { x: 3, y: 4, width: 640, height: 480 };
    let windows = WindowInfo { title: "a".to_string(), pid: 1, handle: WindowHandle::Windows(1) };
    let (state, _) = capture_window(&windows, &rect, "p.png".to_string());
    let state = match state.step(Event::Done) {
        CaptureProgress::Perform(state, Action::RenderWindow) => state,
        other => panic!("unexpected {:?}", other),
    };
    match state.step(Event::Failed) {
        CaptureProgress::Perform(state, Action::CopyVisible { width: 640, height: 480 }) => {
            assert!(matches!(
                state.step(Event::Done),
                CaptureProgress::Perform(
                    _,
                    Action::ReadSurface { width: 640, height: 480, byte_len: 1_228_800 }
                )
            ));
        }
        other => panic!("unexpected {:?}", other),
    }
}
