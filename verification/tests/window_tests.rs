use ebcapture::cli::{
    check_page_count, check_selection, check_system_environment, classify_program,
    cleanup_temp_files, ensure_programs, get_available_disk_space, get_page_count, is_yes,
    select_program_from_all, separate_ebook_candidates, ProgramKind,
};
use ebcapture::driver::{Action, Event, ShowMode};
use ebcapture::error::EbCaptureError;
use ebcapture::focus::{FocusGuard, FocusMode, FocusProgress, FocusStage};
use ebcapture::window_manager::{
    activate_and_bring_to_front, activate_window_macos, bring_window_to_front_windows,
    clamp_region, detect_all_programs, enum_windows_proc, filter_valid_windows, get_macos_windows,
    get_window_rect, get_window_rect_windows, lists_title, lists_window, WindowHandle, WindowInfo,
    WindowRect,
};

fn info(title: &str) -> WindowInfo {
    WindowInfo { title: title.to_string(), pid: 1, handle: WindowHandle::Windows(10) }
}

fn run_focus(mode: FocusMode, activation_works: bool, threads: Event, minimized: bool) -> Vec<Action> {
    let (mut guard, mut action) = FocusGuard::start(mode);
    let mut actions = Vec::new();
    loop {
        let event = match &action {
            Action::SetForeground => {
                if activation_works {
                    Event::Done
                } else {
                    Event::Failed
                }
            }
            Action::QueryThreads => threads.clone(),
            Action::QueryMinimized => Event::Minimized { minimized },
            _ => Event::Done,
        };
        actions.push(action);
        match guard.step(&event) {
            FocusProgress::Perform(next, following) => {
                guard = next;
                action = following;
            }
            FocusProgress::Complete => return actions,
        }
        assert!(actions.len() < 20);
    }
}

#[test]
fn guard_activates_shows_and_settles() {
    let actions = run_focus(FocusMode::Guard, true, Event::Failed, false);
    assert_eq!(
        actions,
        vec![
            Action::SetForeground,
            Action::QueryMinimized,
            Action::ShowWindow { mode: ShowMode::Show },
            Action::Sleep { millis: 300 },
        ]
    );
}

#[test]
fn guard_forces_activation_when_the_normal_call_fails() {
    let actions =
        run_focus(FocusMode::Guard, false, Event::Threads { current: 4, target: 9 }, true);
    assert_eq!(
        actions,
        vec![
            Action::SetForeground,
            Action::QueryThreads,
            Action::ForceForeground { current_thread: 4, target_thread: 9 },
            Action::QueryMinimized,
            Action::ShowWindow { mode: ShowMode::Restore },
            Action::Sleep { millis: 300 },
        ]
    );
}

#[test]
fn guard_does_not_attach_to_its_own_or_an_unknown_thread() {
    for threads in [
        Event::Threads { current: 4, target: 4 },
        Event::Threads { current: 4, target: 0 },
        Event::Failed,
    ] {
        let actions = run_focus(FocusMode::Guard, false, threads, false);
        assert_eq!(
            actions,
            vec![
                Action::SetForeground,
                Action::QueryThreads,
                Action::QueryMinimized,
                Action::ShowWindow { mode: ShowMode::Show },
                Action::Sleep { millis: 300 },
            ]
        );
    }
}

#[test]
fn bringing_to_front_raises_and_lowers_the_window() {
    let actions = run_focus(FocusMode::BringToFront, true, Event::Failed, true);
    assert_eq!(
        actions,
        vec![
            Action::QueryMinimized,
            Action::ShowWindow { mode: ShowMode::Restore },
            Action::SetTopmost { on: true },
            Action::SetForeground,
            Action::SetTopmost { on: false },
            Action::Sleep { millis: 1500 },
        ]
    );
    let actions =
        run_focus(FocusMode::BringToFront, false, Event::Threads { current: 1, target: 2 }, false);
    assert_eq!(
        actions,
        vec![
            Action::QueryMinimized,
            Action::ShowWindow { mode: ShowMode::Show },
            Action::SetTopmost { on: true },
            Action::SetForeground,
            Action::QueryThreads,
            Action::ForceForeground { current_thread: 1, target_thread: 2 },
            Action::SetTopmost { on: false },
            Action::Sleep { millis: 1500 },
        ]
    );
}

#[test]
fn activation_by_platform() {
    let (guard, action) = bring_window_to_front_windows(&WindowHandle::Windows(3));
    assert_eq!(guard, FocusGuard { mode: FocusMode::BringToFront, stage: FocusStage::QueryingMinimized });
    assert_eq!(action, Action::QueryMinimized);
    assert_eq!(activate_and_bring_to_front(&info("Reader")), Ok((guard, Action::QueryMinimized)));
    let mac = WindowInfo { title: "Reader".to_string(), pid: 1, handle: WindowHandle::MacOS(2) };
    assert_eq!(
        activate_and_bring_to_front(&mac),
        Ok((
            FocusGuard { mode: FocusMode::BringToFront, stage: FocusStage::Settling },
            Action::Sleep { millis: 1500 }
        ))
    );
    let none = WindowInfo { title: "Reader".to_string(), pid: 1, handle: WindowHandle::Unsupported };
    assert_eq!(activate_and_bring_to_front(&none), Err(EbCaptureError::UnsupportedPlatform));
    assert_eq!(activate_window_macos(&WindowHandle::MacOS(2)), Ok(()));
    assert_eq!(get_macos_windows(), Ok(Vec::new()));
}

#[test]
fn rectangle_from_edges() {
    assert_eq!(
        WindowRect::from_edges(10, 20, 110, 70),
        Some(WindowRect { x: 10, y: 20, width: 100, height: 50 })
    );
    assert_eq!(WindowRect::from_edges(i32::MIN, 0, i32::MAX, 10), None);
    assert_eq!(WindowRect::from_edges(0, i32::MAX, 10, i32::MIN), None);
    assert!(WindowRect { x: 0, y: 0, width: 1, height: 1 }.is_valid());
    assert!(!WindowRect { x: 0, y: 0, width: 0, height: 1 }.is_valid());
    assert!(!WindowRect { x: 0, y: 0, width: 5, height: -1 }.is_valid());
    assert_eq!(
        get_window_rect_windows(Some((1, 2, 4, 8))),
        Ok(WindowRect { x: 1, y: 2, width: 3, height: 6 })
    );
    assert_eq!(
        get_window_rect_windows(None),
        Err(EbCaptureError::CaptureFailure {
            reason: "window rectangle could not be read".to_string()
        })
    );
    assert_eq!(
        get_window_rect(&info("Reader"), Some((1, 2, 4, 8))),
        Ok(WindowRect { x: 1, y: 2, width: 3, height: 6 })
    );
    let mac = WindowInfo { title: "Reader".to_string(), pid: 1, handle: WindowHandle::MacOS(2) };
    assert_eq!(get_window_rect(&mac, Some((1, 2, 4, 8))), Err(EbCaptureError::UnsupportedPlatform));
}

#[test]
fn rectangle_within_the_image_is_kept() {
    let rect = WindowRect { x: 10, y: 20, width: 30, height: 40 };
    assert_eq!(clamp_region(&rect, 100, 100), (10, 20, 30, 40));
    assert_eq!(clamp_region(&rect, 40, 60), (10, 20, 30, 40));
}

#[test]
fn rectangle_outside_the_image_is_moved_into_it_at_the_minimum_size() {
    let outside = WindowRect { x: 5000, y: 7000, width: 300, height: 200 };
    assert_eq!(clamp_region(&outside, 1920, 1080), (1820, 980, 100, 100));
    let left_of = WindowRect { x: -900, y: 10, width: 300, height: 200 };
    assert_eq!(clamp_region(&left_of, 1920, 1080), (0, 10, 300, 200));
    let negative = WindowRect { x: -500, y: -400, width: 300, height: 200 };
    assert_eq!(clamp_region(&negative, 1920, 1080), (0, 0, 300, 200));
    let small = WindowRect { x: -5, y: 3, width: 20, height: 30 };
    assert_eq!(clamp_region(&small, 1920, 1080), (0, 3, 100, 100));
    let overhang = WindowRect { x: 1800, y: 1000, width: 400, height: 300 };
    assert_eq!(clamp_region(&overhang, 1920, 1080), (1800, 980, 120, 100));
    let at_the_edge = WindowRect { x: 1920, y: 1080, width: 10, height: 10 };
    assert_eq!(clamp_region(&at_the_edge, 1920, 1080), (1820, 980, 100, 100));
}

#[test]
fn cut_never_leaves_the_image() {
    // an image smaller than the minimum size is taken whole
    let rect = WindowRect { x: 70, y: -2, width: 300, height: 20 };
    assert_eq!(clamp_region(&rect, 80, 60), (0, 0, 80, 60));
    // an empty image has nothing to cut
    let extreme = WindowRect { x: i32::MAX, y: i32::MIN, width: i32::MAX, height: i32::MAX };
    assert_eq!(clamp_region(&extreme, u32::MAX, 0), (i32::MAX as u32, 0, i32::MAX as u32, 0));
    for (x, y, w, h) in [(-50, -50, 10, 10), (500, 500, 1, 1), (150, 90, 100, 100), (0, 0, 1000, 1)] {
        let rect = WindowRect { x, y, width: w, height: h };
        let (left, top, width, height) = clamp_region(&rect, 200, 150);
        assert!(width >= 100 && height >= 100);
        assert!(left + width <= 200 && top + height <= 150);
    }
}

#[test]
fn system_windows_and_short_titles_are_not_listed() {
    assert!(lists_window("Calibre"));
    assert!(lists_window("내 책"));
    assert!(!lists_window(""));
    assert!(!lists_window("   "));
    assert!(!lists_window("ab"));
    assert!(!lists_window("Program Manager"));
    assert!(!lists_window("DWM notification window"));
    assert!(!lists_window("Desktop Window Manager"));
    assert!(lists_window("File Explorer"));
    assert!(lists_title("calibre", false));
    assert!(!lists_title("calibre", true));
    assert!(!lists_title("winlogon", false));
}

#[test]
fn listing_keeps_the_order() {
    let windows = vec![info("Kindle"), info("csrss"), info("  "), info("Notepad"), info("x")];
    let kept = filter_valid_windows(windows.clone());
    assert_eq!(kept, vec![info("Kindle"), info("Notepad")]);
    assert_eq!(detect_all_programs(windows), vec![info("Kindle"), info("Notepad")]);
}

#[test]
fn enumeration_takes_visible_windows_with_a_title() {
    let mut windows = Vec::new();
    enum_windows_proc(&mut windows, 5, true, "Reader".to_string(), 44);
    enum_windows_proc(&mut windows, 6, false, "Hidden".to_string(), 45);
    enum_windows_proc(&mut windows, 7, true, "".to_string(), 46);
    enum_windows_proc(&mut windows, 8, true, " \t ".to_string(), 47);
    enum_windows_proc(&mut windows, 9, true, "x".to_string(), 48);
    assert_eq!(
        windows,
        vec![
            WindowInfo { title: "Reader".to_string(), pid: 44, handle: WindowHandle::Windows(5) },
            WindowInfo { title: "x".to_string(), pid: 48, handle: WindowHandle::Windows(9) },
        ]
    );
}

#[test]
fn programs_are_split_into_readers_and_others() {
    let programs = vec![
        info("Notepad"),
        info("리디북스"),
        info("Explorer"),
        info("Adobe Digital Editions"),
        info("ab"),
        info("Terminal"),
        info("My PDF Reader"),
    ];
    let (candidates, others) = separate_ebook_candidates(&programs);
    assert_eq!(
        candidates,
        vec![info("리디북스"), info("Adobe Digital Editions"), info("My PDF Reader")]
    );
    assert_eq!(others, vec![info("Notepad"), info("Terminal")]);
    assert_eq!(classify_program("Search"), ProgramKind::Hidden);
    assert_eq!(classify_program("교보문고 eBook"), ProgramKind::EbookCandidate);
    assert_eq!(classify_program("Paint"), ProgramKind::Other);
}

#[test]
fn page_count_is_between_one_and_999() {
    assert_eq!(get_page_count(" 25 \n"), Ok(25));
    assert_eq!(get_page_count("1"), Ok(1));
    assert_eq!(get_page_count("999"), Ok(999));
    assert_eq!(
        get_page_count("0"),
        Err(EbCaptureError::InvalidInput { input: "page count out of range: 0".to_string() })
    );
    assert_eq!(
        get_page_count("1000\n"),
        Err(EbCaptureError::InvalidInput { input: "page count out of range: 1000".to_string() })
    );
    assert_eq!(
        get_page_count(" twelve \n"),
        Err(EbCaptureError::InvalidInput { input: "twelve".to_string() })
    );
    assert_eq!(get_page_count("-3"), Err(EbCaptureError::InvalidInput { input: "-3".to_string() }));
    assert_eq!(check_page_count(500), Ok(500));
    assert!(check_page_count(u32::MAX).is_err());
}

#[test]
fn selection_counts_from_one() {
    assert_eq!(select_program_from_all("1\n", 3), Ok(0));
    assert_eq!(select_program_from_all(" 3 ", 3), Ok(2));
    assert_eq!(
        select_program_from_all("4", 3),
        Err(EbCaptureError::InvalidInput { input: "number out of range: 4".to_string() })
    );
    assert_eq!(
        select_program_from_all("0", 3),
        Err(EbCaptureError::InvalidInput { input: "number out of range: 0".to_string() })
    );
    assert_eq!(
        select_program_from_all("first", 3),
        Err(EbCaptureError::InvalidInput { input: "first".to_string() })
    );
    assert_eq!(check_selection(2, 2), Ok(1));
    assert!(check_selection(1, 0).is_err());
}

#[test]
fn disk_space_check() {
    assert_eq!(get_available_disk_space(), Ok(1000));
    assert_eq!(check_system_environment(1000), Ok(()));
    assert_eq!(check_system_environment(100), Ok(()));
    assert_eq!(
        check_system_environment(99),
        Err(EbCaptureError::InsufficientDiskSpace { required_mb: 100 })
    );
}

#[test]
fn only_the_letter_y_asks_for_cleanup() {
    assert!(cleanup_temp_files("y\n"));
    assert!(cleanup_temp_files("  Y  "));
    assert!(!cleanup_temp_files("yes"));
    assert!(!cleanup_temp_files("n"));
    assert!(!cleanup_temp_files(""));
    assert!(is_yes("y"));
    assert!(!is_yes("Y"));
}

#[test]
fn a_session_needs_a_program() {
    assert_eq!(ensure_programs(2), Ok(()));
    assert_eq!(ensure_programs(0), Err(EbCaptureError::NoEbookPrograms));
}
