use ebcapture::driver::{Action, Event, Key};
use ebcapture::error::EbCaptureError;
use ebcapture::keyboard::{
    click_at_position, navigate_next_page, navigate_to_next_page, send_enter, send_left_arrow,
    send_page_down, send_page_up, send_right_arrow, send_space, NavProgress, NavigationMethod,
    Navigator,
};

#[test]
fn default_strategy_by_title_keyword() {
    assert_eq!(NavigationMethod::for_program("Ridibooks Viewer"), NavigationMethod::RightArrow);
    assert_eq!(NavigationMethod::for_program("리디북스"), NavigationMethod::RightArrow);
    assert_eq!(NavigationMethod::for_program("ALADIN eBook"), NavigationMethod::RightArrow);
    assert_eq!(NavigationMethod::for_program("알라딘 전자책"), NavigationMethod::RightArrow);
    assert_eq!(NavigationMethod::for_program("YES24 eBook"), NavigationMethod::Space);
    assert_eq!(NavigationMethod::for_program("예스24"), NavigationMethod::Space);
    assert_eq!(NavigationMethod::for_program("Kindle for PC"), NavigationMethod::RightArrow);
    assert_eq!(NavigationMethod::for_program("calibre - E-book viewer"), NavigationMethod::PageDown);
    assert_eq!(NavigationMethod::for_program("Notepad"), NavigationMethod::RightArrow);
}

#[test]
fn first_keyword_in_the_table_wins() {
    assert_eq!(NavigationMethod::for_program("calibre and yes24"), NavigationMethod::Space);
    assert_eq!(NavigationMethod::for_program("yes24 with ridi"), NavigationMethod::RightArrow);
}

#[test]
fn lower_case_titles_are_matched_as_they_are() {
    assert_eq!(NavigationMethod::for_lowercase_title("calibre"), NavigationMethod::PageDown);
    assert_eq!(NavigationMethod::for_lowercase_title("CALIBRE"), NavigationMethod::RightArrow);
}

#[test]
fn plans_of_the_input_events() {
    assert_eq!(
        send_right_arrow(),
        vec![
            Action::Sleep { millis: 100 },
            Action::KeyClick { key: Key::RightArrow },
            Action::Sleep { millis: 200 }
        ]
    );
    assert_eq!(send_left_arrow(), vec![Action::KeyClick { key: Key::LeftArrow }]);
    assert_eq!(send_page_down(), vec![Action::KeyClick { key: Key::PageDown }]);
    assert_eq!(send_page_up(), vec![Action::KeyClick { key: Key::PageUp }]);
    assert_eq!(send_space(), vec![Action::KeyClick { key: Key::Space }]);
    assert_eq!(send_enter(), vec![Action::KeyClick { key: Key::Return }]);
    assert_eq!(
        click_at_position(30, -4),
        vec![
            Action::MoveMouseTo { x: 30, y: -4 },
            Action::Sleep { millis: 100 },
            Action::LeftClick
        ]
    );
    assert_eq!(navigate_next_page(NavigationMethod::RightArrow), send_right_arrow());
    assert_eq!(navigate_next_page(NavigationMethod::PageDown), send_page_down());
    assert_eq!(navigate_next_page(NavigationMethod::Space), send_space());
    assert_eq!(navigate_next_page(NavigationMethod::Click(1, 2)), click_at_position(1, 2));
}

fn advance(method: NavigationMethod, failing: &[usize]) -> (Result<(), EbCaptureError>, Vec<String>) {
    let (mut nav, mut action) = Navigator::start(method);
    let mut log = Vec::new();
    let mut injected = 0;
    loop {
        let event = match &action {
            Action::KeyClick { .. } | Action::MoveMouseTo { .. } | Action::LeftClick => {
                injected += 1;
                if failing.contains(&injected) {
                    Event::Failed
                } else {
                    Event::Done
                }
            }
            Action::QueryMinimized => Event::Minimized { minimized: false },
            _ => Event::Done,
        };
        log.push(format!("{:?}", action));
        match nav.step(&event) {
            NavProgress::Perform(next, following) => {
                nav = next;
                action = following;
            }
            NavProgress::Finished(result) => return (result, log),
        }
        assert!(log.len() < 100);
    }
}

#[test]
fn advance_takes_focus_waits_and_injects_once() {
    let (result, log) = advance(NavigationMethod::Space, &[]);
    assert_eq!(result, Ok(()));
    assert_eq!(
        log,
        vec![
            "SetForeground",
            "QueryMinimized",
            "ShowWindow { mode: Show }",
            "Sleep { millis: 300 }",
            "Sleep { millis: 500 }",
            "KeyClick { key: Space }",
            "Sleep { millis: 300 }",
        ]
    );
}

#[test]
fn advance_by_click_moves_first() {
    let (result, log) = advance(NavigationMethod::Click(7, 9), &[]);
    assert_eq!(result, Ok(()));
    assert_eq!(
        log[5..],
        [
            "MoveMouseTo { x: 7, y: 9 }",
            "Sleep { millis: 100 }",
            "LeftClick",
            "Sleep { millis: 300 }"
        ]
    );
}

#[test]
fn alternatives_follow_in_fixed_order_with_pauses() {
    let (result, log) = advance(NavigationMethod::Click(7, 9), &[2, 3]);
    assert_eq!(result, Ok(()));
    assert_eq!(
        log[5..],
        [
            "MoveMouseTo { x: 7, y: 9 }",
            "Sleep { millis: 100 }",
            "LeftClick",
            "Sleep { millis: 100 }",
            "KeyClick { key: RightArrow }",
            "Sleep { millis: 500 }",
            "KeyClick { key: PageDown }",
            "Sleep { millis: 300 }",
        ]
    );
}

#[test]
fn advance_fails_when_every_strategy_fails() {
    let (result, log) = advance(NavigationMethod::PageDown, &[1, 2, 3, 4]);
    assert_eq!(
        result,
        Err(EbCaptureError::NavigationFailure {
            reason: "every navigation strategy failed".to_string()
        })
    );
    assert_eq!(
        log[5..],
        [
            "KeyClick { key: PageDown }",
            "Sleep { millis: 100 }",
            "KeyClick { key: RightArrow }",
            "Sleep { millis: 500 }",
            "KeyClick { key: PageDown }",
            "Sleep { millis: 500 }",
            "KeyClick { key: Space }",
        ]
    );
}

#[test]
fn advance_by_title() {
    assert_eq!(navigate_to_next_page("YES24 eBook"), Navigator::start(NavigationMethod::Space));
}
