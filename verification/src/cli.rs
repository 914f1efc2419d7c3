//! The page loop: capture, advance, settle, page after page.

use vstd::prelude::*;
use vstd::string::StringExecFns;
use crate::capture::{
    CaptureProgress, CaptureWindow, begin_capture, capture_first, capture_next,
};
use crate::driver::{Action, Event};
use crate::error::{EbCaptureError, ErrorModel};
use crate::focus::{FocusGuard, FocusMode, FocusProgress, FocusStage, first_stage, next_stage};
use crate::keyboard::{
    NavOutcome, NavProgress, NavigationMethod, Navigator, method_for_title, nav_first, nav_next,
};
use crate::text::{
    any_occurs_in, byte_len, contains_any, lowercased, parse_u32, parse_usize, parsed_u32,
    parsed_usize, to_lowercase, trim, trimmed, word_texts,
};
use crate::window_manager::{
    WindowHandle, WindowInfo, WindowModel, WindowRect, is_nameless, window_models,
};

verus! {

/// The character of a decimal digit.
pub open spec fn digit_char(d: int) -> char {
    if d == 0 {
        '0'
    } else if d == 1 {
        '1'
    } else if d == 2 {
        '2'
    } else if d == 3 {
        '3'
    } else if d == 4 {
        '4'
    } else if d == 5 {
        '5'
    } else if d == 6 {
        '6'
    } else if d == 7 {
        '7'
    } else if d == 8 {
        '8'
    } else {
        '9'
    }
}

/// The decimal digits of a number, without leading zeros.
pub open spec fn decimal(n: nat) -> Seq<char>
    decreases n,
{
    if n < 10 {
        seq![digit_char(n as int)]
    } else {
        decimal(n / 10).push(digit_char((n % 10) as int))
    }
}

/// The decimal digits of a number, with zeros in front of fewer than three.
pub open spec fn zero_padded(n: nat) -> Seq<char> {
    if n < 10 {
        seq!['0', '0'] + decimal(n)
    } else if n < 100 {
        seq!['0'] + decimal(n)
    } else {
        decimal(n)
    }
}

/// The name of the file that holds a page: `page_`, the page's number in at
/// least three digits, and the extension of the image format.
pub open spec fn page_file_name(page: nat) -> Seq<char> {
    "page_"@ + zero_padded(page) + ".png"@
}

/// The text of one decimal digit.
fn digit_text(d: u64) -> (text: &'static str)
    requires
        d < 10,
    ensures
        text@ == seq![digit_char(d as int)],
{
    proof {
        reveal_strlit("0");
        reveal_strlit("1");
        reveal_strlit("2");
        reveal_strlit("3");
        reveal_strlit("4");
        reveal_strlit("5");
        reveal_strlit("6");
        reveal_strlit("7");
        reveal_strlit("8");
        reveal_strlit("9");
    }
    let text: &'static str = if d == 0 {
        "0"
    } else if d == 1 {
        "1"
    } else if d == 2 {
        "2"
    } else if d == 3 {
        "3"
    } else if d == 4 {
        "4"
    } else if d == 5 {
        "5"
    } else if d == 6 {
        "6"
    } else if d == 7 {
        "7"
    } else if d == 8 {
        "8"
    } else {
        "9"
    };
    assert(text@ =~= seq![digit_char(d as int)]);
    text
}

/// Appends the decimal digits of a number to a text.
fn append_decimal(text: &mut String, n: u64)
    ensures
        final(text)@ == old(text)@ + decimal(n as nat),
    decreases n,
{
    if n >= 10 {
        append_decimal(text, n / 10);
    }
    text.append(digit_text(n % 10));
    assert(final(text)@ =~= old(text)@ + decimal(n as nat));
}

/// The name of the file that holds the page of the given number.
pub fn page_file(page: u32) -> (name: String)
    ensures
        name@ == page_file_name(page as nat),
{
    proof {
        reveal_strlit("0");
        reveal_strlit("00");
    }
    let mut name: String = String::from_str("page_");
    if page < 10 {
        name.append("00");
    } else if page < 100 {
        name.append("0");
    }
    append_decimal(&mut name, page as u64);
    name.append(".png");
    assert(name@ =~= page_file_name(page as nat));
    name
}

/// Milliseconds to wait after the extra focus routine that follows the
/// first page.
pub const FIRST_PAGE_WAIT_MS: u64 = 500;

/// Milliseconds to wait for a page to render after the advance.
pub const PAGE_SETTLE_MS: u64 = 1500;

/// The action that a session waits on.
#[derive(Debug, PartialEq)]
pub enum LoopStage {
    /// The window's rectangle was asked for.
    Measuring,
    /// The current page is being captured.
    Capturing(CaptureWindow),
    /// The extra focus routine after the first page is under way.
    Guarding(FocusStage),
    /// The wait after that routine is running.
    GuardSettle,
    /// The advance to the next page is under way.
    Navigating(Navigator),
    /// The user was asked to turn the page by hand.
    AwaitingUser,
    /// The wait for the next page to render is running.
    PageSettle,
}

/// A capture session under way.
#[derive(Debug, PartialEq)]
pub struct PageLoop {
    /// Platform reference of the target window.
    pub handle: WindowHandle,
    /// The target's default navigation strategy.
    pub method: NavigationMethod,
    /// Number of pages to capture.
    pub page_count: u32,
    /// Number of the page that is being captured, or was captured last.
    pub page: u32,
    /// The window's rectangle, measured once.
    pub region: WindowRect,
    /// Names of the files written so far, in the order of writing.
    pub saved: Vec<String>,
    /// The action that is awaited.
    pub stage: LoopStage,
}

/// What a session asks for next, or how it ended.
#[derive(Debug, PartialEq)]
pub enum LoopProgress {
    /// Carry out the action, then report to the session in this state.
    Perform(PageLoop, Action),
    /// All pages are written, with the names of their files in page order,
    /// or the session failed.
    Finished(Result<Vec<String>, EbCaptureError>),
}

/// The texts of a list of names.
pub open spec fn texts(names: Seq<String>) -> Seq<Seq<char>> {
    Seq::new(names.len(), |i: int| names[i]@)
}

/// Reason given when the window's rectangle cannot be had or covers no
/// pixel.
pub open spec fn no_rectangle() -> Seq<char> {
    "window rectangle could not be determined"@
}

/// The rectangle that the reported edges make up, if it covers a pixel.
pub open spec fn measured(event: Event) -> Option<WindowRect> {
    match event {
        Event::WindowEdges { left, top, right, bottom } => {
            if 0 < right - left <= i32::MAX && 0 < bottom - top <= i32::MAX {
                Some(
                    WindowRect {
                        x: left,
                        y: top,
                        width: (right - left) as i32,
                        height: (bottom - top) as i32,
                    },
                )
            } else {
                None
            }
        },
        _ => None,
    }
}

impl LoopProgress {
    /// The session goes on with what it knew before, the given page and
    /// rectangle, and the same files written.
    pub open spec fn keeps(self, pre: PageLoop, page: u32, region: WindowRect) -> bool {
        &&& self matches LoopProgress::Perform(next, _)
        &&& next.handle == pre.handle
        &&& next.method == pre.method
        &&& next.page_count == pre.page_count
        &&& next.page == page
        &&& next.region == region
        &&& texts(next.saved@) == texts(pre.saved@)
    }

    /// The session goes on in a stage without inner state.
    pub open spec fn goes_on(self, pre: PageLoop, stage: LoopStage, action: Action) -> bool {
        &&& self.keeps(pre, pre.page, pre.region)
        &&& self matches LoopProgress::Perform(next, performed)
        &&& next.stage == stage
        &&& performed == action
    }

    /// The capture of page `page` begins.
    pub open spec fn captures(self, pre: PageLoop, page: u32, region: WindowRect) -> bool {
        &&& self.keeps(pre, page, region)
        &&& self matches LoopProgress::Perform(next, action)
        &&& next.stage matches LoopStage::Capturing(capture)
        &&& capture_first(pre.handle, region, page_file_name(page as nat), capture, action)
    }

    /// The advance to the next page begins.
    pub open spec fn navigates(self, pre: PageLoop) -> bool {
        &&& self.keeps(pre, pre.page, pre.region)
        &&& self matches LoopProgress::Perform(next, action)
        &&& next.stage matches LoopStage::Navigating(navigator)
        &&& nav_first(pre.method) == (navigator, action)
    }

    /// The session ends well with the given names.
    pub open spec fn ends_with(self, names: Seq<Seq<char>>) -> bool {
        self matches LoopProgress::Finished(Ok(saved)) && texts(saved@) == names
    }

    /// The session ends with the given error.
    pub open spec fn fails_with(self, error: ErrorModel) -> bool {
        self matches LoopProgress::Finished(Err(e)) && e@ == error
    }

    /// What the inner capture must have answered for the session to answer
    /// this.
    pub open spec fn inner_capture(self) -> CaptureProgress {
        match self {
            LoopProgress::Perform(next, action) => match next.stage {
                LoopStage::Capturing(capture) => CaptureProgress::Perform(capture, action),
                _ => CaptureProgress::Finished(Ok(())),
            },
            LoopProgress::Finished(Err(e)) => CaptureProgress::Finished(Err(e)),
            LoopProgress::Finished(Ok(_)) => CaptureProgress::Finished(Ok(())),
        }
    }

    /// The step after the page `pre.page` was written: its file joins the
    /// list; after the last page the session ends with the list, after the
    /// first the extra focus routine begins, after any other the advance.
    pub open spec fn page_written(self, pre: PageLoop) -> bool {
        let names = texts(pre.saved@).push(page_file_name(pre.page as nat));
        if pre.page >= pre.page_count {
            self.ends_with(names)
        } else {
            &&& self matches LoopProgress::Perform(next, action)
            &&& next.handle == pre.handle
            &&& next.method == pre.method
            &&& next.page_count == pre.page_count
            &&& next.page == pre.page
            &&& next.region == pre.region
            &&& texts(next.saved@) == names
            &&& if pre.page == 1 {
                next.stage == LoopStage::Guarding(first_stage(FocusMode::Guard).0) && action
                    == first_stage(FocusMode::Guard).1
            } else {
                next.stage matches LoopStage::Navigating(navigator) && nav_first(pre.method) == (
                    navigator,
                    action,
                )
            }
        }
    }
}

/// Whether `post` is the step that follows `pre` on `event`.
///
/// The rectangle is measured once. Each page is captured; a capture that
/// fails ends the session with its error. After every page but the last the
/// session advances: after the first page it takes focus once more and
/// waits, then, as after every page, it runs the advance; if that fails it
/// asks the user to turn the page and waits for them; then it waits for the
/// page to render and captures the next. The page that was written is never
/// captured again.
pub open spec fn loop_next(pre: PageLoop, event: Event, post: LoopProgress) -> bool {
    match pre.stage {
        LoopStage::Measuring => match measured(event) {
            Some(region) => if pre.page_count == 0 {
                post.ends_with(texts(pre.saved@))
            } else {
                post.captures(pre, 1, region)
            },
            None => post.fails_with(ErrorModel::CaptureFailure { reason: no_rectangle() }),
        },
        LoopStage::Capturing(capture) => {
            &&& capture_next(capture, event, post.inner_capture())
            &&& post.inner_capture() is Perform ==> post.keeps(pre, pre.page, pre.region)
            &&& post.inner_capture() == CaptureProgress::Finished(Ok::<(), EbCaptureError>(()))
                ==> post.page_written(pre)
        },
        LoopStage::Guarding(stage) => match next_stage(FocusMode::Guard, stage, event) {
            Some((next, action)) => post.goes_on(pre, LoopStage::Guarding(next), action),
            None => post.goes_on(
                pre,
                LoopStage::GuardSettle,
                Action::Sleep { millis: FIRST_PAGE_WAIT_MS },
            ),
        },
        LoopStage::GuardSettle => post.navigates(pre),
        LoopStage::Navigating(navigator) => match nav_next(navigator, event) {
            NavOutcome::Perform(next, action) => post.goes_on(
                pre,
                LoopStage::Navigating(next),
                action,
            ),
            NavOutcome::Succeeded => post.goes_on(
                pre,
                LoopStage::PageSettle,
                Action::Sleep { millis: PAGE_SETTLE_MS },
            ),
            NavOutcome::Exhausted => post.goes_on(
                pre,
                LoopStage::AwaitingUser,
                Action::PromptManualNavigation,
            ),
        },
        LoopStage::AwaitingUser => post.goes_on(
            pre,
            LoopStage::PageSettle,
            Action::Sleep { millis: PAGE_SETTLE_MS },
        ),
        LoopStage::PageSettle => if pre.page < pre.page_count {
            post.captures(pre, (pre.page + 1) as u32, pre.region)
        } else {
            post.ends_with(texts(pre.saved@))
        },
    }
}

/// The names of the files of the first `count` pages, in page order.
pub open spec fn page_names(count: int) -> Seq<Seq<char>> {
    Seq::new(count as nat, |i: int| page_file_name((i + 1) as nat))
}

/// What holds of a session at every step: while a page is captured, the
/// files of all pages before it are written, in page order; between two
/// pages, the files up to the page just captured. No page beyond the last
/// is ever begun.
pub open spec fn in_order(session: PageLoop) -> bool {
    match session.stage {
        LoopStage::Measuring => session.page == 0 && session.saved@.len() == 0,
        LoopStage::Capturing(_) => 1 <= session.page <= session.page_count && texts(
            session.saved@,
        ) == page_names(session.page - 1),
        _ => 1 <= session.page < session.page_count && texts(session.saved@) == page_names(
            session.page as int,
        ),
    }
}

/// A session begins in order.
pub proof fn lemma_session_begins_in_order(
    handle: WindowHandle,
    title: Seq<char>,
    page_count: u32,
    post: LoopProgress,
)
    requires
        loop_first(handle, title, page_count, post),
    ensures
        post matches LoopProgress::Perform(next, _) ==> in_order(next),
{
}

/// Whatever the driver reports, a session stays in order, and if it ends
/// well it returns the files of exactly the pages one to `page_count`, in
/// ascending page order: no page is left out, captured twice or moved.
pub proof fn lemma_session_stays_in_order(pre: PageLoop, event: Event, post: LoopProgress)
    requires
        in_order(pre),
        loop_next(pre, event, post),
    ensures
        post matches LoopProgress::Perform(next, _) ==> in_order(next),
        post matches LoopProgress::Finished(Ok(saved)) ==> texts(saved@) == page_names(
            pre.page_count as int,
        ),
{
    match pre.stage {
        LoopStage::Capturing(_) => {
            assert(page_names(pre.page - 1).push(page_file_name(pre.page as nat)) =~= page_names(
                pre.page as int,
            ));
        },
        LoopStage::Measuring => {
            assert(texts(pre.saved@) =~= page_names(0));
        },
        _ => {},
    }
}

/// Whatever the driver reports, the parts of a session follow one another
/// in one order only. A page is captured at the start and after the wait
/// that follows an advance, and it is always the next page. The extra focus
/// routine begins only after the first page, if that is not the last. An
/// advance begins only after that routine, or after a later page that is
/// not the last; never after the last page. The user is asked only when an
/// advance has run out of strategies, and the wait for the next page
/// follows, not a second capture of the same page.
pub proof fn lemma_session_order(pre: PageLoop, event: Event, post: LoopProgress)
    requires
        loop_next(pre, event, post),
    ensures
        post matches LoopProgress::Perform(next, action) ==> {
            &&& next.stage is Capturing && !(pre.stage is Capturing) ==> (pre.stage is Measuring
                && next.page == 1) || (pre.stage is PageSettle && next.page == pre.page + 1)
            &&& next.stage is Guarding && !(pre.stage is Guarding) ==> pre.stage is Capturing
                && pre.page == 1 && pre.page < pre.page_count
            &&& next.stage is Navigating && !(pre.stage is Navigating) ==> (pre.stage
                is GuardSettle || (pre.stage is Capturing && pre.page != 1 && pre.page
                < pre.page_count)) && next.stage == LoopStage::Navigating(nav_first(pre.method).0)
                && action == nav_first(pre.method).1
            &&& next.stage is AwaitingUser ==> pre.stage is Navigating && nav_next(
                pre.stage->Navigating_0,
                event,
            ) is Exhausted && action == Action::PromptManualNavigation
            &&& pre.stage is AwaitingUser ==> next.stage is PageSettle && next.page == pre.page
            &&& next.stage is PageSettle ==> action == Action::Sleep { millis: PAGE_SETTLE_MS }
        },
{
}

/// Whether a session is on a path that can still end well: its rectangle,
/// once measured, covers a pixel, and the capture in hand can end well.
pub open spec fn session_can_end_well(session: PageLoop) -> bool {
    match session.stage {
        LoopStage::Measuring => true,
        LoopStage::Capturing(capture) => session.region.valid() && crate::capture::can_end_well(
            capture,
        ),
        _ => session.region.valid(),
    }
}

/// Whether the driver's report is one of a driver that serves the session:
/// it tells the window's edges, and its display tier works. Nothing is
/// asked of the first capture tier, of focus or of injected input.
pub open spec fn driver_serves(session: PageLoop, event: Event) -> bool {
    match session.stage {
        LoopStage::Measuring => measured(event) is Some,
        LoopStage::Capturing(capture) => crate::capture::display_works(capture, event),
        _ => true,
    }
}

/// A session does not fail as long as the driver serves it: if the first
/// capture tier fails on every page, every page is captured from the
/// display; if every navigation strategy fails, the user is asked and the
/// session goes on.
pub proof fn lemma_session_survives(pre: PageLoop, event: Event, post: LoopProgress)
    requires
        loop_next(pre, event, post),
        session_can_end_well(pre),
        driver_serves(pre, event),
    ensures
        !(post matches LoopProgress::Finished(Err(_))),
        post matches LoopProgress::Perform(next, _) ==> session_can_end_well(next),
{
    match pre.stage {
        LoopStage::Capturing(capture) => {
            crate::capture::lemma_display_tier_suffices(capture, event, post.inner_capture());
        },
        _ => {},
    }
}

/// One step of a session: the state before it, what the driver reported,
/// and what the session answered.
pub ghost struct SessionStep {
    pub pre: PageLoop,
    pub event: Event,
    pub post: LoopProgress,
}

/// Whether the steps are a run of one session: each is a step of the
/// session, and each but the last hands its state on to the next.
pub open spec fn is_run(steps: Seq<SessionStep>) -> bool {
    &&& forall|i: int|
        0 <= i < steps.len() ==> loop_next(
            (#[trigger] steps[i]).pre,
            steps[i].event,
            steps[i].post,
        )
    &&& forall|i: int| 0 <= i < steps.len() - 1 ==> hands_on(#[trigger] steps[i], steps[i + 1])
}

/// Whether a step hands its state on to the step that follows.
pub open spec fn hands_on(step: SessionStep, following: SessionStep) -> bool {
    step.post matches LoopProgress::Perform(next, _) && following.pre == next
}

/// Whether a step begins the capture of a page.
pub open spec fn begins_capture(step: SessionStep) -> bool {
    step.post matches LoopProgress::Perform(next, _) && next.stage is Capturing && !(
    step.pre.stage is Capturing)
}

/// Whether a step begins an advance to the next page.
pub open spec fn begins_advance(step: SessionStep) -> bool {
    step.post matches LoopProgress::Perform(next, _) && next.stage is Navigating && !(
    step.pre.stage is Navigating)
}

/// Whether a step begins the extra focus routine.
pub open spec fn begins_guard(step: SessionStep) -> bool {
    step.post matches LoopProgress::Perform(next, _) && next.stage is Guarding && !(
    step.pre.stage is Guarding)
}

/// How many of the steps begin a capture.
pub open spec fn captures_begun(steps: Seq<SessionStep>) -> nat
    decreases steps.len(),
{
    if steps.len() == 0 {
        0
    } else {
        captures_begun(steps.drop_last()) + (if begins_capture(steps.last()) {
            1nat
        } else {
            0nat
        })
    }
}

/// How many of the steps begin an advance.
pub open spec fn advances_begun(steps: Seq<SessionStep>) -> nat
    decreases steps.len(),
{
    if steps.len() == 0 {
        0
    } else {
        advances_begun(steps.drop_last()) + (if begins_advance(steps.last()) {
            1nat
        } else {
            0nat
        })
    }
}

/// How many of the steps begin the extra focus routine.
pub open spec fn guards_begun(steps: Seq<SessionStep>) -> nat
    decreases steps.len(),
{
    if steps.len() == 0 {
        0
    } else {
        guards_begun(steps.drop_last()) + (if begins_guard(steps.last()) {
            1nat
        } else {
            0nat
        })
    }
}

/// Whether the counts are those of a session that has come to the given
/// state: a capture was begun for every page up to the page in hand, an
/// advance after each of them but the page in hand, and the extra focus
/// routine once, after the first page.
pub open spec fn counts_match(session: PageLoop, captures: nat, advances: nat, guards: nat)
    -> bool {
    match session.stage {
        LoopStage::Measuring => captures == 0 && advances == 0 && guards == 0,
        LoopStage::Capturing(_) => captures == session.page && advances == session.page - 1
            && guards == (if session.page >= 2 {
            1nat
        } else {
            0nat
        }),
        LoopStage::Guarding(_) | LoopStage::GuardSettle => captures == session.page && advances
            == session.page - 1 && guards == 1 && session.page == 1,
        _ => captures == session.page && advances == session.page && guards == 1,
    }
}

/// Whatever the driver reports, a run that begins with the measuring of the
/// window keeps count: at every point a capture was begun once for each
/// page so far, an advance once after each page before the one in hand,
/// and the extra focus routine once after the first page. A run that ends
/// well has written the files of the pages one to `page_count` in that
/// order, has begun exactly `page_count` captures, so that no page was
/// captured twice, and exactly one advance after every page but the last;
/// the extra focus routine ran exactly once if there was a second page.
pub proof fn lemma_whole_session(steps: Seq<SessionStep>)
    requires
        steps.len() > 0,
        is_run(steps),
        steps[0].pre.stage is Measuring,
        in_order(steps[0].pre),
    ensures
        steps.last().post matches LoopProgress::Perform(next, _) ==> {
            &&& in_order(next)
            &&& next.page_count == steps[0].pre.page_count
            &&& counts_match(
                next,
                captures_begun(steps),
                advances_begun(steps),
                guards_begun(steps),
            )
        },
        steps.last().post matches LoopProgress::Finished(Ok(saved)) ==> {
            let pages = steps[0].pre.page_count;
            &&& texts(saved@) == page_names(pages as int)
            &&& captures_begun(steps) == pages
            &&& advances_begun(steps) == (if pages >= 1 {
                (pages - 1) as nat
            } else {
                0nat
            })
            &&& guards_begun(steps) == (if pages >= 2 {
                1nat
            } else {
                0nat
            })
        },
    decreases steps.len(),
{
    let last = steps.last();
    let before = steps.drop_last();
    assert(loop_next(last.pre, last.event, last.post));
    lemma_page_count_is_kept(last.pre, last.event, last.post);
    if steps.len() == 1 {
        assert(captures_begun(before) == 0);
        assert(advances_begun(before) == 0);
        assert(guards_begun(before) == 0);
        lemma_session_stays_in_order(last.pre, last.event, last.post);
        lemma_session_order(last.pre, last.event, last.post);
    } else {
        assert(is_run(before)) by {
            assert forall|i: int| 0 <= i < before.len() implies loop_next(
                (#[trigger] before[i]).pre,
                before[i].event,
                before[i].post,
            ) by {
                assert(before[i] == steps[i]);
            }
            assert forall|i: int| 0 <= i < before.len() - 1 implies hands_on(
                #[trigger] before[i],
                before[i + 1],
            ) by {
                assert(before[i] == steps[i]);
                assert(before[i + 1] == steps[i + 1]);
            }
        }
        assert(before[0] == steps[0]);
        lemma_whole_session(before);
        let linked = steps[steps.len() - 2];
        assert(before.last() == linked);
        assert(hands_on(linked, steps[steps.len() - 2 + 1]));
        lemma_session_stays_in_order(last.pre, last.event, last.post);
        lemma_session_order(last.pre, last.event, last.post);
    }
}

/// Whether the driver serves the session at every step of a run.
pub open spec fn served(steps: Seq<SessionStep>) -> bool {
    forall|i: int| 0 <= i < steps.len() ==> driver_serves((#[trigger] steps[i]).pre, steps[i].event)
}

/// A run in which the driver serves the session at every step does not end
/// in failure, whatever becomes of the first capture tier and of the
/// injected input. If it has ended, then well, and so, by
/// [`lemma_whole_session`], with the files of all pages in page order.
pub proof fn lemma_served_run_does_not_fail(steps: Seq<SessionStep>)
    requires
        steps.len() > 0,
        is_run(steps),
        served(steps),
        steps[0].pre.stage is Measuring,
    ensures
        !(steps.last().post matches LoopProgress::Finished(Err(_))),
        steps.last().post matches LoopProgress::Perform(next, _) ==> session_can_end_well(next),
    decreases steps.len(),
{
    let last = steps.last();
    assert(loop_next(last.pre, last.event, last.post));
    assert(driver_serves(last.pre, last.event));
    if steps.len() > 1 {
        let before = steps.drop_last();
        assert(is_run(before)) by {
            assert forall|i: int| 0 <= i < before.len() implies loop_next(
                (#[trigger] before[i]).pre,
                before[i].event,
                before[i].post,
            ) by {
                assert(before[i] == steps[i]);
            }
            assert forall|i: int| 0 <= i < before.len() - 1 implies hands_on(
                #[trigger] before[i],
                before[i + 1],
            ) by {
                assert(before[i] == steps[i]);
                assert(before[i + 1] == steps[i + 1]);
            }
        }
        assert(served(before)) by {
            assert forall|i: int| 0 <= i < before.len() implies driver_serves(
                (#[trigger] before[i]).pre,
                before[i].event,
            ) by {
                assert(before[i] == steps[i]);
            }
        }
        assert(before[0] == steps[0]);
        lemma_served_run_does_not_fail(before);
        let linked = steps[steps.len() - 2];
        assert(before.last() == linked);
        assert(hands_on(linked, steps[steps.len() - 2 + 1]));
    }
    lemma_session_survives(last.pre, last.event, last.post);
}

/// A step leaves the number of pages of a session as it is.
proof fn lemma_page_count_is_kept(pre: PageLoop, event: Event, post: LoopProgress)
    requires
        loop_next(pre, event, post),
    ensures
        post matches LoopProgress::Perform(next, _) ==> next.page_count == pre.page_count,
{
}

/// Most steps that a session can still take: those of the page in hand,
/// and a fixed number for each page that is still to come.
pub open spec fn session_steps_left(session: PageLoop) -> int {
    (session.page_count - session.page) * 1000 + match session.stage {
        LoopStage::Measuring => 900,
        LoopStage::Capturing(capture) => 700 + crate::capture::capture_steps_left(capture.stage),
        LoopStage::Guarding(focus) => 600 + crate::focus::steps_left(FocusMode::Guard, focus),
        LoopStage::GuardSettle => 600,
        LoopStage::Navigating(navigator) => 300 + crate::keyboard::nav_steps_left(
            navigator.stage,
        ),
        LoopStage::AwaitingUser => 200,
        LoopStage::PageSettle => 100,
    }
}

/// Whatever the driver reports, a session in order comes to an end: each
/// step leaves fewer steps to take, and never fewer than none.
pub proof fn lemma_session_ends(pre: PageLoop, event: Event, post: LoopProgress)
    requires
        in_order(pre),
        loop_next(pre, event, post),
    ensures
        post matches LoopProgress::Perform(next, _) ==> 0 <= session_steps_left(next)
            < session_steps_left(pre),
{
    match pre.stage {
        LoopStage::Capturing(capture) => {
            crate::capture::lemma_capture_ends(capture, event, post.inner_capture());
        },
        LoopStage::Guarding(focus) => {
            crate::focus::lemma_focus_always_settles(FocusMode::Guard, focus, event);
        },
        LoopStage::Navigating(navigator) => {
            crate::keyboard::lemma_advance_ends(navigator, event);
        },
        _ => {},
    }
}

/// Whether `post` is the first step of a session on a window with the
/// given title: its rectangle is asked for, where the platform can tell.
pub open spec fn loop_first(
    handle: WindowHandle,
    title: Seq<char>,
    page_count: u32,
    post: LoopProgress,
) -> bool {
    if handle is Windows {
        &&& post matches LoopProgress::Perform(next, action)
        &&& action == Action::QueryWindowEdges
        &&& next.stage == LoopStage::Measuring
        &&& next.handle == handle
        &&& next.method == method_for_title(lowercased(title))
        &&& next.page_count == page_count
        &&& next.page == 0
        &&& next.saved@.len() == 0
    } else {
        post.fails_with(ErrorModel::UnsupportedPlatform)
    }
}

/// Begins a session that captures `page_count` pages of a window.
pub fn capture_pages(window: &WindowInfo, page_count: u32) -> (r: LoopProgress)
    ensures
        loop_first(window.handle, window.title@, page_count, r),
{
    match window.handle {
        WindowHandle::Windows(_) => LoopProgress::Perform(
            PageLoop {
                handle: window.handle,
                method: NavigationMethod::for_program(window.title.as_str()),
                page_count,
                page: 0,
                region: WindowRect { x: 0, y: 0, width: 0, height: 0 },
                saved: Vec::new(),
                stage: LoopStage::Measuring,
            },
            Action::QueryWindowEdges,
        ),
        _ => LoopProgress::Finished(Err(EbCaptureError::UnsupportedPlatform)),
    }
}

fn measure(event: &Event) -> (r: Option<WindowRect>)
    ensures
        r == measured(*event),
{
    match event {
        Event::WindowEdges { left, top, right, bottom } => {
            match WindowRect::from_edges(*left, *top, *right, *bottom) {
                Some(rect) => if rect.is_valid() {
                    Some(rect)
                } else {
                    None
                },
                None => None,
            }
        },
        _ => None,
    }
}

impl PageLoop {
    fn go_on(self, stage: LoopStage, action: Action) -> (r: LoopProgress)
        ensures
            r.goes_on(self, stage, action),
    {
        LoopProgress::Perform(
            PageLoop {
                handle: self.handle,
                method: self.method,
                page_count: self.page_count,
                page: self.page,
                region: self.region,
                saved: self.saved,
                stage,
            },
            action,
        )
    }

    fn capture(self, page: u32, region: WindowRect) -> (r: LoopProgress)
        ensures
            r.captures(self, page, region),
    {
        let (capture, action) = begin_capture(self.handle, &region, page_file(page));
        LoopProgress::Perform(
            PageLoop {
                handle: self.handle,
                method: self.method,
                page_count: self.page_count,
                page,
                region,
                saved: self.saved,
                stage: LoopStage::Capturing(capture),
            },
            action,
        )
    }

    fn navigate(self) -> (r: LoopProgress)
        ensures
            r.navigates(self),
    {
        let (navigator, action) = Navigator::start(self.method);
        LoopProgress::Perform(
            PageLoop {
                handle: self.handle,
                method: self.method,
                page_count: self.page_count,
                page: self.page,
                region: self.region,
                saved: self.saved,
                stage: LoopStage::Navigating(navigator),
            },
            action,
        )
    }

    fn written(self) -> (r: LoopProgress)
        ensures
            r.page_written(self),
    {
        let ghost before = texts(self.saved@);
        let ghost name = page_file_name(self.page as nat);
        let mut saved: Vec<String> = self.saved;
        saved.push(page_file(self.page));
        assert(texts(saved@) =~= before.push(name));
        if self.page >= self.page_count {
            return LoopProgress::Finished(Ok(saved));
        }
        if self.page == 1 {
            let (guard, action) = FocusGuard::start(FocusMode::Guard);
            LoopProgress::Perform(
                PageLoop {
                    handle: self.handle,
                    method: self.method,
                    page_count: self.page_count,
                    page: self.page,
                    region: self.region,
                    saved,
                    stage: LoopStage::Guarding(guard.stage),
                },
                action,
            )
        } else {
            let (navigator, action) = Navigator::start(self.method);
            LoopProgress::Perform(
                PageLoop {
                    handle: self.handle,
                    method: self.method,
                    page_count: self.page_count,
                    page: self.page,
                    region: self.region,
                    saved,
                    stage: LoopStage::Navigating(navigator),
                },
                action,
            )
        }
    }

    /// Takes the driver's report on the last action and says what comes
    /// next.
    pub fn step(self, event: Event) -> (r: LoopProgress)
        ensures
            loop_next(self, event, r),
    {
        let PageLoop { handle, method, page_count, page, region, saved, stage } = self;
        match stage {
            LoopStage::Measuring => match measure(&event) {
                Some(rect) => {
                    let rest = PageLoop {
                        handle,
                        method,
                        page_count,
                        page,
                        region,
                        saved,
                        stage: LoopStage::Measuring,
                    };
                    if page_count == 0 {
                        LoopProgress::Finished(Ok(rest.saved))
                    } else {
                        rest.capture(1, rect)
                    }
                },
                None => LoopProgress::Finished(
                    Err(
                        EbCaptureError::capture_failure("window rectangle could not be determined"),
                    ),
                ),
            },
            LoopStage::Capturing(capture) => match capture.step(event) {
                CaptureProgress::Perform(next, action) => LoopProgress::Perform(
                    PageLoop {
                        handle,
                        method,
                        page_count,
                        page,
                        region,
                        saved,
                        stage: LoopStage::Capturing(next),
                    },
                    action,
                ),
                CaptureProgress::Finished(Ok(_)) => {
                    let rest = PageLoop {
                        handle,
                        method,
                        page_count,
                        page,
                        region,
                        saved,
                        stage: LoopStage::PageSettle,
                    };
                    rest.written()
                },
                CaptureProgress::Finished(Err(e)) => LoopProgress::Finished(Err(e)),
            },
            LoopStage::Guarding(focus) => {
                let rest = PageLoop {
                    handle,
                    method,
                    page_count,
                    page,
                    region,
                    saved,
                    stage: LoopStage::GuardSettle,
                };
                let guard = FocusGuard { mode: FocusMode::Guard, stage: focus };
                match guard.step(&event) {
                    FocusProgress::Perform(next, action) => rest.go_on(
                        LoopStage::Guarding(next.stage),
                        action,
                    ),
                    FocusProgress::Complete => rest.go_on(
                        LoopStage::GuardSettle,
                        Action::Sleep { millis: FIRST_PAGE_WAIT_MS },
                    ),
                }
            },
            LoopStage::GuardSettle => {
                let rest = PageLoop {
                    handle,
                    method,
                    page_count,
                    page,
                    region,
                    saved,
                    stage: LoopStage::GuardSettle,
                };
                rest.navigate()
            },
            LoopStage::Navigating(navigator) => {
                let rest = PageLoop {
                    handle,
                    method,
                    page_count,
                    page,
                    region,
                    saved,
                    stage: LoopStage::GuardSettle,
                };
                match navigator.step(&event) {
                    NavProgress::Perform(next, action) => rest.go_on(
                        LoopStage::Navigating(next),
                        action,
                    ),
                    NavProgress::Finished(Ok(_)) => rest.go_on(
                        LoopStage::PageSettle,
                        Action::Sleep { millis: PAGE_SETTLE_MS },
                    ),
                    NavProgress::Finished(Err(_)) => rest.go_on(
                        LoopStage::AwaitingUser,
                        Action::PromptManualNavigation,
                    ),
                }
            },
            LoopStage::AwaitingUser => {
                let rest = PageLoop {
                    handle,
                    method,
                    page_count,
                    page,
                    region,
                    saved,
                    stage: LoopStage::AwaitingUser,
                };
                rest.go_on(LoopStage::PageSettle, Action::Sleep { millis: PAGE_SETTLE_MS })
            },
            LoopStage::PageSettle => {
                let rest = PageLoop {
                    handle,
                    method,
                    page_count,
                    page,
                    region,
                    saved,
                    stage: LoopStage::PageSettle,
                };
                if page < page_count {
                    rest.capture(page + 1, region)
                } else {
                    LoopProgress::Finished(Ok(rest.saved))
                }
            },
        }
    }
}

/// Megabytes of free disk space that a session needs.
pub const REQUIRED_DISK_MB: u64 = 100;

/// Megabytes of free disk space. The platform is not asked; a fixed amount
/// is taken to be free.
pub fn get_available_disk_space() -> (r: Result<u64, EbCaptureError>)
    ensures
        r == Ok::<u64, EbCaptureError>(1000),
{
    Ok(1000)
}

/// Refuses to begin with less free disk space than a session needs.
pub fn check_system_environment(available_mb: u64) -> (r: Result<(), EbCaptureError>)
    ensures
        available_mb >= REQUIRED_DISK_MB ==> r is Ok,
        available_mb < REQUIRED_DISK_MB ==> r == Err::<(), EbCaptureError>(
            EbCaptureError::InsufficientDiskSpace { required_mb: REQUIRED_DISK_MB },
        ),
{
    if available_mb < REQUIRED_DISK_MB {
        Err(EbCaptureError::InsufficientDiskSpace { required_mb: REQUIRED_DISK_MB })
    } else {
        Ok(())
    }
}

/// Refuses to go on when no program is offered for capture.
pub fn ensure_programs(count: usize) -> (r: Result<(), EbCaptureError>)
    ensures
        count > 0 ==> r is Ok,
        count == 0 ==> r == Err::<(), EbCaptureError>(EbCaptureError::NoEbookPrograms),
{
    if count == 0 {
        Err(EbCaptureError::NoEbookPrograms)
    } else {
        Ok(())
    }
}

/// Largest number of pages in one session.
pub const MAX_PAGES: u32 = 999;

/// The text shown for a page count out of range.
pub open spec fn page_count_refused(count: u32) -> Seq<char> {
    "page count out of range: "@ + decimal(count as nat)
}

/// Takes a page count between one and [`MAX_PAGES`]; any other is refused
/// as invalid input.
pub fn check_page_count(count: u32) -> (r: Result<u32, EbCaptureError>)
    ensures
        1 <= count <= MAX_PAGES ==> r == Ok::<u32, EbCaptureError>(count),
        !(1 <= count <= MAX_PAGES) ==> (r matches Err(e) && e@ == (ErrorModel::InvalidInput {
            input: page_count_refused(count),
        })),
{
    if count < 1 || count > MAX_PAGES {
        let mut input: String = String::from_str("page count out of range: ");
        append_decimal(&mut input, count as u64);
        Err(EbCaptureError::InvalidInput { input })
    } else {
        Ok(count)
    }
}

/// Reads the page count from a line of input: the line without the white
/// space around it must be a number, and the number in range.
pub fn get_page_count(line: &str) -> (r: Result<u32, EbCaptureError>)
    ensures
        match parsed_u32(trimmed(line@)) {
            Some(count) => if 1 <= count <= MAX_PAGES {
                r == Ok::<u32, EbCaptureError>(count)
            } else {
                r matches Err(e) && e@ == (ErrorModel::InvalidInput {
                    input: page_count_refused(count),
                })
            },
            None => r matches Err(e) && e@ == (ErrorModel::InvalidInput {
                input: trimmed(line@),
            }),
        },
{
    let text: &str = trim(line);
    match parse_u32(text) {
        Some(count) => check_page_count(count),
        None => Err(EbCaptureError::InvalidInput { input: text.to_owned() }),
    }
}

/// The text shown for a selection out of range.
pub open spec fn selection_refused(selection: usize) -> Seq<char> {
    "number out of range: "@ + decimal(selection as nat)
}

/// Turns the number that the user picked, counted from one, into a
/// position in the list of `count` programs; a number outside the list is
/// refused as invalid input.
pub fn check_selection(selection: usize, count: usize) -> (r: Result<usize, EbCaptureError>)
    ensures
        1 <= selection <= count ==> r == Ok::<usize, EbCaptureError>((selection - 1) as usize),
        !(1 <= selection <= count) ==> (r matches Err(e) && e@ == (ErrorModel::InvalidInput {
            input: selection_refused(selection),
        })),
{
    if selection < 1 || selection > count {
        let mut input: String = String::from_str("number out of range: ");
        append_decimal(&mut input, selection as u64);
        Err(EbCaptureError::InvalidInput { input })
    } else {
        Ok(selection - 1)
    }
}

/// Reads the user's pick from a line of input and turns it into a position
/// in the list of `count` programs.
pub fn select_program_from_all(line: &str, count: usize) -> (r: Result<usize, EbCaptureError>)
    ensures
        match parsed_usize(trimmed(line@)) {
            Some(selection) => if 1 <= selection <= count {
                r == Ok::<usize, EbCaptureError>((selection - 1) as usize)
            } else {
                r matches Err(e) && e@ == (ErrorModel::InvalidInput {
                    input: selection_refused(selection),
                })
            },
            None => r matches Err(e) && e@ == (ErrorModel::InvalidInput {
                input: trimmed(line@),
            }),
        },
{
    let text: &str = trim(line);
    match parse_usize(text) {
        Some(selection) => check_selection(selection, count),
        None => Err(EbCaptureError::InvalidInput { input: text.to_owned() }),
    }
}

/// Whether an answer in lower case, without white space around it, says
/// yes.
pub fn is_yes(answer: &str) -> (yes: bool)
    ensures
        yes == (answer@ == seq!['y']),
{
    if answer.unicode_len() != 1 {
        return false;
    }
    let c: char = answer.get_char(0);
    proof {
        if c == 'y' {
            assert(answer@ =~= seq!['y']);
        }
    }
    c == 'y'
}

/// Whether the user's answer asks for the page images to be deleted: the
/// letter y, in either case, with or without white space around it.
pub fn cleanup_temp_files(line: &str) -> (delete: bool)
    ensures
        delete == (lowercased(trimmed(line@)) == seq!['y']),
{
    let answer: String = to_lowercase(trim(line));
    is_yes(answer.as_str())
}

/// Keywords, in lower case, that mark the title of an e-book reader.
pub open spec fn ebook_keywords() -> Seq<Seq<char>> {
    seq![
        "알라딘"@,
        "aladin"@,
        "alladinebook"@,
        "aladinebook"@,
        "알라딘이북"@,
        "알라딘북"@,
        "리디"@,
        "ridi"@,
        "ridibookx"@,
        "ridibooks"@,
        "yes24"@,
        "예스24"@,
        "yes24ebook"@,
        "크레마"@,
        "crema"@,
        "cremaker"@,
        "교보"@,
        "kyobo"@,
        "kyobobook"@,
        "교보문고"@,
        "밀리의"@,
        "millie"@,
        "millielib"@,
        "adobe digital editions"@,
        "digital editions"@,
        "kindle"@,
        "amazon kindle"@,
        "calibre"@,
        "calibre-ebook"@,
        "epub"@,
        "epub reader"@,
        "epubreader"@,
        "pdf"@,
        "pdf reader"@,
        "pdfreader"@,
        "bookviewer"@,
        "book viewer"@,
        "ebookviewer"@,
        "ebook viewer"@,
        "viewer"@,
        "reader"@,
    ]
}

/// The keywords of [`ebook_keywords`].
pub fn ebook_keyword_list() -> (words: Vec<&'static str>)
    ensures
        word_texts(words@) == ebook_keywords(),
{
    let words: Vec<&'static str> = vec![
        "알라딘",
        "aladin",
        "alladinebook",
        "aladinebook",
        "알라딘이북",
        "알라딘북",
        "리디",
        "ridi",
        "ridibookx",
        "ridibooks",
        "yes24",
        "예스24",
        "yes24ebook",
        "크레마",
        "crema",
        "cremaker",
        "교보",
        "kyobo",
        "kyobobook",
        "교보문고",
        "밀리의",
        "millie",
        "millielib",
        "adobe digital editions",
        "digital editions",
        "kindle",
        "amazon kindle",
        "calibre",
        "calibre-ebook",
        "epub",
        "epub reader",
        "epubreader",
        "pdf",
        "pdf reader",
        "pdfreader",
        "bookviewer",
        "book viewer",
        "ebookviewer",
        "ebook viewer",
        "viewer",
        "reader",
    ];
    assert(word_texts(words@) =~= ebook_keywords());
    words
}

/// Titles, in lower case, of windows of the desktop shell.
pub open spec fn shell_titles() -> Seq<Seq<char>> {
    seq![
        "dwm"@,
        "explorer"@,
        "winlogon"@,
        "csrss"@,
        "smss"@,
        "wininit"@,
        "taskbar"@,
        "start menu"@,
        "cortana"@,
        "search"@,
        "notification"@,
        "program manager"@,
    ]
}

/// The titles of [`shell_titles`].
pub fn shell_title_list() -> (words: Vec<&'static str>)
    ensures
        word_texts(words@) == shell_titles(),
{
    let words: Vec<&'static str> = vec![
        "dwm",
        "explorer",
        "winlogon",
        "csrss",
        "smss",
        "wininit",
        "taskbar",
        "start menu",
        "cortana",
        "search",
        "notification",
        "program manager",
    ];
    assert(word_texts(words@) =~= shell_titles());
    words
}

/// How a program is shown to the user.
#[derive(Debug, Clone, Copy, PartialEq, Eq, Structural)]
pub enum ProgramKind {
    /// Not shown: it has no name to speak of, or belongs to the shell.
    Hidden,
    /// Shown among the likely e-book readers.
    EbookCandidate,
    /// Shown among the other programs.
    Other,
}

/// The kind of a program by its title in lower case, given whether that
/// title is blank.
pub open spec fn kind_of_title(lower: Seq<char>, blank: bool) -> ProgramKind {
    if is_nameless(lower, blank) || any_occurs_in(shell_titles(), lower) {
        ProgramKind::Hidden
    } else if any_occurs_in(ebook_keywords(), lower) {
        ProgramKind::EbookCandidate
    } else {
        ProgramKind::Other
    }
}

/// The kind of a program by its title.
pub open spec fn kind_of(title: Seq<char>) -> ProgramKind {
    kind_of_title(lowercased(title), trimmed(lowercased(title)).len() == 0)
}

/// Tells the kind of a program from its title in lower case.
pub fn classify_title(lower: &str, blank: bool) -> (kind: ProgramKind)
    ensures
        kind == kind_of_title(lower@, blank),
{
    if blank || lower.len() < 3 {
        return ProgramKind::Hidden;
    }
    let shell = shell_title_list();
    if contains_any(lower, &shell) {
        return ProgramKind::Hidden;
    }
    let keywords = ebook_keyword_list();
    if contains_any(lower, &keywords) {
        ProgramKind::EbookCandidate
    } else {
        ProgramKind::Other
    }
}

/// Tells the kind of a program from its title.
pub fn classify_program(title: &str) -> (kind: ProgramKind)
    ensures
        kind == kind_of(title@),
{
    let lower: String = to_lowercase(title);
    let blank: bool = trim(lower.as_str()).is_empty();
    classify_title(lower.as_str(), blank)
}

/// Splits the running programs into likely e-book readers and others, each
/// in the order of the list; hidden programs are in neither.
pub fn separate_ebook_candidates(programs: &Vec<WindowInfo>) -> (r: (
    Vec<WindowInfo>,
    Vec<WindowInfo>,
))
    ensures
        window_models(r.0@) == window_models(programs@).filter(
            |w: WindowModel| kind_of(w.title) == ProgramKind::EbookCandidate,
        ),
        window_models(r.1@) == window_models(programs@).filter(
            |w: WindowModel| kind_of(w.title) == ProgramKind::Other,
        ),
{
    let ghost is_candidate = |w: WindowModel| kind_of(w.title) == ProgramKind::EbookCandidate;
    let ghost is_other = |w: WindowModel| kind_of(w.title) == ProgramKind::Other;
    let ghost all = window_models(programs@);
    let mut candidates: Vec<WindowInfo> = Vec::new();
    let mut others: Vec<WindowInfo> = Vec::new();
    let mut i: usize = 0;
    proof {
        reveal(Seq::filter);
        assert(all.take(0).filter(is_candidate) =~= Seq::<WindowModel>::empty());
        assert(all.take(0).filter(is_other) =~= Seq::<WindowModel>::empty());
        assert(window_models(candidates@) =~= Seq::<WindowModel>::empty());
        assert(window_models(others@) =~= Seq::<WindowModel>::empty());
    }
    while i < programs.len()
        invariant
            i <= programs.len(),
            all == window_models(programs@),
            is_candidate == (|w: WindowModel| kind_of(w.title) == ProgramKind::EbookCandidate),
            is_other == (|w: WindowModel| kind_of(w.title) == ProgramKind::Other),
            window_models(candidates@) == all.take(i as int).filter(is_candidate),
            window_models(others@) == all.take(i as int).filter(is_other),
        decreases programs.len() - i,
    {
        let ghost candidates_before = window_models(candidates@);
        let ghost others_before = window_models(others@);
        proof {
            reveal(Seq::filter);
            assert(all.take(i + 1).drop_last() =~= all.take(i as int));
            assert(all.take(i + 1).last() == programs@[i as int]@);
        }
        match classify_program(programs[i].title.as_str()) {
            ProgramKind::EbookCandidate => {
                candidates.push(programs[i].clone());
                assert(window_models(candidates@) =~= candidates_before.push(
                    programs@[i as int]@,
                ));
            },
            ProgramKind::Other => {
                others.push(programs[i].clone());
                assert(window_models(others@) =~= others_before.push(programs@[i as int]@));
            },
            ProgramKind::Hidden => {},
        }
        i = i + 1;
    }
    assert(all.take(programs@.len() as int) =~= all);
    (candidates, others)
}

} // verus!
