//! Windows on screen: who they are and where they are.

use vstd::prelude::*;
use crate::driver::Action;
use crate::error::{EbCaptureError, ErrorModel};
use crate::focus::{FRONT_SETTLE_MS, FocusGuard, FocusMode, FocusStage, first_stage};
use crate::text::{
    any_occurs_in, byte_len, contains_any, lowercased, to_lowercase, trim, trimmed, word_texts,
};

verus! {

/// Platform reference of a window. It is borrowed for one capture session
/// and only ever handed back to the platform.
#[derive(Debug, Clone, Copy, PartialEq, Eq, Structural)]
pub enum WindowHandle {
    /// A window handle of the Windows desktop.
    Windows(isize),
    /// A window number of the macOS window server.
    MacOS(u32),
    /// A platform without window support.
    Unsupported,
}

/// The window that a session captures.
#[derive(Debug, PartialEq, Eq)]
pub struct WindowInfo {
    pub title: String,
    pub pid: u32,
    pub handle: WindowHandle,
}

/// Mathematical model of a window: its title as a character sequence, its
/// process and its platform reference.
pub ghost struct WindowModel {
    pub title: Seq<char>,
    pub pid: u32,
    pub handle: WindowHandle,
}

impl View for WindowInfo {
    type V = WindowModel;

    open spec fn view(&self) -> WindowModel {
        WindowModel { title: self.title@, pid: self.pid, handle: self.handle }
    }
}

impl Clone for WindowInfo {
    fn clone(&self) -> (r: Self)
        ensures
            r@ == self@,
    {
        WindowInfo { title: self.title.clone(), pid: self.pid, handle: self.handle }
    }
}

/// The models of a list of windows.
pub open spec fn window_models(windows: Seq<WindowInfo>) -> Seq<WindowModel> {
    Seq::new(windows.len(), |i: int| windows[i]@)
}

/// Titles, in lower case, of windows that belong to the system.
pub open spec fn system_titles() -> Seq<Seq<char>> {
    seq![
        "dwm"@,
        "winlogon"@,
        "csrss"@,
        "smss"@,
        "wininit"@,
        "program manager"@,
        "desktop window manager"@,
    ]
}

/// The titles of [`system_titles`].
pub fn system_title_list() -> (words: Vec<&'static str>)
    ensures
        word_texts(words@) == system_titles(),
{
    let words: Vec<&'static str> = vec![
        "dwm",
        "winlogon",
        "csrss",
        "smss",
        "wininit",
        "program manager",
        "desktop window manager",
    ];
    assert(word_texts(words@) =~= system_titles());
    words
}

/// Whether a lower-case title is too short to name a program: nothing but
/// white space, or fewer than three bytes.
pub open spec fn is_nameless(lower: Seq<char>, blank: bool) -> bool {
    blank || byte_len(lower) < 3
}

/// Whether a window with this title is offered for capture: the title, in
/// lower case, names something and names no window of the system.
pub open spec fn is_listed(title: Seq<char>) -> bool {
    let lower = lowercased(title);
    !is_nameless(lower, trimmed(lower).len() == 0) && !any_occurs_in(system_titles(), lower)
}

/// Tells whether a window is offered for capture, given its title in lower
/// case and whether that title is blank.
pub fn lists_title(lower: &str, blank: bool) -> (listed: bool)
    ensures
        listed == (!is_nameless(lower@, blank) && !any_occurs_in(system_titles(), lower@)),
{
    if blank || lower.len() < 3 {
        return false;
    }
    let system = system_title_list();
    !contains_any(lower, &system)
}

/// Tells whether a window with this title is offered for capture.
pub fn lists_window(title: &str) -> (listed: bool)
    ensures
        listed == is_listed(title@),
{
    let lower: String = to_lowercase(title);
    let blank: bool = trim(lower.as_str()).is_empty();
    lists_title(lower.as_str(), blank)
}

/// Keeps the windows that are offered for capture, in their order.
pub fn filter_valid_windows(windows: Vec<WindowInfo>) -> (kept: Vec<WindowInfo>)
    ensures
        window_models(kept@) == window_models(windows@).filter(
            |w: WindowModel| is_listed(w.title),
        ),
{
    let ghost listed = |w: WindowModel| is_listed(w.title);
    let ghost all = window_models(windows@);
    let mut kept: Vec<WindowInfo> = Vec::new();
    let mut i: usize = 0;
    proof {
        reveal(Seq::filter);
        assert(all.take(0).filter(listed) =~= Seq::<WindowModel>::empty());
        assert(window_models(kept@) =~= Seq::<WindowModel>::empty());
    }
    while i < windows.len()
        invariant
            i <= windows.len(),
            all == window_models(windows@),
            listed == (|w: WindowModel| is_listed(w.title)),
            window_models(kept@) == all.take(i as int).filter(listed),
        decreases windows.len() - i,
    {
        let ghost before = window_models(kept@);
        proof {
            reveal(Seq::filter);
            assert(all.take(i + 1).drop_last() =~= all.take(i as int));
            assert(all.take(i + 1).last() == windows@[i as int]@);
        }
        if lists_window(windows[i].title.as_str()) {
            kept.push(windows[i].clone());
            assert(window_models(kept@) =~= before.push(windows@[i as int]@));
        }
        i = i + 1;
    }
    assert(all.take(windows@.len() as int) =~= all);
    kept
}

/// Keeps the windows among those found on screen that are offered for
/// capture.
pub fn detect_all_programs(all_windows: Vec<WindowInfo>) -> (kept: Vec<WindowInfo>)
    ensures
        window_models(kept@) == window_models(all_windows@).filter(
            |w: WindowModel| is_listed(w.title),
        ),
{
    filter_valid_windows(all_windows)
}

/// Takes one window of an enumeration into the list if it is visible and
/// has a title that is not blank.
pub fn enum_windows_proc(
    windows: &mut Vec<WindowInfo>,
    handle: isize,
    visible: bool,
    title: String,
    pid: u32,
)
    ensures
        visible && title@.len() > 0 && trimmed(title@).len() > 0 ==> window_models(final(windows)@)
            == window_models(old(windows)@).push(
            WindowModel { title: title@, pid, handle: WindowHandle::Windows(handle) },
        ),
        !(visible && title@.len() > 0 && trimmed(title@).len() > 0) ==> final(windows)@ == old(
            windows,
        )@,
{
    if !visible {
        return ;
    }
    if title.as_str().is_empty() {
        return ;
    }
    if trim(title.as_str()).is_empty() {
        return ;
    }
    let ghost before = window_models(windows@);
    let ghost model = WindowModel { title: title@, pid, handle: WindowHandle::Windows(handle) };
    windows.push(WindowInfo { title, pid, handle: WindowHandle::Windows(handle) });
    assert(window_models(windows@) =~= before.push(model));
}

/// The windows of a macOS desktop: none are listed on that platform.
pub fn get_macos_windows() -> (r: Result<Vec<WindowInfo>, EbCaptureError>)
    ensures
        r matches Ok(windows) && windows@.len() == 0,
{
    Ok(Vec::new())
}

/// Activation of a macOS window: nothing is done on that platform.
pub fn activate_window_macos(handle: &WindowHandle) -> (r: Result<(), EbCaptureError>)
    ensures
        r is Ok,
{
    Ok(())
}

/// Reason given when the platform does not tell a window's edges.
pub open spec fn edges_unknown() -> Seq<char> {
    "window rectangle could not be read"@
}

/// The rectangle between the reported edges, where there are any and no
/// side is longer than the coordinate type can say.
pub open spec fn rect_of_edges(edges: Option<(i32, i32, i32, i32)>) -> Option<WindowRect> {
    match edges {
        Some((left, top, right, bottom)) => if i32::MIN <= right - left <= i32::MAX && i32::MIN
            <= bottom - top <= i32::MAX {
            Some(
                WindowRect {
                    x: left,
                    y: top,
                    width: (right - left) as i32,
                    height: (bottom - top) as i32,
                },
            )
        } else {
            None
        },
        None => None,
    }
}

/// Whether `r` is the rectangle between the reported edges, or the failure
/// to read one.
pub open spec fn reads_rect(
    r: Result<WindowRect, EbCaptureError>,
    edges: Option<(i32, i32, i32, i32)>,
) -> bool {
    match rect_of_edges(edges) {
        Some(rect) => r == Ok::<WindowRect, EbCaptureError>(rect),
        None => r matches Err(e) && e@ == (ErrorModel::CaptureFailure { reason: edges_unknown() }),
    }
}

/// The rectangle of a window from the edges that the platform reported, if
/// it reported any.
pub fn get_window_rect_windows(edges: Option<(i32, i32, i32, i32)>) -> (r: Result<
    WindowRect,
    EbCaptureError,
>)
    ensures
        reads_rect(r, edges),
{
    match edges {
        Some((left, top, right, bottom)) => match WindowRect::from_edges(left, top, right, bottom) {
            Some(rect) => Ok(rect),
            None => Err(EbCaptureError::capture_failure("window rectangle could not be read")),
        },
        None => Err(EbCaptureError::capture_failure("window rectangle could not be read")),
    }
}

/// The rectangle of a window on screen. Only the Windows desktop tells it;
/// on any other platform the answer is `UnsupportedPlatform`, whatever was
/// reported.
pub fn get_window_rect(window: &WindowInfo, edges: Option<(i32, i32, i32, i32)>) -> (r: Result<
    WindowRect,
    EbCaptureError,
>)
    ensures
        window.handle is Windows ==> reads_rect(r, edges),
        !(window.handle is Windows) ==> (r matches Err(e) && e@ == ErrorModel::UnsupportedPlatform),
{
    match window.handle {
        WindowHandle::Windows(_) => get_window_rect_windows(edges),
        _ => Err(EbCaptureError::UnsupportedPlatform),
    }
}

/// Begins the routine that brings a window of the Windows desktop to the
/// front.
pub fn bring_window_to_front_windows(handle: &WindowHandle) -> (r: (FocusGuard, Action))
    ensures
        r.0.mode == FocusMode::BringToFront,
        (r.0.stage, r.1) == first_stage(FocusMode::BringToFront),
{
    FocusGuard::start(FocusMode::BringToFront)
}

/// Begins bringing the chosen window to the front before a session. On the
/// Windows desktop the whole routine is run; on macOS nothing is done but
/// to wait for the settle interval; any other platform is refused.
pub fn activate_and_bring_to_front(window: &WindowInfo) -> (r: Result<
    (FocusGuard, Action),
    EbCaptureError,
>)
    ensures
        match window.handle {
            WindowHandle::Windows(_) => r matches Ok((guard, action)) && guard.mode
                == FocusMode::BringToFront && (guard.stage, action) == first_stage(
                FocusMode::BringToFront,
            ),
            WindowHandle::MacOS(_) => r matches Ok((guard, action)) && guard == (FocusGuard {
                mode: FocusMode::BringToFront,
                stage: FocusStage::Settling,
            }) && action == (Action::Sleep { millis: FRONT_SETTLE_MS }),
            WindowHandle::Unsupported => r matches Err(e) && e@ == ErrorModel::UnsupportedPlatform,
        },
{
    match window.handle {
        WindowHandle::Windows(_) => Ok(bring_window_to_front_windows(&window.handle)),
        WindowHandle::MacOS(_) => Ok(
            (
                FocusGuard { mode: FocusMode::BringToFront, stage: FocusStage::Settling },
                Action::Sleep { millis: FRONT_SETTLE_MS },
            ),
        ),
        WindowHandle::Unsupported => Err(EbCaptureError::UnsupportedPlatform),
    }
}

/// An axis-aligned rectangle in screen coordinates.
#[derive(Debug, Clone, Copy, PartialEq, Eq, Structural)]
pub struct WindowRect {
    pub x: i32,
    pub y: i32,
    pub width: i32,
    pub height: i32,
}

/// Smallest width and height that a rectangle is cut down to.
pub const MIN_REGION_SIZE: i32 = 100;

impl WindowRect {
    /// A rectangle covers at least one pixel.
    pub open spec fn valid(self) -> bool {
        self.width > 0 && self.height > 0
    }

    /// Whether the rectangle covers at least one pixel.
    pub fn is_valid(&self) -> (b: bool)
        ensures
            b == self.valid(),
    {
        self.width > 0 && self.height > 0
    }

    /// Whether the rectangle lies within an image of the given size whose
    /// top left corner is the origin.
    pub open spec fn lies_within(self, img_width: int, img_height: int) -> bool {
        self.x >= 0 && self.y >= 0 && self.x + self.width <= img_width && self.y + self.height
            <= img_height
    }

    /// The rectangle between two corners, as the platform reports a window:
    /// left and top edge, then right and bottom edge. `None` where a side is
    /// longer than the coordinate type can say.
    pub fn from_edges(left: i32, top: i32, right: i32, bottom: i32) -> (r: Option<WindowRect>)
        ensures
            r is Some <==> i32::MIN <= right - left <= i32::MAX && i32::MIN <= bottom - top
                <= i32::MAX,
            r matches Some(rect) ==> rect.x == left && rect.y == top && rect.width == right - left
                && rect.height == bottom - top,
    {
        match (right.checked_sub(left), bottom.checked_sub(top)) {
            (Some(width), Some(height)) => Some(WindowRect { x: left, y: top, width, height }),
            _ => None,
        }
    }
}

/// The smaller of two lengths.
pub open spec fn shorter(a: int, b: int) -> int {
    if a < b {
        a
    } else {
        b
    }
}

/// A length raised to the minimum size.
pub open spec fn floored(a: int) -> int {
    if a > MIN_REGION_SIZE {
        a
    } else {
        MIN_REGION_SIZE as int
    }
}

/// An offset moved to the image's edge if it lies before it.
pub open spec fn from_edge(offset: int) -> int {
    if offset > 0 {
        offset
    } else {
        0
    }
}

/// How long the cut is along one axis for a rectangle that does not lie
/// within the image: what the image holds beyond the rectangle's corner,
/// but no more than the rectangle is long, no less than the minimum size,
/// and no more than the image is long.
pub open spec fn fitted_extent(offset: int, extent: int, full: int) -> int {
    shorter(floored(shorter(extent, full - from_edge(offset))), full)
}

/// Where the cut begins along one axis for a rectangle that does not lie
/// within the image: at the rectangle's corner, moved into the image and
/// then back as far as the cut needs to end within the image.
pub open spec fn fitted_origin(offset: int, extent: int, full: int) -> int {
    shorter(from_edge(offset), full - fitted_extent(offset, extent, full))
}

/// The part of an image that is cut out for a rectangle, as left edge, top
/// edge, width and height.
///
/// A rectangle within the image is taken as it is. Any other is fitted
/// along both axes: shortened to what the image holds, raised to the
/// minimum size where the image is that large, and moved so that it lies
/// within the image.
pub open spec fn clamped_region(rect: WindowRect, img_width: int, img_height: int) -> (
    int,
    int,
    int,
    int,
) {
    if rect.lies_within(img_width, img_height) {
        (rect.x as int, rect.y as int, rect.width as int, rect.height as int)
    } else {
        (
            fitted_origin(rect.x as int, rect.width as int, img_width),
            fitted_origin(rect.y as int, rect.height as int, img_height),
            fitted_extent(rect.x as int, rect.width as int, img_width),
            fitted_extent(rect.y as int, rect.height as int, img_height),
        )
    }
}

/// Fits one axis of a rectangle to an image: where the cut begins and how
/// long it is.
fn fit_axis(offset: i32, extent: i32, full: u32) -> (r: (u32, u32))
    requires
        extent > 0,
    ensures
        r.0 == fitted_origin(offset as int, extent as int, full as int),
        r.1 == fitted_extent(offset as int, extent as int, full as int),
{
    let full: i64 = full as i64;
    let start: i64 = if offset > 0 {
        offset as i64
    } else {
        0
    };
    let room: i64 = full - start;
    let held: i64 = if (extent as i64) < room {
        extent as i64
    } else {
        room
    };
    let raised: i64 = if held > 100 {
        held
    } else {
        100
    };
    let length: i64 = if raised < full {
        raised
    } else {
        full
    };
    let origin: i64 = if start < full - length {
        start
    } else {
        full - length
    };
    (origin as u32, length as u32)
}

/// Fits a rectangle to an image of the given size.
pub fn clamp_region(rect: &WindowRect, img_width: u32, img_height: u32) -> (r: (u32, u32, u32, u32))
    requires
        rect.valid(),
    ensures
        (r.0 as int, r.1 as int, r.2 as int, r.3 as int) == clamped_region(
            *rect,
            img_width as int,
            img_height as int,
        ),
{
    let x: i64 = rect.x as i64;
    let y: i64 = rect.y as i64;
    let width: i64 = rect.width as i64;
    let height: i64 = rect.height as i64;
    if x < 0 || y < 0 || x + width > img_width as i64 || y + height > img_height as i64 {
        let (left, cut_width) = fit_axis(rect.x, rect.width, img_width);
        let (top, cut_height) = fit_axis(rect.y, rect.height, img_height);
        (left, top, cut_width, cut_height)
    } else {
        (x as u32, y as u32, width as u32, height as u32)
    }
}

/// Whatever the rectangle, the cut lies within the image. It covers at
/// least one pixel unless the image is empty. For a rectangle that does not
/// lie within the image, and so for one that lies entirely outside it, the
/// cut is no smaller than the minimum size in either direction, provided
/// the image is that large.
pub proof fn lemma_clamped_region_is_usable(rect: WindowRect, img_width: int, img_height: int)
    requires
        rect.valid(),
        0 <= img_width,
        0 <= img_height,
    ensures
        ({
            let (x, y, w, h) = clamped_region(rect, img_width, img_height);
            &&& 0 <= x
            &&& 0 <= y
            &&& 0 <= w
            &&& 0 <= h
            &&& x + w <= img_width
            &&& y + h <= img_height
            &&& img_width > 0 ==> w > 0
            &&& img_height > 0 ==> h > 0
            &&& !rect.lies_within(img_width, img_height) && img_width >= MIN_REGION_SIZE ==> w
                >= MIN_REGION_SIZE
            &&& !rect.lies_within(img_width, img_height) && img_height >= MIN_REGION_SIZE ==> h
                >= MIN_REGION_SIZE
        }),
{
}

} // verus!
