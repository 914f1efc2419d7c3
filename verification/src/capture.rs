//! Capturing one page.
//!
//! A page is captured in two tiers. The first renders exactly the target
//! window into an offscreen surface, through the compositor or, if that
//! fails, by copying its visible pixels. Where that tier is absent or fails,
//! the whole primary display is captured and the window's rectangle is cut
//! out of it. The frame of either tier is normalized and written once; a
//! failed write is not tried again.

use vstd::prelude::*;
use image::DynamicImage;
use crate::driver::{Action, Event};
use crate::error::{EbCaptureError, ErrorModel};
use crate::imaging::{
    convert_frame_to_image, crop_image_to_window, cropped, depicts, frame_image, realizes,
};
use crate::pixel::{ImageModel, resolve_layout};
use crate::window_manager::{WindowHandle, WindowInfo, WindowRect, clamped_region};

verus! {

/// Milliseconds to wait after the first frame of a display stream, which is
/// thrown away.
pub const WARM_UP_MS: u64 = 100;

/// Milliseconds to wait between a frame that could not be used and the
/// next.
pub const FRAME_RETRY_MS: u64 = 500;

/// Number of frames that are tried after the first.
pub const FRAME_ATTEMPTS: u8 = 3;

/// The window's part of a captured display: the rectangle fitted to the
/// image.
pub open spec fn window_cut(display: ImageModel, region: WindowRect) -> ImageModel {
    let (x, y, w, h) = clamped_region(region, display.width, display.height);
    ImageModel { width: w, height: h, data: cropped(display.data, 4, display.width, x, y, w, h) }
}

/// Reason given for a rectangle that covers no pixel.
pub open spec fn empty_region() -> Seq<char> {
    "window rectangle is empty"@
}

/// Reason given when the display stream cannot be opened.
pub open spec fn display_unavailable() -> Seq<char> {
    "primary display cannot be captured"@
}

/// Reason given when no frame of the display could be used.
pub open spec fn no_usable_frame() -> Seq<char> {
    "full display capture failed"@
}

/// Reason given when the image could not be written.
pub open spec fn save_failed() -> Seq<char> {
    "captured image could not be saved"@
}

/// The number of bytes that the pixels of a window's surface take at four
/// bytes each; `None` for a rectangle that covers no pixel, or whose pixels
/// take more bytes than a buffer can have.
pub open spec fn surface_bytes(region: WindowRect) -> Option<usize> {
    if region.valid() && region.width * region.height * 4 <= usize::MAX {
        Some((region.width * region.height * 4) as usize)
    } else {
        None
    }
}

/// Computes [`surface_bytes`].
pub fn surface_byte_len(region: &WindowRect) -> (r: Option<usize>)
    ensures
        r == surface_bytes(*region),
{
    if !region.is_valid() {
        return None;
    }
    let width: usize = region.width as usize;
    let height: usize = region.height as usize;
    match width.checked_mul(height) {
        Some(pixels) => pixels.checked_mul(4),
        None => {
            assert(width * height * 4 > usize::MAX) by (nonlinear_arith)
                requires
                    width * height > usize::MAX,
            ;
            None
        },
    }
}

/// What a frame read from the window's surface stands for.
pub open spec fn surface_image(bytes: Seq<u8>, region: WindowRect) -> Result<
    ImageModel,
    ErrorModel,
> {
    if region.valid() {
        frame_image(bytes, region.width as int, region.height as int)
    } else {
        Err(ErrorModel::CaptureFailure { reason: empty_region() })
    }
}

/// What a frame of a display of the given size stands for, cut to the
/// window.
pub open spec fn display_image(bytes: Seq<u8>, width: int, height: int, region: WindowRect)
    -> Result<ImageModel, ErrorModel> {
    if region.valid() {
        match frame_image(bytes, width, height) {
            Ok(display) => Ok(window_cut(display, region)),
            Err(e) => Err(e),
        }
    } else {
        Err(ErrorModel::CaptureFailure { reason: empty_region() })
    }
}

/// Normalizes a frame and hands the image to the `image` crate.
pub fn frame_to_image(bytes: Vec<u8>, width: usize, height: usize) -> (r: Result<
    DynamicImage,
    EbCaptureError,
>)
    ensures
        realizes(r, frame_image(bytes@, width as int, height as int)),
{
    convert_frame_to_image(bytes.as_slice(), width, height)
}

/// Turns a frame read from the window's surface into the page's image.
pub fn surface_frame_to_image(bytes: Vec<u8>, region: &WindowRect) -> (r: Result<
    DynamicImage,
    EbCaptureError,
>)
    ensures
        realizes(r, surface_image(bytes@, *region)),
{
    if region.is_valid() {
        frame_to_image(bytes, region.width as usize, region.height as usize)
    } else {
        Err(EbCaptureError::capture_failure("window rectangle is empty"))
    }
}

/// Turns a frame of the display into the page's image: normalized, then cut
/// to the window.
pub fn display_frame_to_image(bytes: Vec<u8>, width: usize, height: usize, region: &WindowRect)
    -> (r: Result<DynamicImage, EbCaptureError>)
    ensures
        realizes(r, display_image(bytes@, width as int, height as int, *region)),
{
    if !region.is_valid() {
        return Err(EbCaptureError::capture_failure("window rectangle is empty"));
    }
    match frame_to_image(bytes, width, height) {
        Ok(display) => crop_image_to_window(display, region),
        Err(e) => Err(e),
    }
}

/// The action that a page capture waits on.
#[derive(Debug, Clone, Copy, PartialEq, Eq, Structural)]
pub enum CaptureStage {
    /// The offscreen surface was asked for.
    Acquiring,
    /// The compositor was asked to render the window.
    Rendering,
    /// A copy of the visible pixels was asked for.
    Copying,
    /// The surface is being read.
    Reading,
    /// The surface is being given back.
    Releasing,
    /// The display stream is being opened.
    Opening,
    /// The first frame, which is thrown away, was asked for.
    Discarding,
    /// The wait after the first frame is running.
    Warming,
    /// Frame number `attempt` after the first was asked for.
    Grabbing { attempt: u8 },
    /// The wait after the unusable frame number `attempt` is running.
    Backoff { attempt: u8 },
    /// The display stream is being closed.
    Closing,
    /// The image is being written.
    Saving,
}

/// The capture of one page under way.
#[derive(Debug, PartialEq)]
pub struct CaptureWindow {
    /// The window's rectangle on screen.
    pub region: WindowRect,
    /// Name of the file that the page is written to.
    pub file_name: String,
    /// The action that is awaited.
    pub stage: CaptureStage,
    /// Size of the display, once its stream is open.
    pub display_width: usize,
    pub display_height: usize,
    /// What became of the frame that was read, kept while its source is
    /// given back. `None` where no frame could be had.
    pub pending: Option<Result<DynamicImage, EbCaptureError>>,
}

/// What a page capture asks for next, or how it ended.
#[derive(Debug, PartialEq)]
pub enum CaptureProgress {
    /// Carry out the action, then report to the capture in this state.
    Perform(CaptureWindow, Action),
    /// The page is written, or the capture failed for good.
    Finished(Result<(), EbCaptureError>),
}

impl CaptureProgress {
    /// The capture goes on in the given stage with the given action, for the
    /// same page, with the display size as given and nothing pending.
    pub open spec fn goes_on(
        self,
        pre: CaptureWindow,
        stage: CaptureStage,
        action: Action,
    ) -> bool {
        self.goes_on_at(pre, stage, action, pre.display_width, pre.display_height)
    }

    /// As [`Self::goes_on`], with a display size.
    pub open spec fn goes_on_at(
        self,
        pre: CaptureWindow,
        stage: CaptureStage,
        action: Action,
        display_width: usize,
        display_height: usize,
    ) -> bool {
        &&& self matches CaptureProgress::Perform(next, performed)
        &&& performed == action
        &&& next.stage == stage
        &&& next.region == pre.region
        &&& next.file_name == pre.file_name
        &&& next.display_width == display_width
        &&& next.display_height == display_height
        &&& next.pending is None
    }

    /// The source of the frame is given back by `action` while the frame's
    /// outcome is kept.
    pub open spec fn gives_back(
        self,
        pre: CaptureWindow,
        stage: CaptureStage,
        action: Action,
        outcome: Result<ImageModel, ErrorModel>,
    ) -> bool {
        &&& self matches CaptureProgress::Perform(next, performed)
        &&& performed == action
        &&& next.stage == stage
        &&& next.region == pre.region
        &&& next.file_name == pre.file_name
        &&& next.display_width == pre.display_width
        &&& next.display_height == pre.display_height
        &&& next.pending matches Some(kept)
        &&& realizes(kept, outcome)
    }

    /// The kept image goes to the page's file.
    pub open spec fn saves(self, pre: CaptureWindow, img: DynamicImage) -> bool {
        &&& self matches CaptureProgress::Perform(next, Action::SaveImage { file_name, image })
        &&& file_name@ == pre.file_name@
        &&& image == img
        &&& next.stage == CaptureStage::Saving
        &&& next.region == pre.region
        &&& next.file_name == pre.file_name
        &&& next.display_width == pre.display_width
        &&& next.display_height == pre.display_height
        &&& next.pending is None
    }

    /// The capture ends with the given error.
    pub open spec fn fails_with(self, error: ErrorModel) -> bool {
        self matches CaptureProgress::Finished(Err(e)) && e@ == error
    }

    /// The capture ends with a capture failure for the given reason.
    pub open spec fn fails_because(self, reason: Seq<char>) -> bool {
        self.fails_with(ErrorModel::CaptureFailure { reason })
    }

    /// The surface is read into a buffer of the size that its pixels take;
    /// where there is no such size, it is given back unread.
    pub open spec fn reads(self, pre: CaptureWindow) -> bool {
        match surface_bytes(pre.region) {
            Some(byte_len) => self.goes_on(
                pre,
                CaptureStage::Reading,
                Action::ReadSurface {
                    width: pre.region.width,
                    height: pre.region.height,
                    byte_len,
                },
            ),
            None => self.goes_on(pre, CaptureStage::Releasing, Action::ReleaseSurface),
        }
    }

    /// The capture turns to the second tier: the display stream is opened.
    pub open spec fn falls_back(self, pre: CaptureWindow) -> bool {
        self.goes_on(pre, CaptureStage::Opening, Action::OpenDisplay)
    }

    /// The source is given back: the kept image is saved, a kept error ends
    /// the capture, and with nothing kept `otherwise` holds.
    pub open spec fn delivers(self, pre: CaptureWindow, otherwise: bool) -> bool {
        match pre.pending {
            Some(Ok(img)) => self.saves(pre, img),
            Some(Err(e)) => self.fails_with(e@),
            None => otherwise,
        }
    }
}

/// Whether `post` is the step that follows `pre` on `event`.
///
/// First tier: a surface that cannot be had sends the capture to the second
/// tier at once. Rendering by the compositor is tried first, copying the
/// visible pixels second. The surface is given back on every path, and only
/// then is the frame used or the second tier begun. A frame that was read
/// but cannot be normalized ends the capture.
///
/// Second tier: the first frame is thrown away. Up to three further frames
/// are asked for, with a pause between one that is missing or empty and the
/// next; the first that is not empty is used. The stream is closed on every
/// path before the image is written or the failure reported.
pub open spec fn capture_next(pre: CaptureWindow, event: Event, post: CaptureProgress) -> bool {
    let width = pre.region.width;
    let height = pre.region.height;
    match pre.stage {
        CaptureStage::Acquiring => if event is Done {
            post.goes_on(pre, CaptureStage::Rendering, Action::RenderWindow)
        } else {
            post.falls_back(pre)
        },
        CaptureStage::Rendering => if event is Done {
            post.reads(pre)
        } else {
            post.goes_on(pre, CaptureStage::Copying, Action::CopyVisible { width, height })
        },
        CaptureStage::Copying => if event is Done {
            post.reads(pre)
        } else {
            post.goes_on(pre, CaptureStage::Releasing, Action::ReleaseSurface)
        },
        CaptureStage::Reading => match event {
            Event::Frame { bytes } => post.gives_back(
                pre,
                CaptureStage::Releasing,
                Action::ReleaseSurface,
                surface_image(bytes@, pre.region),
            ),
            _ => post.goes_on(pre, CaptureStage::Releasing, Action::ReleaseSurface),
        },
        CaptureStage::Releasing => post.delivers(pre, post.falls_back(pre)),
        CaptureStage::Opening => match event {
            Event::DisplayOpened { width, height } => post.goes_on_at(
                pre,
                CaptureStage::Discarding,
                Action::GrabFrame,
                width,
                height,
            ),
            _ => post.fails_because(display_unavailable()),
        },
        CaptureStage::Discarding => post.goes_on(
            pre,
            CaptureStage::Warming,
            Action::Sleep { millis: WARM_UP_MS },
        ),
        CaptureStage::Warming => post.goes_on(
            pre,
            CaptureStage::Grabbing { attempt: 1 },
            Action::GrabFrame,
        ),
        CaptureStage::Grabbing { attempt } => match event {
            Event::Frame { bytes } if bytes@.len() > 0 => post.gives_back(
                pre,
                CaptureStage::Closing,
                Action::CloseDisplay,
                display_image(
                    bytes@,
                    pre.display_width as int,
                    pre.display_height as int,
                    pre.region,
                ),
            ),
            _ => if attempt < FRAME_ATTEMPTS {
                post.goes_on(
                    pre,
                    CaptureStage::Backoff { attempt },
                    Action::Sleep { millis: FRAME_RETRY_MS },
                )
            } else {
                post.goes_on(pre, CaptureStage::Closing, Action::CloseDisplay)
            },
        },
        CaptureStage::Backoff { attempt } => if attempt < FRAME_ATTEMPTS {
            post.goes_on(
                pre,
                CaptureStage::Grabbing { attempt: (attempt + 1) as u8 },
                Action::GrabFrame,
            )
        } else {
            post.goes_on(pre, CaptureStage::Closing, Action::CloseDisplay)
        },
        CaptureStage::Closing => post.delivers(pre, post.fails_because(no_usable_frame())),
        CaptureStage::Saving => if event is Done {
            post == CaptureProgress::Finished(Ok::<(), EbCaptureError>(()))
        } else {
            post.fails_because(save_failed())
        },
    }
}

/// Whether the offscreen surface is held in a stage.
pub open spec fn holds_surface(stage: CaptureStage) -> bool {
    stage is Rendering || stage is Copying || stage is Reading || stage is Releasing
}

/// Whether the display stream is open in a stage.
pub open spec fn holds_display(stage: CaptureStage) -> bool {
    stage is Discarding || stage is Warming || stage is Grabbing || stage is Backoff
        || stage is Closing
}

/// Whatever the driver reports, what was acquired is given back on every
/// path: a capture neither ends nor writes its image nor turns to the other
/// tier while it holds the surface or the display stream, and it lets go of
/// them only by the releasing and the closing action.
pub proof fn lemma_capture_releases(pre: CaptureWindow, event: Event, post: CaptureProgress)
    requires
        capture_next(pre, event, post),
    ensures
        post is Finished ==> !holds_surface(pre.stage) || pre.stage is Releasing,
        post is Finished ==> !holds_display(pre.stage) || pre.stage is Closing,
        post matches CaptureProgress::Perform(next, action) ==> {
            &&& holds_surface(pre.stage) && !holds_surface(next.stage) ==> pre.stage is Releasing
            &&& holds_display(pre.stage) && !holds_display(next.stage) ==> pre.stage is Closing
            &&& next.stage is Releasing ==> action == Action::ReleaseSurface
            &&& next.stage is Closing ==> action == Action::CloseDisplay
            &&& action is SaveImage ==> pre.stage is Releasing || pre.stage is Closing
            &&& !holds_surface(pre.stage) && holds_surface(next.stage) ==> pre.stage is Acquiring
                && event is Done
            &&& !holds_display(pre.stage) && holds_display(next.stage) ==> pre.stage is Opening
                && event is DisplayOpened
        },
{
}

/// Whatever the driver reports, at most three frames are asked for after
/// the one that is thrown away: the number of the frame only grows, and
/// after the third the stream is closed.
pub proof fn lemma_capture_bounds_frames(pre: CaptureWindow, event: Event, post: CaptureProgress)
    requires
        capture_next(pre, event, post),
    ensures
        post matches CaptureProgress::Perform(next, _) ==> (next.stage matches CaptureStage::Grabbing {
            attempt,
        } ==> (attempt == 1 && pre.stage is Warming) || (pre.stage is Backoff
            && pre.stage->Backoff_attempt < FRAME_ATTEMPTS && attempt == pre.stage->Backoff_attempt
            + 1)),
{
}

/// Whether a capture is on a path that can still end well: its rectangle
/// covers a pixel, no frame of the display was given up, and what is kept
/// while a source is given back is no error.
pub open spec fn can_end_well(capture: CaptureWindow) -> bool {
    &&& capture.region.valid()
    &&& !(capture.stage is Backoff)
    &&& capture.stage is Closing ==> capture.pending is Some
    &&& capture.stage is Closing || capture.stage is Releasing ==> !(capture.pending matches Some(
        Err(_),
    ))
}

/// Whether the driver's report is one of a display tier that works: the
/// stream opens, the frame that is asked for is there, is not empty and has
/// a length that fits a layout and a size that an image can have, and the
/// image is written. Of the first tier nothing is asked but that a frame,
/// if it hands one over, is of that kind too.
pub open spec fn display_works(capture: CaptureWindow, event: Event) -> bool {
    match capture.stage {
        CaptureStage::Opening => event is DisplayOpened,
        CaptureStage::Grabbing { .. } => match event {
            Event::Frame { bytes } => bytes@.len() > 0 && frame_image(
                bytes@,
                capture.display_width as int,
                capture.display_height as int,
            ) is Ok,
            _ => false,
        },
        CaptureStage::Reading => match event {
            Event::Frame { bytes } => frame_image(
                bytes@,
                capture.region.width as int,
                capture.region.height as int,
            ) is Ok,
            _ => true,
        },
        CaptureStage::Saving => event is Done,
        _ => true,
    }
}

/// Whatever becomes of the first tier, a capture does not fail as long as
/// the display tier works: a surface that cannot be had, rendered, copied
/// or read only sends the capture to the display, whose frame is cut to the
/// window and written.
pub proof fn lemma_display_tier_suffices(pre: CaptureWindow, event: Event, post: CaptureProgress)
    requires
        capture_next(pre, event, post),
        can_end_well(pre),
        display_works(pre, event),
    ensures
        !(post matches CaptureProgress::Finished(Err(_))),
        post matches CaptureProgress::Perform(next, _) ==> can_end_well(next),
        post matches CaptureProgress::Perform(next, Action::SaveImage { file_name, image })
            ==> file_name@ == pre.file_name@,
{
}

/// Most steps that a capture can still take from a stage.
pub open spec fn capture_steps_left(stage: CaptureStage) -> nat {
    match stage {
        CaptureStage::Acquiring => 20,
        CaptureStage::Rendering => 19,
        CaptureStage::Copying => 18,
        CaptureStage::Reading => 17,
        CaptureStage::Releasing => 16,
        CaptureStage::Opening => 15,
        CaptureStage::Discarding => 14,
        CaptureStage::Warming => 13,
        CaptureStage::Grabbing { attempt } => if attempt == 0 {
            11
        } else if attempt == 1 {
            9
        } else if attempt == 2 {
            7
        } else {
            5
        },
        CaptureStage::Backoff { attempt } => if attempt == 0 {
            10
        } else if attempt == 1 {
            8
        } else if attempt == 2 {
            6
        } else {
            4
        },
        CaptureStage::Closing => 3,
        CaptureStage::Saving => 2,
    }
}

/// Whatever the driver reports, the capture of a page comes to an end:
/// each step leaves fewer steps to take.
pub proof fn lemma_capture_ends(pre: CaptureWindow, event: Event, post: CaptureProgress)
    requires
        capture_next(pre, event, post),
    ensures
        post matches CaptureProgress::Perform(next, _) ==> capture_steps_left(next.stage)
            < capture_steps_left(pre.stage),
{
}

/// Whether `post` is the first step of capturing a page: the first tier
/// where the platform has it, the second tier otherwise.
pub open spec fn capture_first(
    handle: WindowHandle,
    region: WindowRect,
    file_name: Seq<char>,
    next: CaptureWindow,
    action: Action,
) -> bool {
    &&& next.region == region
    &&& next.file_name@ == file_name
    &&& next.pending is None
    &&& if handle is Windows {
        next.stage == CaptureStage::Acquiring && action == (Action::AcquireSurface {
            width: region.width,
            height: region.height,
        })
    } else {
        next.stage == CaptureStage::Opening && action == Action::OpenDisplay
    }
}

/// Begins the capture of the current page of the window with the given
/// platform reference into the file of the given name.
pub fn begin_capture(handle: WindowHandle, window_rect: &WindowRect, file_name: String) -> (r: (
    CaptureWindow,
    Action,
))
    ensures
        capture_first(handle, *window_rect, file_name@, r.0, r.1),
{
    let region: WindowRect = *window_rect;
    let direct: bool = match handle {
        WindowHandle::Windows(_) => true,
        _ => false,
    };
    let stage: CaptureStage = if direct {
        CaptureStage::Acquiring
    } else {
        CaptureStage::Opening
    };
    let action: Action = if direct {
        Action::AcquireSurface { width: region.width, height: region.height }
    } else {
        Action::OpenDisplay
    };
    (
        CaptureWindow {
            region,
            file_name,
            stage,
            display_width: 0,
            display_height: 0,
            pending: None,
        },
        action,
    )
}

/// Begins the capture of the window's current page into the file of the
/// given name.
pub fn capture_window(window: &WindowInfo, window_rect: &WindowRect, file_name: String) -> (r: (
    CaptureWindow,
    Action,
))
    ensures
        capture_first(window.handle, *window_rect, file_name@, r.0, r.1),
{
    begin_capture(window.handle, window_rect, file_name)
}

impl CaptureWindow {
    fn go_on(self, stage: CaptureStage, action: Action) -> (r: CaptureProgress)
        ensures
            r.goes_on(self, stage, action),
    {
        CaptureProgress::Perform(
            CaptureWindow {
                region: self.region,
                file_name: self.file_name,
                stage,
                display_width: self.display_width,
                display_height: self.display_height,
                pending: None,
            },
            action,
        )
    }

    fn read(self) -> (r: CaptureProgress)
        ensures
            r.reads(self),
    {
        match surface_byte_len(&self.region) {
            Some(byte_len) => {
                let action = Action::ReadSurface {
                    width: self.region.width,
                    height: self.region.height,
                    byte_len,
                };
                self.go_on(CaptureStage::Reading, action)
            },
            None => self.go_on(CaptureStage::Releasing, Action::ReleaseSurface),
        }
    }

    fn give_back(
        self,
        stage: CaptureStage,
        action: Action,
        kept: Result<DynamicImage, EbCaptureError>,
        Ghost(outcome): Ghost<Result<ImageModel, ErrorModel>>,
    ) -> (r: CaptureProgress)
        requires
            realizes(kept, outcome),
        ensures
            r.gives_back(self, stage, action, outcome),
    {
        CaptureProgress::Perform(
            CaptureWindow {
                region: self.region,
                file_name: self.file_name,
                stage,
                display_width: self.display_width,
                display_height: self.display_height,
                pending: Some(kept),
            },
            action,
        )
    }

    fn save(self, img: DynamicImage) -> (r: CaptureProgress)
        ensures
            r.saves(self, img),
    {
        let name: String = self.file_name.clone();
        CaptureProgress::Perform(
            CaptureWindow {
                region: self.region,
                file_name: self.file_name,
                stage: CaptureStage::Saving,
                display_width: self.display_width,
                display_height: self.display_height,
                pending: None,
            },
            Action::SaveImage { file_name: name, image: img },
        )
    }

    /// Takes the driver's report on the last action and says what comes
    /// next.
    pub fn step(self, event: Event) -> (r: CaptureProgress)
        ensures
            capture_next(self, event, r),
    {
        let width: i32 = self.region.width;
        let height: i32 = self.region.height;
        let done: bool = match event {
            Event::Done => true,
            _ => false,
        };
        match self.stage {
            CaptureStage::Acquiring => {
                if done {
                    self.go_on(CaptureStage::Rendering, Action::RenderWindow)
                } else {
                    self.go_on(CaptureStage::Opening, Action::OpenDisplay)
                }
            },
            CaptureStage::Rendering => {
                if done {
                    self.read()
                } else {
                    self.go_on(CaptureStage::Copying, Action::CopyVisible { width, height })
                }
            },
            CaptureStage::Copying => {
                if done {
                    self.read()
                } else {
                    self.go_on(CaptureStage::Releasing, Action::ReleaseSurface)
                }
            },
            CaptureStage::Reading => match event {
                Event::Frame { bytes } => {
                    let ghost outcome = surface_image(bytes@, self.region);
                    let kept = surface_frame_to_image(bytes, &self.region);
                    self.give_back(
                        CaptureStage::Releasing,
                        Action::ReleaseSurface,
                        kept,
                        Ghost(outcome),
                    )
                },
                _ => self.go_on(CaptureStage::Releasing, Action::ReleaseSurface),
            },
            CaptureStage::Releasing => match self.pending {
                Some(Ok(img)) => CaptureWindow { pending: None, ..self }.save(img),
                Some(Err(e)) => CaptureProgress::Finished(Err(e)),
                None => self.go_on(CaptureStage::Opening, Action::OpenDisplay),
            },
            CaptureStage::Opening => match event {
                Event::DisplayOpened { width, height } => CaptureProgress::Perform(
                    CaptureWindow {
                        region: self.region,
                        file_name: self.file_name,
                        stage: CaptureStage::Discarding,
                        display_width: width,
                        display_height: height,
                        pending: None,
                    },
                    Action::GrabFrame,
                ),
                _ => CaptureProgress::Finished(
                    Err(EbCaptureError::capture_failure("primary display cannot be captured")),
                ),
            },
            CaptureStage::Discarding => self.go_on(
                CaptureStage::Warming,
                Action::Sleep { millis: WARM_UP_MS },
            ),
            CaptureStage::Warming => self.go_on(
                CaptureStage::Grabbing { attempt: 1 },
                Action::GrabFrame,
            ),
            CaptureStage::Grabbing { attempt } => {
                let frame: Option<Vec<u8>> = match event {
                    Event::Frame { bytes } => if bytes.len() > 0 {
                        Some(bytes)
                    } else {
                        None
                    },
                    _ => None,
                };
                match frame {
                    Some(bytes) => {
                        let ghost outcome = display_image(
                            bytes@,
                            self.display_width as int,
                            self.display_height as int,
                            self.region,
                        );
                        let kept = display_frame_to_image(
                            bytes,
                            self.display_width,
                            self.display_height,
                            &self.region,
                        );
                        self.give_back(
                            CaptureStage::Closing,
                            Action::CloseDisplay,
                            kept,
                            Ghost(outcome),
                        )
                    },
                    None => {
                        if attempt < FRAME_ATTEMPTS {
                            self.go_on(
                                CaptureStage::Backoff { attempt },
                                Action::Sleep { millis: FRAME_RETRY_MS },
                            )
                        } else {
                            self.go_on(CaptureStage::Closing, Action::CloseDisplay)
                        }
                    },
                }
            },
            CaptureStage::Backoff { attempt } => {
                if attempt < FRAME_ATTEMPTS {
                    self.go_on(CaptureStage::Grabbing { attempt: attempt + 1 }, Action::GrabFrame)
                } else {
                    self.go_on(CaptureStage::Closing, Action::CloseDisplay)
                }
            },
            CaptureStage::Closing => match self.pending {
                Some(Ok(img)) => CaptureWindow { pending: None, ..self }.save(img),
                Some(Err(e)) => CaptureProgress::Finished(Err(e)),
                None => CaptureProgress::Finished(
                    Err(EbCaptureError::capture_failure("full display capture failed")),
                ),
            },
            CaptureStage::Saving => {
                if done {
                    CaptureProgress::Finished(Ok(()))
                } else {
                    CaptureProgress::Finished(
                        Err(EbCaptureError::capture_failure("captured image could not be saved")),
                    )
                }
            },
        }
    }
}

/// Works out what is written for a frame of a display whose size may not
/// be the declared one: the one canonical image that the frame's length
/// stands for, at the declared or a recovered height, at four or three
/// bytes per pixel. A frame whose length fits no layout is refused with
/// `UnsupportedPixelFormat`, and nothing is written for it.
pub fn save_frame_as_image_smart(frame: Vec<u8>, width: usize, height: usize) -> (r: Result<
    DynamicImage,
    EbCaptureError,
>)
    ensures
        realizes(r, frame_image(frame@, width as int, height as int)),
{
    frame_to_image(frame, width, height)
}

/// The action that a capture of the whole display waits on.
#[derive(Debug, Clone, Copy, PartialEq, Eq, Structural)]
pub enum ScreenStage {
    /// The display stream is being opened.
    Opening,
    /// The first frame, which is thrown away, was asked for.
    Discarding,
    /// The wait after the first frame is running.
    Warming,
    /// Frame number `attempt` after the first was asked for.
    Grabbing { attempt: u8 },
    /// The image is being written.
    Saving,
    /// The wait after the failed attempt number `attempt` is running.
    Backoff { attempt: u8 },
    /// The display stream is being closed.
    Closing,
}

/// The capture of the whole display into a file, under way.
#[derive(Debug, PartialEq)]
pub struct FullScreenCapture {
    /// Name of the file that the image is written to.
    pub file_name: String,
    /// The action that is awaited.
    pub stage: ScreenStage,
    /// Size of the display, once its stream is open.
    pub display_width: usize,
    pub display_height: usize,
    /// How the capture ended, kept while the stream is closed.
    pub result: Result<(), EbCaptureError>,
}

/// What a capture of the whole display asks for next, or how it ended.
#[derive(Debug, PartialEq)]
pub enum ScreenProgress {
    /// Carry out the action, then report to the capture in this state.
    Perform(FullScreenCapture, Action),
    /// The file is written, or the capture failed.
    Finished(Result<(), EbCaptureError>),
}

/// Reason given when the display yields no frame.
pub open spec fn no_frame() -> Seq<char> {
    "screen capture failed"@
}

impl ScreenProgress {
    /// The capture goes on for the same file and display size.
    pub open spec fn keeps(self, pre: FullScreenCapture, stage: ScreenStage) -> bool {
        &&& self matches ScreenProgress::Perform(next, _)
        &&& next.stage == stage
        &&& next.file_name == pre.file_name
        &&& next.display_width == pre.display_width
        &&& next.display_height == pre.display_height
    }

    /// The capture goes on with the given action and nothing else changed.
    pub open spec fn goes_on(self, pre: FullScreenCapture, stage: ScreenStage, action: Action)
        -> bool {
        &&& self.keeps(pre, stage)
        &&& self matches ScreenProgress::Perform(next, performed)
        &&& performed == action
        &&& next.result == pre.result
    }

    /// The stream is closed while the outcome is kept.
    pub open spec fn closes(self, pre: FullScreenCapture, outcome: Result<(), ErrorModel>)
        -> bool {
        &&& self.keeps(pre, ScreenStage::Closing)
        &&& self matches ScreenProgress::Perform(next, action)
        &&& action == Action::CloseDisplay
        &&& match outcome {
            Ok(_) => next.result is Ok,
            Err(error) => next.result matches Err(e) && e@ == error,
        }
    }

    /// Frame number `attempt` could not be had: the third such failure ends
    /// the capture with the error, an earlier one is followed by a pause.
    pub open spec fn attempt_failed(self, pre: FullScreenCapture, attempt: u8, error: ErrorModel)
        -> bool {
        if attempt >= FRAME_ATTEMPTS {
            self.closes(pre, Err(error))
        } else {
            &&& self.goes_on(
                pre,
                ScreenStage::Backoff { attempt },
                Action::Sleep { millis: FRAME_RETRY_MS },
            )
        }
    }

    /// The image that the frame stands for is written; where the frame
    /// stands for none, the capture ends with the frame's error once the
    /// stream is closed.
    pub open spec fn writes(
        self,
        pre: FullScreenCapture,
        outcome: Result<ImageModel, ErrorModel>,
    ) -> bool {
        match outcome {
            Ok(model) => {
                &&& self.keeps(pre, ScreenStage::Saving)
                &&& self matches ScreenProgress::Perform(
                    next,
                    Action::SaveImage { file_name, image },
                )
                &&& file_name@ == pre.file_name@
                &&& depicts(image, model)
                &&& next.result == pre.result
            },
            Err(error) => self.closes(pre, Err(error)),
        }
    }
}

/// Whether `post` is the step that follows `pre` on `event`.
///
/// The first frame is thrown away. Up to three further frames are asked
/// for, with a pause between one that is missing or empty and the next; the
/// third such failure ends the capture. The first frame that is not empty
/// is normalized as [`frame_image`] states and its image written to the
/// file, once; a frame that fits no layout and a failed write end the
/// capture with their error. The stream is closed on every path after it
/// was opened.
pub open spec fn screen_next(pre: FullScreenCapture, event: Event, post: ScreenProgress) -> bool {
    match pre.stage {
        ScreenStage::Opening => match event {
            Event::DisplayOpened { width, height } => {
                &&& post matches ScreenProgress::Perform(next, action)
                &&& action == Action::GrabFrame
                &&& next.stage == ScreenStage::Discarding
                &&& next.file_name == pre.file_name
                &&& next.display_width == width
                &&& next.display_height == height
                &&& next.result == pre.result
            },
            _ => post matches ScreenProgress::Finished(Err(e)) && e@ == (
            ErrorModel::CaptureFailure { reason: display_unavailable() }),
        },
        ScreenStage::Discarding => post.goes_on(
            pre,
            ScreenStage::Warming,
            Action::Sleep { millis: WARM_UP_MS },
        ),
        ScreenStage::Warming => post.goes_on(
            pre,
            ScreenStage::Grabbing { attempt: 1 },
            Action::GrabFrame,
        ),
        ScreenStage::Grabbing { attempt } => match event {
            Event::Frame { bytes } if bytes@.len() > 0 => post.writes(
                pre,
                frame_image(bytes@, pre.display_width as int, pre.display_height as int),
            ),
            _ => post.attempt_failed(
                pre,
                attempt,
                ErrorModel::CaptureFailure { reason: no_frame() },
            ),
        },
        ScreenStage::Saving => if event is Done {
            post.closes(pre, Ok(()))
        } else {
            post.closes(pre, Err(ErrorModel::CaptureFailure { reason: save_failed() }))
        },
        ScreenStage::Backoff { attempt } => post.goes_on(
            pre,
            ScreenStage::Grabbing {
                attempt: if attempt < FRAME_ATTEMPTS {
                    (attempt + 1) as u8
                } else {
                    FRAME_ATTEMPTS
                },
            },
            Action::GrabFrame,
        ),
        ScreenStage::Closing => post == ScreenProgress::Finished(pre.result),
    }
}

/// Most steps that remain once frame number `attempt` was asked for.
pub open spec fn steps_from_frame(attempt: u8) -> int {
    if attempt == 0 {
        48
    } else if attempt == 1 {
        38
    } else if attempt == 2 {
        28
    } else {
        18
    }
}

/// Most steps that a capture of the whole display can still take.
pub open spec fn screen_steps_left(stage: ScreenStage) -> int {
    match stage {
        ScreenStage::Opening => 60,
        ScreenStage::Discarding => 59,
        ScreenStage::Warming => 58,
        ScreenStage::Grabbing { attempt } => steps_from_frame(attempt),
        ScreenStage::Saving => 2,
        ScreenStage::Backoff { attempt } => if attempt >= FRAME_ATTEMPTS {
            19
        } else {
            steps_from_frame(attempt) - 8
        },
        ScreenStage::Closing => 1,
    }
}

/// Whatever the driver reports, a capture of the whole display comes to an
/// end: each step leaves fewer steps to take.
pub proof fn lemma_screen_capture_ends(pre: FullScreenCapture, event: Event, post: ScreenProgress)
    requires
        screen_next(pre, event, post),
    ensures
        post matches ScreenProgress::Perform(next, _) ==> screen_steps_left(next.stage)
            < screen_steps_left(pre.stage),
{
}

/// Whatever the driver reports, an image is written only for a frame that
/// is not empty and whose length fits a layout, it is written at most once,
/// and the stream that was opened is closed before the capture ends.
pub proof fn lemma_screen_capture_writes_canonical(
    pre: FullScreenCapture,
    event: Event,
    post: ScreenProgress,
)
    requires
        screen_next(pre, event, post),
    ensures
        post matches ScreenProgress::Perform(_, Action::SaveImage { file_name, image }) ==> {
            &&& pre.stage is Grabbing
            &&& event matches Event::Frame { bytes }
            &&& resolve_layout(
                bytes@.len() as int,
                pre.display_width as int,
                pre.display_height as int,
            ) is Some
            &&& file_name@ == pre.file_name@
        },
        post is Finished ==> pre.stage is Opening || pre.stage is Closing,
        post matches ScreenProgress::Perform(next, action) ==> (next.stage is Closing ==> action
            == Action::CloseDisplay),
        pre.stage is Saving ==> (post matches ScreenProgress::Perform(next, _) && next.stage
            is Closing),
{
}

/// Begins a capture of the whole primary display into the file of the
/// given name.
pub fn capture_full_screen(file_name: String) -> (r: (FullScreenCapture, Action))
    ensures
        r.1 == Action::OpenDisplay,
        r.0.stage == ScreenStage::Opening,
        r.0.file_name == file_name,
        r.0.display_width == 0,
        r.0.display_height == 0,
        r.0.result is Ok,
{
    (
        FullScreenCapture {
            file_name,
            stage: ScreenStage::Opening,
            display_width: 0,
            display_height: 0,
            result: Ok(()),
        },
        Action::OpenDisplay,
    )
}

impl FullScreenCapture {
    fn go_on(self, stage: ScreenStage, action: Action) -> (r: ScreenProgress)
        ensures
            r.goes_on(self, stage, action),
    {
        ScreenProgress::Perform(
            FullScreenCapture {
                file_name: self.file_name,
                stage,
                display_width: self.display_width,
                display_height: self.display_height,
                result: self.result,
            },
            action,
        )
    }

    fn close(self, result: Result<(), EbCaptureError>) -> (r: ScreenProgress)
        ensures
            match result {
                Ok(_) => r.closes(self, Ok(())),
                Err(e) => r.closes(self, Err(e@)),
            },
    {
        ScreenProgress::Perform(
            FullScreenCapture {
                file_name: self.file_name,
                stage: ScreenStage::Closing,
                display_width: self.display_width,
                display_height: self.display_height,
                result,
            },
            Action::CloseDisplay,
        )
    }

    fn fail_attempt(self, attempt: u8, error: EbCaptureError) -> (r: ScreenProgress)
        ensures
            r.attempt_failed(self, attempt, error@),
    {
        if attempt >= FRAME_ATTEMPTS {
            self.close(Err(error))
        } else {
            self.go_on(ScreenStage::Backoff { attempt }, Action::Sleep { millis: FRAME_RETRY_MS })
        }
    }

    /// Takes the driver's report on the last action and says what comes
    /// next.
    pub fn step(self, event: Event) -> (r: ScreenProgress)
        ensures
            screen_next(self, event, r),
    {
        let done: bool = match event {
            Event::Done => true,
            _ => false,
        };
        match self.stage {
            ScreenStage::Opening => match event {
                Event::DisplayOpened { width, height } => ScreenProgress::Perform(
                    FullScreenCapture {
                        file_name: self.file_name,
                        stage: ScreenStage::Discarding,
                        display_width: width,
                        display_height: height,
                        result: self.result,
                    },
                    Action::GrabFrame,
                ),
                _ => ScreenProgress::Finished(
                    Err(EbCaptureError::capture_failure("primary display cannot be captured")),
                ),
            },
            ScreenStage::Discarding => self.go_on(
                ScreenStage::Warming,
                Action::Sleep { millis: WARM_UP_MS },
            ),
            ScreenStage::Warming => self.go_on(
                ScreenStage::Grabbing { attempt: 1 },
                Action::GrabFrame,
            ),
            ScreenStage::Grabbing { attempt } => {
                let frame: Option<Vec<u8>> = match event {
                    Event::Frame { bytes } => if bytes.len() > 0 {
                        Some(bytes)
                    } else {
                        None
                    },
                    _ => None,
                };
                match frame {
                    Some(bytes) => {
                        match save_frame_as_image_smart(
                            bytes,
                            self.display_width,
                            self.display_height,
                        ) {
                            Ok(image) => {
                                let name: String = self.file_name.clone();
                                ScreenProgress::Perform(
                                    FullScreenCapture {
                                        file_name: self.file_name,
                                        stage: ScreenStage::Saving,
                                        display_width: self.display_width,
                                        display_height: self.display_height,
                                        result: self.result,
                                    },
                                    Action::SaveImage { file_name: name, image },
                                )
                            },
                            Err(e) => self.close(Err(e)),
                        }
                    },
                    None => self.fail_attempt(
                        attempt,
                        EbCaptureError::capture_failure("screen capture failed"),
                    ),
                }
            },
            ScreenStage::Saving => {
                if done {
                    self.close(Ok(()))
                } else {
                    self.close(
                        Err(EbCaptureError::capture_failure("captured image could not be saved")),
                    )
                }
            },
            ScreenStage::Backoff { attempt } => {
                let next: u8 = if attempt < FRAME_ATTEMPTS {
                    attempt + 1
                } else {
                    FRAME_ATTEMPTS
                };
                self.go_on(ScreenStage::Grabbing { attempt: next }, Action::GrabFrame)
            },
            ScreenStage::Closing => ScreenProgress::Finished(self.result),
        }
    }
}

} // verus!
