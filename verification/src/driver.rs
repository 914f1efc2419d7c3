//! The protocol between a session and its driver.
//!
//! A session never touches the screen, the keyboard or the disk. It asks
//! for one [`Action`] at a time; the driver carries it out and answers with
//! an [`Event`]. An answer of another kind than the action calls for counts
//! as a failure of that action.

use vstd::prelude::*;
use image::DynamicImage;

verus! {

/// A key of the keyboard.
#[derive(Debug, Clone, Copy, PartialEq, Eq, Structural)]
pub enum Key {
    RightArrow,
    LeftArrow,
    PageDown,
    PageUp,
    Space,
    Return,
}

/// How a window is shown.
#[derive(Debug, Clone, Copy, PartialEq, Eq, Structural)]
pub enum ShowMode {
    /// Bring a minimized window back to its former size and place.
    Restore,
    /// Show the window where and as large as it is.
    Show,
}

/// One effect that the driver carries out for the session.
#[derive(Debug, PartialEq)]
pub enum Action {
    /// Wait for the given number of milliseconds.
    Sleep { millis: u64 },
    /// Press and release a key.
    KeyClick { key: Key },
    /// Move the mouse pointer to a screen position.
    MoveMouseTo { x: i32, y: i32 },
    /// Press and release the left mouse button.
    LeftClick,
    /// Ask the platform to make the target window the foreground window.
    SetForeground,
    /// Ask for the thread of the driver and the thread that owns the
    /// target window; answered by [`Event::Threads`].
    QueryThreads,
    /// Attach to the input processing of the window's thread, make the
    /// window the foreground window, and detach again.
    ForceForeground { current_thread: u32, target_thread: u32 },
    /// Ask whether the target window is minimized; answered by
    /// [`Event::Minimized`].
    QueryMinimized,
    /// Show the target window.
    ShowWindow { mode: ShowMode },
    /// Put the target window above all others, or end that.
    SetTopmost { on: bool },
    /// Ask for the edges of the target window; answered by
    /// [`Event::WindowEdges`].
    QueryWindowEdges,
    /// Get an offscreen surface of the given size that the target window
    /// can be rendered into.
    AcquireSurface { width: i32, height: i32 },
    /// Have the compositor render the target window into the surface.
    RenderWindow,
    /// Copy the visible pixels of the target window into the surface.
    CopyVisible { width: i32, height: i32 },
    /// Read the surface into a buffer of `byte_len` bytes, four bytes per
    /// pixel, top row first; answered by [`Event::Frame`].
    ReadSurface { width: i32, height: i32, byte_len: usize },
    /// Give the surface back.
    ReleaseSurface,
    /// Open the capture stream of the primary display; answered by
    /// [`Event::DisplayOpened`].
    OpenDisplay,
    /// Take the next frame from the display stream; answered by
    /// [`Event::Frame`].
    GrabFrame,
    /// Close the display stream.
    CloseDisplay,
    /// Write an image to the file of that name in the output directory.
    SaveImage { file_name: String, image: DynamicImage },
    /// Tell the user to turn the page by hand and wait until they confirm.
    PromptManualNavigation,
}

/// What the driver reports after an action.
#[derive(Debug, Clone, PartialEq, Eq)]
pub enum Event {
    /// The action took place.
    Done,
    /// The action failed.
    Failed,
    /// The edges of the target window in screen coordinates.
    WindowEdges { left: i32, top: i32, right: i32, bottom: i32 },
    /// The driver's thread and the thread that owns the target window.
    Threads { current: u32, target: u32 },
    /// Whether the target window is minimized.
    Minimized { minimized: bool },
    /// The size of the display whose stream was opened.
    DisplayOpened { width: usize, height: usize },
    /// The bytes of a frame.
    Frame { bytes: Vec<u8> },
}

} // verus!
