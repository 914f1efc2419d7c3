//! Reliable page capture for on-screen document viewers.
//!
//! The crate holds the decisions of a capture session: how a raw frame of
//! unknown layout becomes a canonical image, how a window rectangle is fitted
//! to a captured display, in which order capture backends and navigation
//! strategies are tried, and how long the session waits between steps. The
//! effects themselves (grabbing pixels, injecting input, writing files) are
//! carried out by a driver that performs one requested action at a time and
//! reports what happened.
//!
//! Beside the capture session the crate holds the rules of two small tools
//! that share its helpers: a video downloader and a thumbnail maker.

pub mod capture;
pub mod cli;
pub mod download;
pub mod driver;
pub mod error;
pub mod focus;
pub mod imaging;
pub mod keyboard;
pub mod pdf_generator;
pub mod pixel;
pub mod text;
pub mod thumbnail;
pub mod window_manager;
