//! Verified core of a platform adapter for a native windowing, input and
//! audio library.
//!
//! The adapter's value lies in a handful of small computations that sit
//! between the engine and the native library: normalizing the library's
//! event-tag union onto the engine's own [`event::Event`] union, resolving an
//! 8-bit indexed frame buffer through a palette into 24-bit RGB texture
//! bytes, fitting that frame into a resizable window (integer scale and
//! centering offsets), and packing the desired audio format into the field
//! widths the native library expects. Those computations live here, each with
//! a contract; the unverified shell that owns the native window, texture,
//! timer, event pump and audio device calls into them and does nothing else.

pub mod audio;
pub mod event;
pub mod image;
pub mod native_event;
pub mod render;
pub mod window;
