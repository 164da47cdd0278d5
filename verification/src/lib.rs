//! Wallpaper support for a damage-tracked Wayland compositor.
//!
//! The host compositor owns the event loop, the GPU context and the final
//! presentation; this library owns the logic in between: a process-wide
//! registry of unique instance ids, deferred image decoding with
//! last-request-wins replacement, a lazily filled single-texture cache keyed
//! to the image generation, and the per-frame geometry and damage contract
//! the compositor needs to decide whether and where to repaint.
//!
//! GPU uploads and blits, file reads and background threads are performed by
//! the host; the library decides when they must happen and accounts for their
//! results.

pub mod geometry;
pub mod image_data;
pub mod registry;
pub mod state;
pub mod texture;

pub use geometry::{Extent, Rect};
pub use image_data::{decode, detect_format, DecodedImage, ImageKind, LoadError};
pub use registry::{next_id, IdRegistry};
pub use state::{DrawPlan, LoadMode, WallpaperFrame, WallpaperState};
pub use texture::{TextureSlot, UploadError};
