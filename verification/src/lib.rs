//! Verified core of a grid-based media browser.
//!
//! * [`geometry`] and [`camera`]: points, rectangles, the viewport, and the
//!   test that decides what is on screen.
//! * [`cache`]: the thumbnail cache and its scheduler, which admits one fetch
//!   at a time.
//! * [`tween`]: tweens and the queues that play them.
//! * [`catalog`]: rows of videos as the browser holds them.
//! * [`navigation`]: the state machine that keys and time drive.
//! * [`layout`]: the grid of cells, and the frame that is drawn of it.
//! * [`json`], [`ratio`] and [`loader`]: reading the catalog from its JSON
//!   documents.
//! * [`thumbnail`]: decoded thumbnails on their way to the renderer.
//! * [`session`]: all of it together, stepped once per frame.
//!
//! Everything here works on integers. Lengths are whole layout units, times
//! are whole milliseconds, and fractional quantities are fixed-point values
//! whose scale is a named constant of the module that owns them. Nothing
//! here waits, draws or fetches: the caller does, and reports.

pub mod cache;
pub mod camera;
pub mod catalog;
pub mod geometry;
pub mod json;
pub mod layout;
pub mod loader;
pub mod navigation;
pub mod ratio;
pub mod session;
pub mod thumbnail;
pub mod tween;
