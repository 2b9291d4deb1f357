//! A scene composer for animated vector graphics.
//!
//! A frame is a scene: drawing commands in the order in which they are
//! drawn, with layers that are opened and closed in balance. Text comes as
//! glyph runs and is placed glyph by glyph, each glyph a fragment that is
//! made once and kept in a cache. The window that shows the frames has a
//! surface with a lifecycle of its own, and a driver that composes one
//! frame after the other.
//!
//! Every coordinate and factor is a fixed-point number: an `i32` that counts
//! units of 1/65536. Sums saturate at the ends of that range, and products
//! are rounded down.
//!
//! - `geometry`: scalars, points, paths and affine transforms
//! - `scene`: drawing commands, scenes and the scene builder
//! - `glyph`: fonts and the cache of glyph fragments
//! - `text`: layouts of shaped text and their placement in a scene
//! - `resolve`: a scene with its fragments written out, for a rasteriser
//! - `frame`: the scene of one frame of the animation
//! - `surface`: the lifecycle of the presentation surface
//! - `window`: the state of the window and the driver of its frames

pub mod geometry;
pub mod scene;
pub mod glyph;
pub mod text;
pub mod resolve;
pub mod frame;
pub mod surface;
pub mod window;
