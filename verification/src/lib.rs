//! A retained-scene rendering core: the items of a window are recorded as an
//! ordered list of drawing operations, under a stack of transform, clip and
//! opacity states, and the list is handed to a graphics backend once per
//! frame.
//!
//! All numbers are fixed-point ([`fixed`]), so that every operation has one
//! exact result. What comes in from the toolkit in floating point (lengths,
//! the sine and cosine of an angle, the fitting of an image into its item) is
//! converted by the caller; what goes out to the rasterizer is the recorded
//! [`scene::Scene`], which the caller plays back.
//!
//! - [`fixed`], [`geometry`]: numbers, rectangles and transforms.
//! - [`brush`]: the brushes of items and their conversion to paints.
//! - [`scene`]: the recorded scene.
//! - [`image`]: image sources, decoding, and the cache of decoded pixels.
//! - [`items`]: what items give the renderer to draw.
//! - [`itemrenderer`]: the state stack and the drawing operations.
//! - [`laws`]: what holds of the item renderer over whole runs of calls.
//! - [`renderer`]: the course of a frame, and the interface of a graphics
//!   backend.
//! - [`wgpu`]: which resources a GPU backend holds, and what follows from
//!   that.

pub mod fixed;
pub mod geometry;
pub mod scene;
pub mod brush;
pub mod image;
pub mod items;
pub mod itemrenderer;
pub mod laws;
pub mod renderer;
pub mod wgpu;

pub use brush::{brush_to_peniko_brush_owned, brush_to_peniko_color, to_peniko_color};
pub use itemrenderer::{VelloBrush, VelloItemRenderer};
pub use renderer::{GraphicsBackend, VelloRenderer};
pub use wgpu::WgpuBackend;
