//! A frame painter for tessellated GUI primitives.
//!
//! Every displayed frame hands the painter its whole list of primitives:
//! triangle meshes and render callbacks, each with a clip rectangle. The
//! painter owns the table of device textures and decides which device
//! operations the frame consists of, and in which order. It never touches the
//! device itself: each entry point returns the operations as values, and the
//! host performs them on its graphics context.
//!
//! What the host does before it calls:
//! - It scales rectangles by the pixels-per-point factor and rounds them to
//!   the nearest pixel. The painter works on integers alone.
//! - It turns images into texels of four bytes.
//! - It creates the device textures that image updates will need, as
//!   [`Painter::textures_needed`] counts them.
//!
//! The modules:
//! - [`clip`]: scissor rectangles and callback viewports.
//! - [`texture`], [`primitive`]: the input of a frame.
//! - [`device`]: the operations that the painter returns.
//! - [`pipeline`]: what is decided once, from the abilities of the device.
//! - [`state`]: the painter as a mathematical value.
//! - [`frame`]: the operations of a frame as functions of that value.
//! - [`painter`]: the painter itself.
//! - [`model`]: a model of the device, on which the operations are run.
//! - [`laws`], [`frame_laws`], [`texture_laws`]: what holds of every table,
//!   every frame and every upload.

pub mod clip;
pub mod device;
pub mod frame;
pub mod frame_laws;
pub mod laws;
pub mod model;
pub mod painter;
pub mod pipeline;
pub mod primitive;
pub mod state;
pub mod texture;
pub mod texture_laws;

pub use clip::{callback_viewport, scissor_rect, DeviceRect, PixelRect};
pub use device::{Buffer, DeviceOp, Diagnostic, Framebuffer, Program, Texture};
pub use painter::{clear, set_clip_rect, Painter};
pub use pipeline::{ColorMode, DeviceCaps, ShaderVersion};
pub use primitive::{ClippedPrimitive, Mesh, PaintCallback, Primitive};
pub use state::{DeviceObjects, PainterError};
pub use texture::{ImageDelta, TextureFilter, TextureId, TexturesDelta};
