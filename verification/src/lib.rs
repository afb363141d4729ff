//! The core of a small real-time renderer, without the window and without
//! the driver.
//!
//! The crate decides which calls a renderer makes of an OpenGL 4.6 driver
//! and in which order, what becomes of each GPU object when the driver
//! refuses a call, and how a chain of post-processing effects is laid over
//! off-screen render targets. It never talks to a driver itself. Every call
//! is a [`command::Command`] value, and every answer of the driver comes
//! back as a [`command::Reply`]; the embedding program supplies the function
//! that turns the one into the other. What the crate promises is therefore
//! stated, and proved, of sequences of calls and answers:
//!
//! * [`app`] holds the context, which queues calls and keeps a model of the
//!   driver's viewport and draw target, the hooks of an application, and the
//!   life cycle of the renderer under the signals of its window.
//! * [`pending`] runs work that takes several calls, any of which may be
//!   refused, and takes it back when one is.
//! * [`extensions`] decides from the entry points that the driver has
//!   whether the renderer can start, and with which capabilities.
//! * [`texture`], [`frame_buffer`], [`shader`], [`program`],
//!   [`vertex_buffer`] and [`vertex_array`] each own one kind of GPU object.
//! * [`effects`] is what compositing stages have in common, [`pixelate`] and
//!   [`voronoi`] are two of them, and [`compositor`] draws a chain of them.
//! * [`command`], [`error`] and [`gl`] hold the vocabulary.
pub mod gl;
pub mod command;
pub mod error;
pub mod extensions;
pub mod app;
pub mod pending;
pub mod texture;
pub mod frame_buffer;
pub mod shader;
pub mod program;
pub mod vertex_buffer;
pub mod vertex_array;
pub mod effects;
pub mod pixelate;
pub mod voronoi;
pub mod compositor;
