//! The verified core of a small real-time renderer: reading a mesh
//! description, laying out vertex data, planning the calls sent to the
//! graphics device and sequencing the frames.
//!
//! - `text` scans bytes: tokens, indices, the shape of numbers.
//! - `object` reads a mesh description and puts the interleaved vertex stream
//!   together.
//! - `opengl` manages the objects of the graphics device. It records the
//!   calls for the device instead of making them.
//! - `frame` handles the events of the window and draws the frames, again by
//!   recording calls.
//!
//! The library holds no real numbers. Where a number of a mesh is needed it
//! says where the number stands in the text; where a scalar goes to the
//! device it carries the bit pattern; and the vertex stream is put together
//! of scalars of any type that can be copied.

pub mod frame;
pub mod object;
pub mod opengl;
pub mod text;
