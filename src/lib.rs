//! Verified decisions behind setting up GPU resources with gfx-hal: how many
//! push constants a value occupies, how long a buffer of items is, and which
//! device memory type a buffer or an image is placed in.

pub mod buffers;
pub mod memory;
pub mod push_constants;
