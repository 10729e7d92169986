//! Lays values out in bytes by the alignment, size and padding rules of GPU
//! shading languages for host-shareable buffers.

pub mod align;
pub mod block;
pub mod encode;
pub mod error;
pub mod laws;
pub mod layout;
pub mod mat;
pub mod serializer;
pub mod value;
pub mod vec;

pub use align::Align;
pub use block::{WebGPUBlock, WebGPUItem};
pub use encode::{serialize_webgpu, serialize_webgpu_buffer};
pub use error::{ErrorKind, WebGPUSerializeError};
pub use value::Value;
