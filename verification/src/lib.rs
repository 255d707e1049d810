//! In-memory loader for glTF 2.0 asset descriptions.
//!
//! The crate turns a declarative glTF document (buffers, buffer views,
//! accessors, images, samplers, textures, materials and meshes, all linked by
//! zero-based indices) together with externally resolved binary payloads into
//! a flat, randomly accessible asset graph, and decodes strided binary buffer
//! regions into typed numeric values per the glTF accessor rules.
//!
//! Floating-point components are carried as their IEEE-754 binary32 bit
//! patterns (`u32`), so that every decoding step is exact; a host shell can
//! reinterpret the bits as `f32` at the boundary.

pub mod bits;
pub mod builder;
pub mod document;
pub mod error;
pub mod error_message;
pub mod image_format;
pub mod loaded;
pub mod material;
pub mod mesh;
pub mod sampler;
pub mod util;

pub use bits::u8_to_u32;
pub use bits::u32_to_u8;
pub use bits::i8_to_i32;
pub use bits::i32_to_i8;
