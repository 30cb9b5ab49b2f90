//! Model lifecycle and inference core of a text-embedding service: device
//! selection, model identity and weight layout, shard-index resolution, the
//! single-slot model registry and the shaping of an embedding row.

pub mod builder;
pub mod device;
pub mod embedding;
pub mod errors;
pub mod identity;
pub mod registry;
pub mod resolver;
pub mod shard_index;
