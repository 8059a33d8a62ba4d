pub mod chunk_type;

pub use chunk_type::{ChunkType, ChunkTypeError};
