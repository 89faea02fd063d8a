//! LZ4 compression services: a one-shot block codec, a one-shot frame codec,
//! and a streaming frame compressor with an at-most-once finalize lifecycle.

pub mod block;
pub mod errors;
pub mod frame;
pub mod stream;
