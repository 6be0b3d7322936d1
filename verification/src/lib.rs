pub mod seq_index;
pub mod encoding;
pub mod binary_search;
pub mod result_store;
pub mod redis;
pub mod misc;
pub mod threads;
