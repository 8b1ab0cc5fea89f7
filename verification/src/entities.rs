//! The records that the pipeline reads and writes.

pub mod instagram_video;
pub mod recipes;
