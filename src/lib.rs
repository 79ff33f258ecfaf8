//! Core of an imageboard downloader: the decisions of its download pipeline, verified.
pub mod board;
pub mod common;
pub mod error;
pub mod extract;
pub mod integrity;
pub mod laws;
pub mod pipeline;
pub mod post;
pub mod queue;
pub mod rerun;
pub mod sink;
