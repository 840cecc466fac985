//! A verified core for a wallpaper-fetching pipeline: feed listings are
//! classified for downloadable images, downloaded bytes are stored under
//! content-addressed names, results from concurrent workers are pooled, and
//! a bounded retry loop drives the external display command.
pub mod aggregate;
pub mod classifier;
pub mod encoding;
pub mod entities;
pub mod retry;
pub mod setter;
pub mod store;
pub mod worker;
