//! A downloader for a catalog of disc images: it searches the catalog, fetches an archive
//! over HTTP in a way that survives interruptions, and unpacks it.
//!
//! The library decides; it does no input or output itself. Each long-running task is a
//! state: it names the outside work that it waits for, and is stepped with what came of
//! that work. The caller does the work and reports back.

pub mod catalog;
pub mod config;
pub mod downloader;
pub mod extract;
pub mod ini;
pub mod menu;
pub mod models;
pub mod probe;
pub mod text;
pub mod transfer;
pub mod transfer_laws;
pub mod utils;

pub use config::Config;
pub use downloader::Downloader;
pub use models::Game;
pub use utils::setup_folders;
