//! Headless-browser session orchestration and Open-Graph metadata extraction.

pub mod container;
pub mod extract;
pub mod locks;
pub mod page;
pub mod ports;
pub mod session;
pub mod types;

pub use types as ty;
