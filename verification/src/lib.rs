//! Fallback-texture resolution core.
//!
//! Watches a set of asynchronously loading image resources, detects which
//! ones fail to load, and substitutes a fallback ("missing texture") image
//! in their place once failure is confirmed. The host application provides
//! the asynchronous loader and the scheduler tick; this crate holds the
//! verified registry, classification and substitution logic.
#![verifier::loop_isolation(false)]

pub mod container;
pub mod fallback;
pub mod handle;
pub mod loader;
pub mod registry;
pub mod state;

pub use container::Container;
pub use fallback::FallbackAsset;
pub use fallback::MissingTexturePlugin;
pub use handle::Handle;
pub use loader::Loader;
pub use registry::ReplaceIfMissing;
pub use state::LoadState;
