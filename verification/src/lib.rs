//! An in-process plugin registry and lifecycle core.
//!
//! The registry tracks one metadata record per registered plugin, keyed by
//! the plugin's self-reported name; it owns name uniqueness, the
//! enabled/disabled flag and category queries. The manager wraps one registry
//! behind a single entry point and runs batch lifecycle operations over
//! plugin capability objects in order, halting at the first failure.

pub mod errors;
pub mod hooks;
pub mod manager;
pub mod metadata;
pub mod plugin;
pub mod registry;

pub use errors::PluginError;
pub use manager::{PluginConfig, PluginManager};
pub use hooks::PluginHooks;
pub use metadata::{PluginInfo, PluginMetadata, PluginType};
pub use plugin::{BackendPlugin, MiddlewarePlugin, Plugin, RouterPlugin};
pub use registry::PluginRegistry;
