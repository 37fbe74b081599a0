use vstd::prelude::*;

use crate::errors::PluginError;
use crate::metadata::PluginType;

verus! {

/// The capability contract every extension must satisfy: a stable name used
/// as the uniqueness key, a version string, a category tag, and two
/// lifecycle hooks, each reporting success or a typed failure.
///
/// The hooks may do arbitrary work and may fail for reasons of their own, so
/// no contract is placed on any method here; the registry and manager state
/// what they guarantee whatever these return.
pub trait Plugin {
    fn name(&self) -> &str;

    fn version(&self) -> &str;

    fn plugin_type(&self) -> PluginType;

    fn initialize(&self) -> Result<(), PluginError>;

    fn shutdown(&self) -> Result<(), PluginError>;
}

/// A sample backend extension with trivial lifecycle hooks.
pub struct BackendPlugin;

impl Plugin for BackendPlugin {
    fn name(&self) -> &str {
        "custom-backend"
    }

    fn version(&self) -> &str {
        "1.0.0"
    }

    fn plugin_type(&self) -> PluginType {
        PluginType::Backend
    }

    fn initialize(&self) -> Result<(), PluginError> {
        Ok(())
    }

    fn shutdown(&self) -> Result<(), PluginError> {
        Ok(())
    }
}

/// A sample routing extension with trivial lifecycle hooks.
pub struct RouterPlugin;

impl Plugin for RouterPlugin {
    fn name(&self) -> &str {
        "custom-router"
    }

    fn version(&self) -> &str {
        "1.0.0"
    }

    fn plugin_type(&self) -> PluginType {
        PluginType::Router
    }

    fn initialize(&self) -> Result<(), PluginError> {
        Ok(())
    }

    fn shutdown(&self) -> Result<(), PluginError> {
        Ok(())
    }
}

/// A sample middleware extension with trivial lifecycle hooks.
pub struct MiddlewarePlugin;

impl Plugin for MiddlewarePlugin {
    fn name(&self) -> &str {
        "custom-middleware"
    }

    fn version(&self) -> &str {
        "1.0.0"
    }

    fn plugin_type(&self) -> PluginType {
        PluginType::Middleware
    }

    fn initialize(&self) -> Result<(), PluginError> {
        Ok(())
    }

    fn shutdown(&self) -> Result<(), PluginError> {
        Ok(())
    }
}

} // verus!
