use vstd::prelude::*;

verus! {

/// The failures surfaced by the registry and the manager.
///
/// `DuplicateRegistration` and `NotFound` report a store that was already
/// consistent and was left untouched; `LifecycleFailure` reports a plugin's
/// own hook failing, after which earlier plugins in the batch may be live.
#[derive(Debug)]
pub enum PluginError {
    /// A plugin with this name is already registered; the store is unchanged.
    DuplicateRegistration(String),
    /// No plugin with this name is registered.
    NotFound(String),
    /// A plugin's initialize or shutdown hook reported this failure.
    LifecycleFailure(String),
}

} // verus!
