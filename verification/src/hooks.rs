use vstd::prelude::*;

verus! {

/// The extension points a plugin declares participation in.
///
/// Purely descriptive: the dispatch logic that would consult these flags
/// belongs to the host runtime, not to this crate.
#[derive(Clone, Copy, Debug, PartialEq, Eq, Structural)]
pub struct PluginHooks {
    pub pre_execution: bool,
    pub post_execution: bool,
    pub pre_routing: bool,
    pub post_routing: bool,
    pub on_error: bool,
    pub on_request: bool,
    pub on_response: bool,
}

/// Holds when no extension point is declared.
pub open spec fn no_hooks(h: PluginHooks) -> bool {
    &&& !h.pre_execution
    &&& !h.post_execution
    &&& !h.pre_routing
    &&& !h.post_routing
    &&& !h.on_error
    &&& !h.on_request
    &&& !h.on_response
}

/// Holds when every extension point is declared.
pub open spec fn all_hooks(h: PluginHooks) -> bool {
    &&& h.pre_execution
    &&& h.post_execution
    &&& h.pre_routing
    &&& h.post_routing
    &&& h.on_error
    &&& h.on_request
    &&& h.on_response
}

impl PluginHooks {
    /// The canonical preset with every extension point set.
    pub fn all() -> (r: Self)
        ensures
            all_hooks(r),
    {
        Self {
            pre_execution: true,
            post_execution: true,
            pre_routing: true,
            post_routing: true,
            on_error: true,
            on_request: true,
            on_response: true,
        }
    }

    /// The canonical preset with every extension point clear.
    pub fn none() -> (r: Self)
        ensures
            no_hooks(r),
    {
        Self::default()
    }
}

impl Default for PluginHooks {
    fn default() -> (r: Self)
        ensures
            no_hooks(r),
    {
        Self {
            pre_execution: false,
            post_execution: false,
            pre_routing: false,
            post_routing: false,
            on_error: false,
            on_request: false,
            on_response: false,
        }
    }
}

} // verus!
