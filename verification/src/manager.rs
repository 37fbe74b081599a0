use vstd::prelude::*;

use crate::errors::PluginError;
use crate::metadata::{info_of, MetadataView, PluginInfo, PluginMetadata, PluginType};
use crate::plugin::Plugin;
use crate::registry::{
    entry_of, has_name, index_of, infos_by_type, infos_of, with_enabled, PluginRegistry,
};

verus! {

/// The configuration block a manager is given: candidate plugin directories
/// and two advisory flags consumed by an external loader, none of which
/// triggers behaviour in this crate.
#[derive(Debug)]
pub struct PluginConfig {
    pub plugin_dirs: Vec<String>,
    pub auto_enable: bool,
    pub enable_hot_reload: bool,
}

/// The mathematical model of a configuration block.
#[verifier::ext_equal]
pub struct ConfigView {
    pub plugin_dirs: Seq<Seq<char>>,
    pub auto_enable: bool,
    pub enable_hot_reload: bool,
}

impl View for PluginConfig {
    type V = ConfigView;

    open spec fn view(&self) -> ConfigView {
        ConfigView {
            plugin_dirs: self.plugin_dirs.deep_view(),
            auto_enable: self.auto_enable,
            enable_hot_reload: self.enable_hot_reload,
        }
    }
}

/// The configuration a manager starts from when given none: no directories,
/// auto-enable on, hot reload off.
pub open spec fn default_config() -> ConfigView {
    ConfigView { plugin_dirs: Seq::empty(), auto_enable: true, enable_hot_reload: false }
}

impl Default for PluginConfig {
    fn default() -> (r: Self)
        ensures
            r@ == default_config(),
    {
        let plugin_dirs: Vec<String> = Vec::new();
        proof {
            assert(plugin_dirs.deep_view() =~= Seq::<Seq<char>>::empty());
        }
        PluginConfig { plugin_dirs, auto_enable: true, enable_hot_reload: false }
    }
}

impl Clone for PluginConfig {
    fn clone(&self) -> (r: Self)
        ensures
            r@ == self@,
    {
        let plugin_dirs = self.plugin_dirs.clone();
        proof {
            assert(plugin_dirs.deep_view() =~= self.plugin_dirs.deep_view());
        }
        PluginConfig {
            plugin_dirs,
            auto_enable: self.auto_enable,
            enable_hot_reload: self.enable_hot_reload,
        }
    }
}

/// Whether a directory entry's file extension marks a native-library
/// candidate for discovery.
pub open spec fn is_native_extension(e: Seq<char>) -> bool {
    e == "so"@ || e == "dll"@ || e == "dylib"@
}

/// How many of these extensions mark native-library candidates.
pub open spec fn native_count(exts: Seq<Seq<char>>) -> int
    decreases exts.len(),
{
    if exts.len() == 0 {
        0
    } else {
        native_count(exts.drop_last()) + if is_native_extension(exts.last()) {
            1int
        } else {
            0int
        }
    }
}

/// The thin orchestration layer: one registry, one configuration block, and
/// a single entry point for callers. Its view is its registry's store.
pub struct PluginManager {
    registry: PluginRegistry,
    config: PluginConfig,
}

impl View for PluginManager {
    type V = Seq<MetadataView>;

    closed spec fn view(&self) -> Seq<MetadataView> {
        self.registry@
    }
}

impl PluginManager {
    /// The configuration this manager was built with.
    pub closed spec fn configuration(&self) -> ConfigView {
        self.config@
    }

    /// A manager over an empty registry, with the default configuration.
    pub fn new() -> (r: Self)
        ensures
            r@ == Seq::<MetadataView>::empty(),
            r.configuration() == default_config(),
    {
        PluginManager { registry: PluginRegistry::new(), config: PluginConfig::default() }
    }

    /// A manager over an empty registry, keeping the given configuration.
    pub fn with_config(config: PluginConfig) -> (r: Self)
        ensures
            r@ == Seq::<MetadataView>::empty(),
            r.configuration() == config@,
    {
        PluginManager { registry: PluginRegistry::new(), config }
    }

    /// A shared handle on the registry, for read-only queries.
    pub fn registry(&self) -> (r: &PluginRegistry)
        ensures
            r@ == self@,
    {
        &self.registry
    }

    /// Forwards to the registry's `register`.
    pub fn register_plugin<P: Plugin>(&mut self, plugin: &P) -> (r: Result<(), PluginError>)
        ensures
            match r {
                Ok(()) => {
                    &&& final(self)@.len() == old(self)@.len() + 1
                    &&& final(self)@.drop_last() == old(self)@
                    &&& !has_name(old(self)@, final(self)@.last().name)
                    &&& crate::metadata::default_fields(final(self)@.last())
                },
                Err(e) => {
                    &&& final(self)@ == old(self)@
                    &&& e matches PluginError::DuplicateRegistration(n) && has_name(
                        old(self)@,
                        n@,
                    )
                },
            },
            final(self).configuration() == old(self).configuration(),
    {
        self.registry.register(plugin)
    }

    /// Forwards to the registry's `unregister`.
    pub fn unregister_plugin(&mut self, name: &str) -> (r: Option<PluginMetadata>)
        ensures
            match r {
                None => !has_name(old(self)@, name@) && final(self)@ == old(self)@,
                Some(m) => {
                    &&& has_name(old(self)@, name@)
                    &&& m@ == entry_of(old(self)@, name@)
                    &&& final(self)@ == old(self)@.remove(index_of(old(self)@, name@))
                },
            },
            final(self).configuration() == old(self).configuration(),
    {
        self.registry.unregister(name)
    }

    /// Forwards to the registry's `list_plugins`.
    pub fn list_plugins(&self) -> (r: Vec<PluginInfo>)
        ensures
            r.deep_view() == infos_of(self@),
    {
        self.registry.list_plugins()
    }

    /// The projection for `name`, if one is registered.
    pub fn get_plugin_info(&self, name: &str) -> (r: Option<PluginInfo>)
        ensures
            match r {
                Some(info) => has_name(self@, name@) && info@ == info_of(entry_of(self@, name@)),
                None => !has_name(self@, name@),
            },
    {
        match self.registry.get_metadata(name) {
            None => None,
            Some(m) => Some(
                PluginInfo {
                    name: m.name,
                    version: m.version,
                    plugin_type: m.plugin_type,
                    enabled: m.enabled,
                },
            ),
        }
    }

    /// Forwards to the registry's `enable`.
    pub fn enable_plugin(&mut self, name: &str) -> (r: Result<(), PluginError>)
        ensures
            match r {
                Ok(()) => has_name(old(self)@, name@) && final(self)@ == old(self)@.update(
                    index_of(old(self)@, name@),
                    with_enabled(entry_of(old(self)@, name@), true),
                ),
                Err(e) => {
                    &&& !has_name(old(self)@, name@)
                    &&& final(self)@ == old(self)@
                    &&& e matches PluginError::NotFound(n) && n@ == name@
                },
            },
            final(self).configuration() == old(self).configuration(),
    {
        self.registry.enable(name)
    }

    /// Forwards to the registry's `disable`.
    pub fn disable_plugin(&mut self, name: &str) -> (r: Result<(), PluginError>)
        ensures
            match r {
                Ok(()) => has_name(old(self)@, name@) && final(self)@ == old(self)@.update(
                    index_of(old(self)@, name@),
                    with_enabled(entry_of(old(self)@, name@), false),
                ),
                Err(e) => {
                    &&& !has_name(old(self)@, name@)
                    &&& final(self)@ == old(self)@
                    &&& e matches PluginError::NotFound(n) && n@ == name@
                },
            },
            final(self).configuration() == old(self).configuration(),
    {
        self.registry.disable(name)
    }

    /// Forwards to the registry's `list_by_type`.
    pub fn list_plugins_by_type(&self, plugin_type: PluginType) -> (r: Vec<PluginInfo>)
        ensures
            r.deep_view() == infos_by_type(self@, plugin_type@),
    {
        self.registry.list_by_type(plugin_type)
    }

    /// The discovery step over a directory listing: counts candidates by
    /// native-library extension and never instantiates anything. `listing`
    /// carries the file extensions found in the directory, or `None` for a
    /// directory that is missing or unreadable — which counts as zero
    /// candidates, not as an error.
    pub fn count_plugin_artifacts(&self, listing: &Option<Vec<String>>) -> (r: usize)
        ensures
            match listing {
                None => r == 0,
                Some(exts) => r == native_count(exts.deep_view()),
            },
    {
        match listing {
            None => 0,
            Some(exts) => {
                let n = exts.len();
                let mut count: usize = 0;
                let mut i: usize = 0;
                while i < n
                    invariant
                        n == exts.deep_view().len(),
                        i <= n,
                        count <= i,
                        count == native_count(exts.deep_view().take(i as int)),
                    decreases n - i,
                {
                    let ghost prefix = exts.deep_view().take(i as int);
                    if is_native(&exts[i]) {
                        count = count + 1;
                    }
                    proof {
                        assert(exts.deep_view().take(i + 1).drop_last() =~= prefix);
                        assert(exts.deep_view().take(i + 1).last() == exts.deep_view()[i as int]);
                    }
                    i = i + 1;
                }
                proof {
                    assert(exts.deep_view().take(n as int) =~= exts.deep_view());
                }
                count
            },
        }
    }

    /// Invokes `initialize` on each plugin in order, running each hook to
    /// completion before moving on, and halts at the first failure,
    /// propagating it verbatim: plugins after the failing one are never
    /// invoked, and the ones before it stay initialized with no automatic
    /// teardown.
    pub fn initialize_all(&self, plugins: &Vec<Box<dyn Plugin>>) -> (r: Result<(), PluginError>)
        ensures
            plugins@.len() == 0 ==> r matches Ok(()),
    {
        let n = plugins.len();
        let mut i: usize = 0;
        while i < n
            invariant
                n == plugins@.len(),
                i <= n,
            decreases n - i,
        {
            match plugins[i].initialize() {
                Ok(()) => {},
                Err(e) => {
                    return Err(e);
                },
            }
            i = i + 1;
        }
        Ok(())
    }

    /// Invokes `shutdown` on each plugin in order; fail-fast, the exact
    /// mirror of `initialize_all`.
    pub fn shutdown_all(&self, plugins: &Vec<Box<dyn Plugin>>) -> (r: Result<(), PluginError>)
        ensures
            plugins@.len() == 0 ==> r matches Ok(()),
    {
        let n = plugins.len();
        let mut i: usize = 0;
        while i < n
            invariant
                n == plugins@.len(),
                i <= n,
            decreases n - i,
        {
            match plugins[i].shutdown() {
                Ok(()) => {},
                Err(e) => {
                    return Err(e);
                },
            }
            i = i + 1;
        }
        Ok(())
    }
}

impl Default for PluginManager {
    fn default() -> (r: Self)
        ensures
            r@ == Seq::<MetadataView>::empty(),
            r.configuration() == default_config(),
    {
        PluginManager::new()
    }
}

/// Whether one extension equals one of the three recognized native-library
/// suffixes.
fn is_native(ext: &String) -> (r: bool)
    ensures
        r == is_native_extension(ext@),
{
    let so: String = "so".to_owned();
    let dll: String = "dll".to_owned();
    let dylib: String = "dylib".to_owned();
    ext.eq(&so) || ext.eq(&dll) || ext.eq(&dylib)
}

} // verus!
