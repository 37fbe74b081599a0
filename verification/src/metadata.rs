use vstd::prelude::*;

use crate::hooks::{no_hooks, PluginHooks};

verus! {

/// Classification of a plugin's role: a closed set of categories plus one
/// open `Custom` escape hatch, compared by full structural equality
/// including the label.
#[derive(Debug)]
pub enum PluginType {
    Backend,
    Router,
    Middleware,
    Storage,
    Security,
    Monitoring,
    Custom(String),
}

/// The mathematical model of a category: the label of a `Custom` category
/// is a sequence of characters.
#[verifier::ext_equal]
pub enum PluginTypeView {
    Backend,
    Router,
    Middleware,
    Storage,
    Security,
    Monitoring,
    Custom(Seq<char>),
}

impl View for PluginType {
    type V = PluginTypeView;

    open spec fn view(&self) -> PluginTypeView {
        match self {
            PluginType::Backend => PluginTypeView::Backend,
            PluginType::Router => PluginTypeView::Router,
            PluginType::Middleware => PluginTypeView::Middleware,
            PluginType::Storage => PluginTypeView::Storage,
            PluginType::Security => PluginTypeView::Security,
            PluginType::Monitoring => PluginTypeView::Monitoring,
            PluginType::Custom(label) => PluginTypeView::Custom(label@),
        }
    }
}

impl DeepView for PluginType {
    type V = PluginTypeView;

    open spec fn deep_view(&self) -> PluginTypeView {
        self.view()
    }
}

impl Clone for PluginType {
    fn clone(&self) -> (r: Self)
        ensures
            r@ == self@,
    {
        match self {
            PluginType::Backend => PluginType::Backend,
            PluginType::Router => PluginType::Router,
            PluginType::Middleware => PluginType::Middleware,
            PluginType::Storage => PluginType::Storage,
            PluginType::Security => PluginType::Security,
            PluginType::Monitoring => PluginType::Monitoring,
            PluginType::Custom(label) => PluginType::Custom(label.clone()),
        }
    }
}

impl PartialEq for PluginType {
    fn eq(&self, other: &Self) -> (r: bool) {
        match (self, other) {
            (PluginType::Backend, PluginType::Backend) => true,
            (PluginType::Router, PluginType::Router) => true,
            (PluginType::Middleware, PluginType::Middleware) => true,
            (PluginType::Storage, PluginType::Storage) => true,
            (PluginType::Security, PluginType::Security) => true,
            (PluginType::Monitoring, PluginType::Monitoring) => true,
            (PluginType::Custom(x), PluginType::Custom(y)) => x.eq(y),
            _ => false,
        }
    }
}

impl vstd::std_specs::cmp::PartialEqSpecImpl for PluginType {
    open spec fn obeys_eq_spec() -> bool {
        true
    }

    open spec fn eq_spec(&self, other: &PluginType) -> bool {
        self@ == other@
    }
}

/// One descriptive record per registered plugin. The name is the unique key;
/// `enabled` is the only field that mutates after creation.
#[derive(Debug)]
pub struct PluginMetadata {
    pub name: String,
    pub version: String,
    pub plugin_type: PluginType,
    pub description: String,
    pub author: String,
    pub dependencies: Vec<String>,
    pub hooks: PluginHooks,
    pub enabled: bool,
    pub loaded_at: u64,
}

/// The mathematical model of a metadata record.
#[verifier::ext_equal]
pub struct MetadataView {
    pub name: Seq<char>,
    pub version: Seq<char>,
    pub plugin_type: PluginTypeView,
    pub description: Seq<char>,
    pub author: Seq<char>,
    pub dependencies: Seq<Seq<char>>,
    pub hooks: PluginHooks,
    pub enabled: bool,
    pub loaded_at: u64,
}

impl View for PluginMetadata {
    type V = MetadataView;

    open spec fn view(&self) -> MetadataView {
        MetadataView {
            name: self.name@,
            version: self.version@,
            plugin_type: self.plugin_type@,
            description: self.description@,
            author: self.author@,
            dependencies: self.dependencies.deep_view(),
            hooks: self.hooks,
            enabled: self.enabled,
            loaded_at: self.loaded_at,
        }
    }
}

impl DeepView for PluginMetadata {
    type V = MetadataView;

    open spec fn deep_view(&self) -> MetadataView {
        self.view()
    }
}

/// Holds when every field a registration does not fix carries its default:
/// empty description and author, no dependencies, no hooks, and the record
/// enabled from the start.
pub open spec fn default_fields(m: MetadataView) -> bool {
    &&& m.description.len() == 0
    &&& m.author.len() == 0
    &&& m.dependencies.len() == 0
    &&& no_hooks(m.hooks)
    &&& m.enabled
}

/// The record a registration builds: the given identity, defaults everywhere
/// else. The timestamp is read from the wall clock and is not constrained.
pub open spec fn fresh_metadata(
    m: MetadataView,
    name: Seq<char>,
    version: Seq<char>,
    plugin_type: PluginTypeView,
) -> bool {
    &&& m.name == name
    &&& m.version == version
    &&& m.plugin_type == plugin_type
    &&& default_fields(m)
}

/// Relies on `std::time::SystemTime::now`, read as whole seconds since the
/// Unix epoch. Nothing is assumed of the value; a clock standing before the
/// epoch counts as zero.
#[verifier::external_body]
fn unix_seconds_now() -> u64 {
    std::time::SystemTime::now()
        .duration_since(std::time::UNIX_EPOCH)
        .map(|d| d.as_secs())
        .unwrap_or(0)
}

impl PluginMetadata {
    /// A fresh record for a plugin that self-reports `name`, `version` and
    /// `plugin_type`, stamped with the current wall-clock time.
    pub fn new(name: String, version: String, plugin_type: PluginType) -> (r: Self)
        ensures
            fresh_metadata(r@, name@, version@, plugin_type@),
    {
        Self {
            name,
            version,
            plugin_type,
            description: String::new(),
            author: String::new(),
            dependencies: Vec::new(),
            hooks: PluginHooks::none(),
            enabled: true,
            loaded_at: unix_seconds_now(),
        }
    }
}

impl Clone for PluginMetadata {
    /// A field-for-field copy of the record.
    fn clone(&self) -> (r: Self)
        ensures
            r@ == self@,
    {
        let dependencies = self.dependencies.clone();
        proof {
            assert(dependencies.deep_view() =~= self.dependencies.deep_view());
        }
        Self {
            name: self.name.clone(),
            version: self.version.clone(),
            plugin_type: self.plugin_type.clone(),
            description: self.description.clone(),
            author: self.author.clone(),
            dependencies,
            hooks: self.hooks,
            enabled: self.enabled,
            loaded_at: self.loaded_at,
        }
    }
}

/// The read-only projection of a record handed to callers: queries never
/// expose the registry's own entries.
#[derive(Debug)]
pub struct PluginInfo {
    pub name: String,
    pub version: String,
    pub plugin_type: PluginType,
    pub enabled: bool,
}

/// The mathematical model of a projection.
#[verifier::ext_equal]
pub struct InfoView {
    pub name: Seq<char>,
    pub version: Seq<char>,
    pub plugin_type: PluginTypeView,
    pub enabled: bool,
}

impl View for PluginInfo {
    type V = InfoView;

    open spec fn view(&self) -> InfoView {
        InfoView {
            name: self.name@,
            version: self.version@,
            plugin_type: self.plugin_type@,
            enabled: self.enabled,
        }
    }
}

impl DeepView for PluginInfo {
    type V = InfoView;

    open spec fn deep_view(&self) -> InfoView {
        self.view()
    }
}

impl Clone for PluginInfo {
    fn clone(&self) -> (r: Self)
        ensures
            r@ == self@,
    {
        Self {
            name: self.name.clone(),
            version: self.version.clone(),
            plugin_type: self.plugin_type.clone(),
            enabled: self.enabled,
        }
    }
}

/// The projection of one record.
pub open spec fn info_of(m: MetadataView) -> InfoView {
    InfoView { name: m.name, version: m.version, plugin_type: m.plugin_type, enabled: m.enabled }
}

} // verus!
