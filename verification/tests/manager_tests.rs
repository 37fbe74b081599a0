use std::cell::Cell;
use std::rc::Rc;

use plugin_registry::{
    BackendPlugin, MiddlewarePlugin, Plugin, PluginConfig, PluginError, PluginHooks,
    PluginManager, PluginMetadata, PluginType, RouterPlugin,
};

struct TestPlugin;

impl Plugin for TestPlugin {
    fn name(&self) -> &str {
        "test"
    }
    fn version(&self) -> &str {
        "1.0.0"
    }
    fn plugin_type(&self) -> PluginType {
        PluginType::Custom("test".to_string())
    }
    fn initialize(&self) -> Result<(), PluginError> {
        Ok(())
    }
    fn shutdown(&self) -> Result<(), PluginError> {
        Ok(())
    }
}

/// A plugin whose hooks record that they ran and fail on demand.
struct ProbePlugin {
    name: String,
    fail_message: Option<String>,
    init_ran: Rc<Cell<bool>>,
    shutdown_ran: Rc<Cell<bool>>,
}

impl ProbePlugin {
    fn new(name: &str, fail_message: Option<&str>) -> (Self, Rc<Cell<bool>>, Rc<Cell<bool>>) {
        let init_ran = Rc::new(Cell::new(false));
        let shutdown_ran = Rc::new(Cell::new(false));
        let plugin = ProbePlugin {
            name: name.to_string(),
            fail_message: fail_message.map(|m| m.to_string()),
            init_ran: Rc::clone(&init_ran),
            shutdown_ran: Rc::clone(&shutdown_ran),
        };
        (plugin, init_ran, shutdown_ran)
    }
}

impl Plugin for ProbePlugin {
    fn name(&self) -> &str {
        &self.name
    }
    fn version(&self) -> &str {
        "0.0.0"
    }
    fn plugin_type(&self) -> PluginType {
        PluginType::Middleware
    }
    fn initialize(&self) -> Result<(), PluginError> {
        self.init_ran.set(true);
        match &self.fail_message {
            Some(m) => Err(PluginError::LifecycleFailure(m.clone())),
            None => Ok(()),
        }
    }
    fn shutdown(&self) -> Result<(), PluginError> {
        self.shutdown_ran.set(true);
        match &self.fail_message {
            Some(m) => Err(PluginError::LifecycleFailure(m.clone())),
            None => Ok(()),
        }
    }
}

#[test]
fn test_plugin_manager() {
    let mut manager = PluginManager::new();

    let plugin = TestPlugin;
    manager.register_plugin(&plugin).unwrap();

    let plugins = manager.list_plugins();
    assert_eq!(plugins.len(), 1);
}

#[test]
fn test_plugin_hooks() {
    let hooks = PluginHooks::all();
    assert!(hooks.pre_execution);
    assert!(hooks.post_execution);
    assert!(hooks.on_error);

    let hooks = PluginHooks::none();
    assert!(!hooks.pre_execution);
    assert!(!hooks.post_execution);
}

#[test]
fn test_metadata_defaults() {
    let meta = PluginMetadata::new(
        "m".to_string(),
        "1.2.3".to_string(),
        PluginType::Monitoring,
    );
    assert_eq!(meta.name, "m");
    assert_eq!(meta.version, "1.2.3");
    assert!(matches!(meta.plugin_type, PluginType::Monitoring));
    assert_eq!(meta.description, "");
    assert_eq!(meta.author, "");
    assert!(meta.dependencies.is_empty());
    assert!(meta.enabled);
    assert!(!meta.hooks.on_request);
}

#[test]
fn test_manager_pass_through() {
    let mut manager = PluginManager::new();
    manager.register_plugin(&BackendPlugin).unwrap();
    manager.register_plugin(&RouterPlugin).unwrap();
    manager.register_plugin(&MiddlewarePlugin).unwrap();

    let info = manager.get_plugin_info("custom-backend").unwrap();
    assert_eq!(info.version, "1.0.0");
    assert!(matches!(info.plugin_type, PluginType::Backend));
    assert!(info.enabled);

    manager.disable_plugin("custom-router").unwrap();
    assert!(!manager.registry().is_enabled("custom-router"));
    manager.enable_plugin("custom-router").unwrap();
    assert!(manager.registry().is_enabled("custom-router"));

    let removed = manager.unregister_plugin("custom-middleware").unwrap();
    assert_eq!(removed.name, "custom-middleware");
    assert!(manager.get_plugin_info("custom-middleware").is_none());

    let backends = manager.list_plugins_by_type(PluginType::Backend);
    assert_eq!(backends.len(), 1);
    assert_eq!(backends[0].name, "custom-backend");
}

#[test]
fn test_manager_config() {
    let config = PluginConfig::default();
    assert!(config.plugin_dirs.is_empty());
    assert!(config.auto_enable);
    assert!(!config.enable_hot_reload);

    let mut custom = config.clone();
    custom.plugin_dirs.push("/tmp/plugins".to_string());
    custom.enable_hot_reload = true;
    let manager = PluginManager::with_config(custom);
    assert_eq!(manager.list_plugins().len(), 0);
}

#[test]
fn test_initialize_all_fail_fast() {
    let manager = PluginManager::new();
    let (a, a_ran, _) = ProbePlugin::new("a", None);
    let (b, b_ran, _) = ProbePlugin::new("b", Some("b broke"));
    let (c, c_ran, _) = ProbePlugin::new("c", None);
    let plugins: Vec<Box<dyn Plugin>> = vec![Box::new(a), Box::new(b), Box::new(c)];

    let result = manager.initialize_all(&plugins);
    match result {
        Err(PluginError::LifecycleFailure(message)) => assert_eq!(message, "b broke"),
        _ => panic!("the batch must propagate the failing plugin's error"),
    }

    // The plugin before the failure ran and stays initialized with no
    // automatic teardown; the one after the failure was never invoked.
    assert!(a_ran.get());
    assert!(b_ran.get());
    assert!(!c_ran.get());
}

#[test]
fn test_shutdown_all_runs_every_plugin() {
    let manager = PluginManager::new();
    let (a, _, a_down) = ProbePlugin::new("a", None);
    let (b, _, b_down) = ProbePlugin::new("b", None);
    let plugins: Vec<Box<dyn Plugin>> = vec![Box::new(a), Box::new(b)];
    assert!(manager.shutdown_all(&plugins).is_ok());
    assert!(a_down.get() && b_down.get());
}

#[test]
fn test_sample_plugins_lifecycle() {
    let manager = PluginManager::new();
    let plugins: Vec<Box<dyn Plugin>> = vec![
        Box::new(BackendPlugin),
        Box::new(RouterPlugin),
        Box::new(MiddlewarePlugin),
    ];
    assert!(manager.initialize_all(&plugins).is_ok());
    assert!(manager.shutdown_all(&plugins).is_ok());
}

#[test]
fn test_discovery_count() {
    let manager = PluginManager::new();

    // A missing or unreadable directory yields no listing: zero candidates,
    // not an error.
    assert_eq!(manager.count_plugin_artifacts(&None), 0);

    let listing = vec![
        "so".to_string(),
        "txt".to_string(),
        "dll".to_string(),
        "dylib".to_string(),
        "rs".to_string(),
    ];
    assert_eq!(manager.count_plugin_artifacts(&Some(listing)), 3);

    assert_eq!(manager.count_plugin_artifacts(&Some(Vec::new())), 0);
}
