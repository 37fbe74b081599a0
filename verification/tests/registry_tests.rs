use plugin_registry::{Plugin, PluginError, PluginRegistry, PluginType};

struct TestPlugin;

impl Plugin for TestPlugin {
    fn name(&self) -> &str {
        "test"
    }
    fn version(&self) -> &str {
        "1.0.0"
    }
    fn plugin_type(&self) -> PluginType {
        PluginType::Custom("test".to_string())
    }
    fn initialize(&self) -> Result<(), PluginError> {
        Ok(())
    }
    fn shutdown(&self) -> Result<(), PluginError> {
        Ok(())
    }
}

struct BackendTestPlugin;

impl Plugin for BackendTestPlugin {
    fn name(&self) -> &str {
        "backend-test"
    }
    fn version(&self) -> &str {
        "1.0.0"
    }
    fn plugin_type(&self) -> PluginType {
        PluginType::Backend
    }
    fn initialize(&self) -> Result<(), PluginError> {
        Ok(())
    }
    fn shutdown(&self) -> Result<(), PluginError> {
        Ok(())
    }
}

struct RouterTestPlugin;

impl Plugin for RouterTestPlugin {
    fn name(&self) -> &str {
        "router-test"
    }
    fn version(&self) -> &str {
        "1.0.0"
    }
    fn plugin_type(&self) -> PluginType {
        PluginType::Router
    }
    fn initialize(&self) -> Result<(), PluginError> {
        Ok(())
    }
    fn shutdown(&self) -> Result<(), PluginError> {
        Ok(())
    }
}

#[test]
fn test_plugin_registry() {
    let mut registry = PluginRegistry::new();

    let plugin = TestPlugin;
    registry.register(&plugin).unwrap();

    let plugins = registry.list_plugins();
    assert_eq!(plugins.len(), 1);
}

#[test]
fn test_plugin_enable_disable() {
    let mut registry = PluginRegistry::new();

    let plugin = TestPlugin;
    registry.register(&plugin).unwrap();

    registry.disable("test").unwrap();
    assert!(!registry.is_enabled("test"));

    registry.enable("test").unwrap();
    assert!(registry.is_enabled("test"));
}

#[test]
fn test_list_by_type() {
    let mut registry = PluginRegistry::new();

    registry.register(&BackendTestPlugin).unwrap();
    registry.register(&RouterTestPlugin).unwrap();

    let backends = registry.list_by_type(PluginType::Backend);
    assert_eq!(backends.len(), 1);
}

#[test]
fn test_plugin_unregister() {
    let mut registry = PluginRegistry::new();

    let plugin = TestPlugin;
    registry.register(&plugin).unwrap();

    let removed = registry.unregister("test");
    assert!(removed.is_some());

    let plugins = registry.list_plugins();
    assert_eq!(plugins.len(), 0);
}

#[test]
fn test_duplicate_registration_rejected() {
    let mut registry = PluginRegistry::new();

    registry
        .register_entry("test".to_string(), "1.0.0".to_string(), PluginType::Backend)
        .unwrap();
    let second = registry.register_entry(
        "test".to_string(),
        "2.0.0".to_string(),
        PluginType::Router,
    );
    match second {
        Err(PluginError::DuplicateRegistration(name)) => assert_eq!(name, "test"),
        _ => panic!("second registration must fail with DuplicateRegistration"),
    }

    // The store keeps only the first entry's metadata.
    let meta = registry.get_metadata("test").unwrap();
    assert_eq!(meta.version, "1.0.0");
    assert!(matches!(meta.plugin_type, PluginType::Backend));
    assert_eq!(registry.list_plugins().len(), 1);
}

#[test]
fn test_enable_disable_idempotent() {
    let mut registry = PluginRegistry::new();
    registry
        .register_entry("p".to_string(), "0.1".to_string(), PluginType::Storage)
        .unwrap();

    assert!(registry.is_enabled("p"));
    registry.enable("p").unwrap();
    assert!(registry.is_enabled("p"));

    registry.disable("p").unwrap();
    assert!(!registry.is_enabled("p"));
    registry.disable("p").unwrap();
    assert!(!registry.is_enabled("p"));

    let meta = registry.get_metadata("p").unwrap();
    assert_eq!(meta.name, "p");
    assert_eq!(meta.version, "0.1");
    assert!(!meta.enabled);
}

#[test]
fn test_unknown_name_asymmetry() {
    let mut registry = PluginRegistry::new();

    // A never-registered name is "not enabled", without an error.
    assert!(!registry.is_enabled("ghost"));

    // The same name is an error for enable and disable.
    match registry.enable("ghost") {
        Err(PluginError::NotFound(name)) => assert_eq!(name, "ghost"),
        _ => panic!("enable on an absent name must fail with NotFound"),
    }
    match registry.disable("ghost") {
        Err(PluginError::NotFound(name)) => assert_eq!(name, "ghost"),
        _ => panic!("disable on an absent name must fail with NotFound"),
    }
}

#[test]
fn test_unregister_then_fresh_register() {
    let mut registry = PluginRegistry::new();
    registry
        .register_entry("p".to_string(), "0.1".to_string(), PluginType::Security)
        .unwrap();
    registry.disable("p").unwrap();

    let removed = registry.unregister("p").unwrap();
    assert_eq!(removed.name, "p");
    assert!(!removed.enabled);

    assert!(registry.get_metadata("p").is_none());
    assert_eq!(registry.list_plugins().len(), 0);
    assert!(registry.unregister("p").is_none());

    // A fresh registration with the same name starts over with defaults.
    registry
        .register_entry("p".to_string(), "0.2".to_string(), PluginType::Security)
        .unwrap();
    let meta = registry.get_metadata("p").unwrap();
    assert!(meta.enabled);
    assert_eq!(meta.version, "0.2");
    assert!(meta.dependencies.is_empty());
}

#[test]
fn test_list_order_and_contents() {
    let mut registry = PluginRegistry::new();
    registry
        .register_entry("alpha".to_string(), "1".to_string(), PluginType::Backend)
        .unwrap();
    registry
        .register_entry("beta".to_string(), "2".to_string(), PluginType::Monitoring)
        .unwrap();
    registry
        .register_entry("gamma".to_string(), "3".to_string(), PluginType::Custom("x".to_string()))
        .unwrap();

    let infos = registry.list_plugins();
    let names: Vec<&str> = infos.iter().map(|i| i.name.as_str()).collect();
    assert_eq!(names, vec!["alpha", "beta", "gamma"]);
    assert!(infos.iter().all(|i| i.enabled));
    assert_eq!(infos[2].version, "3");
}

#[test]
fn test_custom_type_label_equality() {
    let a = PluginType::Custom("x".to_string());
    let b = PluginType::Custom("x".to_string());
    let c = PluginType::Custom("y".to_string());
    assert!(a == b);
    assert!(a != c);
    assert!(PluginType::Backend == PluginType::Backend);
    assert!(PluginType::Backend != PluginType::Router);

    let mut registry = PluginRegistry::new();
    registry
        .register_entry("one".to_string(), "1".to_string(), PluginType::Custom("x".to_string()))
        .unwrap();
    registry
        .register_entry("two".to_string(), "1".to_string(), PluginType::Custom("y".to_string()))
        .unwrap();
    let xs = registry.list_by_type(PluginType::Custom("x".to_string()));
    assert_eq!(xs.len(), 1);
    assert_eq!(xs[0].name, "one");
}
