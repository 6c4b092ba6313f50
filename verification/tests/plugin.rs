use sentient_core::EventRegistry;
use sentient_core::SentientCorePlugin;

#[test]
fn name_is_fixed() {
    let plugin = SentientCorePlugin::new();
    assert_eq!(plugin.name(), "Sentient-Core");
}

#[test]
fn version_is_fixed() {
    let plugin = SentientCorePlugin::new();
    assert_eq!(plugin.version(), "1.0.0");
}

#[test]
fn init_then_shutdown_succeeds() {
    let mut plugin = SentientCorePlugin::new();
    assert!(plugin.on_init().is_ok());
    assert!(plugin.on_shutdown().is_ok());
}

#[test]
fn register_handlers_succeeds_and_subscribes_nothing() {
    let mut plugin = SentientCorePlugin::new();
    let mut registry = EventRegistry::new();
    assert_eq!(registry.subscription_count(), 0);
    assert!(plugin.register_handlers(&mut registry).is_ok());
    assert_eq!(registry.subscription_count(), 0);
}

#[test]
fn repeated_construction_yields_identical_instances() {
    let first = SentientCorePlugin::new();
    let second = SentientCorePlugin::new();
    assert_eq!(first.name(), second.name());
    assert_eq!(first.version(), second.version());
}

#[test]
fn instances_share_no_state() {
    let mut driven = SentientCorePlugin::new();
    let untouched = SentientCorePlugin::new();
    assert!(driven.on_init().is_ok());
    assert!(driven.on_shutdown().is_ok());
    assert_eq!(untouched.name(), "Sentient-Core");
    assert_eq!(driven.name(), "Sentient-Core");
}

#[test]
fn registry_records_subscriptions() {
    let mut registry = EventRegistry::new();
    registry.subscribe(String::from("player_joined"));
    assert_eq!(registry.subscription_count(), 1);
    registry.subscribe(String::from("player_left"));
    assert_eq!(registry.subscription_count(), 2);
}

#[test]
fn full_lifecycle_succeeds_without_registrations() {
    let mut plugin = SentientCorePlugin::new();
    let mut registry = EventRegistry::new();
    assert!(plugin.on_init().is_ok());
    assert!(plugin.register_handlers(&mut registry).is_ok());
    assert!(plugin.on_shutdown().is_ok());
    assert_eq!(registry.subscription_count(), 0);
    assert_eq!(plugin.name(), "Sentient-Core");
    assert_eq!(plugin.version(), "1.0.0");
}
