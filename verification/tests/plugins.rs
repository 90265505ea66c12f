use splash_shell::plugins::Plugin;
use splash_shell::plugins::PluginRegistry;

const ALL: [Plugin; 5] = [
    Plugin::Dialog,
    Plugin::Fs,
    Plugin::Shell,
    Plugin::Process,
    Plugin::SafeAreaInsetsCss,
];

#[test]
fn standard_list_in_order() {
    let r = PluginRegistry::standard();
    assert_eq!(r.len(), 5);
    assert_eq!(r.get(0), Plugin::Dialog);
    assert_eq!(r.get(1), Plugin::Fs);
    assert_eq!(r.get(2), Plugin::Shell);
    assert_eq!(r.get(3), Plugin::Process);
    assert_eq!(r.get(4), Plugin::SafeAreaInsetsCss);
}

#[test]
fn standard_offers_every_capability() {
    let r = PluginRegistry::standard();
    for p in ALL {
        assert!(r.registered(p));
    }
}

#[test]
fn empty_registry_offers_nothing() {
    let r = PluginRegistry::new();
    assert_eq!(r.len(), 0);
    for p in ALL {
        assert!(!r.registered(p));
    }
}

#[test]
fn registration_order_does_not_change_the_outcome() {
    let forward = PluginRegistry::standard();
    let backward = PluginRegistry::new()
        .plugin(Plugin::SafeAreaInsetsCss)
        .plugin(Plugin::Process)
        .plugin(Plugin::Shell)
        .plugin(Plugin::Fs)
        .plugin(Plugin::Dialog);
    for p in ALL {
        assert_eq!(forward.registered(p), backward.registered(p));
    }
}

#[test]
fn unregistered_plugin_is_not_offered() {
    let r = PluginRegistry::new().plugin(Plugin::Fs).plugin(Plugin::Shell);
    assert!(r.registered(Plugin::Fs));
    assert!(r.registered(Plugin::Shell));
    assert!(!r.registered(Plugin::Process));
    assert!(!r.registered(Plugin::Dialog));
    assert!(!r.registered(Plugin::SafeAreaInsetsCss));
}

#[test]
fn repeated_registration_keeps_the_capability() {
    let r = PluginRegistry::new().plugin(Plugin::Fs).plugin(Plugin::Fs);
    assert_eq!(r.len(), 2);
    assert!(r.registered(Plugin::Fs));
}
