use provision::errors::Failure;
use provision::lock::{CoreMeta, ExtensionMeta, Lock};
use provision::settings::plugins::{Plugin, Plugins};
use provision::settings::{Core, Provider};

fn s(x: &str) -> String {
    String::from(x)
}

fn meta(name: &str, build: &str) -> ExtensionMeta {
    ExtensionMeta::new(s(build), s("./plugins/"), s(name))
}

#[test]
fn new_lock_is_empty() {
    let lock = Lock::new(Provider::Vanilla);
    assert!(lock.core.build.is_none());
    assert_eq!(lock.plugins.len(), 0);
    assert!(lock.get_plugin(&s("anything")).is_none());
}

#[test]
fn upsert_then_get_returns_entry() {
    let mut lock = Lock::new(Provider::Vanilla);
    lock.upsert_plugin(meta("worldedit", "7"));
    let got = lock.get_plugin(&s("worldedit")).expect("entry present");
    assert_eq!(got.build, s("7"));
    assert_eq!(got.name, s("worldedit"));
    assert_eq!(got.path, s("./plugins/"));
}

#[test]
fn upsert_replaces_existing_entry() {
    let mut lock = Lock::new(Provider::Vanilla);
    lock.upsert_plugin(meta("a", "1"));
    lock.upsert_plugin(meta("a", "2"));
    assert_eq!(lock.plugins.len(), 1);
    assert_eq!(lock.get_plugin(&s("a")).unwrap().build, s("2"));
}

#[test]
fn remove_plugin_deletes_only_that_entry() {
    let mut lock = Lock::new(Provider::Vanilla);
    lock.upsert_plugin(meta("a", "1"));
    lock.upsert_plugin(meta("b", "2"));
    lock.remove_plugin(&s("a"));
    assert!(lock.get_plugin(&s("a")).is_none());
    assert_eq!(lock.get_plugin(&s("b")).unwrap().build, s("2"));
    lock.remove_plugin(&s("absent"));
    assert_eq!(lock.plugins.len(), 1);
}

#[test]
fn set_core_replaces_core_only() {
    let mut lock = Lock::new(Provider::Vanilla);
    lock.upsert_plugin(meta("a", "1"));
    lock.set_core(CoreMeta::new(Provider::Paper, s("1.20.4"), Some(s("497")), s("./paper.jar")));
    assert_eq!(lock.core.provider, Provider::Paper);
    assert_eq!(lock.core.build, Some(s("497")));
    assert_eq!(lock.plugins.len(), 1);
}

#[test]
fn to_meta_uses_canonical_jar_path() {
    let desired = Core::new(Provider::Purpur, s("1.20.4"), None, false, false);
    let m = desired.to_meta(s("2155"));
    assert_eq!(m.provider, Provider::Purpur);
    assert_eq!(m.version, s("1.20.4"));
    assert_eq!(m.build, Some(s("2155")));
    assert_eq!(m.path, s("./purpur.jar"));
}

#[test]
fn provider_tags_are_stable() {
    assert_eq!(Provider::Vanilla.as_str(), "vanilla");
    assert_eq!(Provider::Paper.as_str(), "paper");
    assert_eq!(Provider::Folia.as_str(), "folia");
    assert_eq!(Provider::Purpur.as_str(), "purpur");
    assert_eq!(Provider::Fabric.as_str(), "fabric");
    assert_eq!(Provider::Forge.as_str(), "forge");
    assert_eq!(Provider::NeoForge.as_str(), "neoforge");
    assert_eq!(Provider::Waterfall.as_str(), "waterfall");
    assert_eq!(Provider::Velocity.as_str(), "velocity");
    assert_eq!(Provider::Velocity.jar_path(), "./velocity.jar");
}

#[test]
fn core_getters_and_setters_round_trip() {
    let mut c = Core::new(Provider::Vanilla, provision::settings::version(), None, false, false);
    assert_eq!(c.version(), "Latest");
    assert_eq!(*c.provider(), Provider::Vanilla);
    assert!(c.build().is_none());
    assert!(!c.freeze());
    assert!(!c.force_update());
    c.set_provider(Provider::Waterfall);
    c.set_version(s("1.19"));
    c.set_build(Some(s("88")));
    c.set_freeze(true);
    c.set_force_update(true);
    assert_eq!(*c.provider(), Provider::Waterfall);
    assert_eq!(c.version(), "1.19");
    assert_eq!(c.build(), Some(&s("88")));
    assert!(c.freeze());
    assert!(c.force_update());
}

#[test]
fn additions_holds_its_sources() {
    let a = provision::settings::additions::Additions::new(
        Some(s("https://example.invalid/configs.git")),
        Some(s("deploy-key")),
    );
    assert_eq!(a.config_plugins_from, Some(s("https://example.invalid/configs.git")));
    assert_eq!(a.key, Some(s("deploy-key")));
    let empty = provision::settings::additions::Additions::new(None, None);
    assert!(empty.config_plugins_from.is_none() && empty.key.is_none());
}

#[test]
fn plugins_collection_keeps_items() {
    let ps = Plugins::new(vec![
        (s("a"), Plugin::new(s("c1"), s("1.20"), false, false)),
        (s("b"), Plugin::new(s("c2"), s("1.20"), true, false)),
    ]);
    assert_eq!(ps.items().len(), 2);
    assert_eq!(ps.items()[0].0, s("a"));
    assert!(ps.items()[1].1.freeze());
    assert!(!ps.items()[0].1.force_update());
}

#[test]
fn failure_labels_and_causes() {
    assert_eq!(Failure::Resolution(s("x")).label(), "resolution");
    assert_eq!(Failure::Transport(s("x")).label(), "transport");
    assert_eq!(Failure::Integrity(s("x")).label(), "integrity");
    assert_eq!(Failure::Io(s("x")).label(), "io");
    assert_eq!(Failure::LockCorruption(s("x")).label(), "lock corruption");
    assert_eq!(Failure::Integrity(s("digest differs")).cause(), &s("digest differs"));
}

#[test]
fn default_config_is_latest_vanilla() {
    let c = provision::config::Core::default();
    assert_eq!(c.provider, provision::config::Provider::Vanilla);
    assert!(matches!(c.version, provision::config::Versions::Latest));
    assert!(!c.freeze && !c.force_update);
}
