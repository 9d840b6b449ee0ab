use provision::errors::Failure;
use provision::lock::{ExtensionMeta, Lock};
use provision::reconcile::{core_needs_update, needs_update, plan_all, plan_item, PlanDecision};
use provision::settings::plugins::{Plugin, Plugins};
use provision::settings::{Core, Provider};
use provision::target::{ChooseHash, ResolvedTarget};

fn s(x: &str) -> String {
    String::from(x)
}

fn target(build: &str) -> ResolvedTarget {
    ResolvedTarget::new(s("https://example.invalid/a"), ChooseHash::Sha256(s("aa")), s(build))
}

fn plugin(freeze: bool, force_update: bool) -> Plugin {
    Plugin::new(s("coords"), s("1.20"), freeze, force_update)
}

fn lock_with(entries: Vec<(&str, &str)>) -> Lock {
    let mut lock = Lock::new(Provider::Vanilla);
    for (name, build) in entries {
        lock.upsert_plugin(ExtensionMeta::new(s(build), s("./plugins/"), s(name)));
    }
    lock
}

#[test]
fn update_required_when_nothing_installed() {
    assert!(needs_update(false, false, &s("1"), None));
    assert!(needs_update(true, false, &s("1"), None));
    assert!(needs_update(false, true, &s("1"), None));
}

#[test]
fn identical_build_is_skipped() {
    assert!(!needs_update(false, false, &s("7"), Some(&s("7"))));
}

#[test]
fn differing_build_is_updated() {
    assert!(needs_update(false, false, &s("8"), Some(&s("7"))));
}

#[test]
fn freeze_suppresses_mismatched_build() {
    assert!(!needs_update(true, false, &s("8"), Some(&s("7"))));
}

#[test]
fn freeze_overrides_force_update() {
    assert!(!needs_update(true, true, &s("8"), Some(&s("7"))));
    assert!(!needs_update(true, true, &s("7"), Some(&s("7"))));
}

#[test]
fn force_update_fetches_identical_build() {
    assert!(needs_update(false, true, &s("7"), Some(&s("7"))));
}

#[test]
fn core_decision_reads_lock_core_entry() {
    let mut lock = Lock::new(Provider::Paper);
    let desired = Core::new(Provider::Paper, s("1.20"), None, false, false);
    assert!(core_needs_update(&desired, &s("42"), &lock));
    lock.set_core(Core::new(Provider::Paper, s("1.20"), None, false, false).to_meta(s("42")));
    assert!(!core_needs_update(&desired, &s("42"), &lock));
    assert!(core_needs_update(&desired, &s("43"), &lock));
    let frozen = Core::new(Provider::Paper, s("1.20"), None, true, true);
    assert!(!core_needs_update(&frozen, &s("43"), &lock));
}

#[test]
fn plan_item_classifies_outcomes() {
    let p = plugin(false, false);
    let d = plan_item(&p, Ok(target("2")), Some(&s("1")));
    assert_eq!(d, PlanDecision::Fetch(target("2")));
    let d = plan_item(&p, Ok(target("1")), Some(&s("1")));
    assert_eq!(d, PlanDecision::Skip);
    let d = plan_item(&p, Err(Failure::Resolution(s("no such version"))), Some(&s("1")));
    assert_eq!(d, PlanDecision::Fail(Failure::Resolution(s("no such version"))));
}

#[test]
fn example_scenario_foo_skipped_bar_fetched() {
    // Lock holds foo at build 1; foo resolves to 1, bar resolves to 2 and
    // is absent from the lock.
    let lock = lock_with(vec![("foo", "1")]);
    let plugins = Plugins::new(vec![
        (s("foo"), plugin(false, false)),
        (s("bar"), plugin(false, false)),
    ]);
    let outcomes = vec![Ok(target("1")), Ok(target("2"))];
    let decisions = plan_all(&plugins, outcomes, &lock);
    assert_eq!(decisions.len(), 2);
    assert_eq!(decisions[0], PlanDecision::Skip);
    assert_eq!(decisions[1], PlanDecision::Fetch(target("2")));
}

#[test]
fn one_resolution_failure_leaves_other_items_planned() {
    let lock = lock_with(vec![("a", "1")]);
    let plugins = Plugins::new(vec![
        (s("a"), plugin(false, false)),
        (s("b"), plugin(false, false)),
        (s("c"), plugin(false, false)),
    ]);
    let outcomes = vec![
        Ok(target("1")),
        Err(Failure::Resolution(s("network error"))),
        Ok(target("5")),
    ];
    let decisions = plan_all(&plugins, outcomes, &lock);
    assert_eq!(decisions[0], PlanDecision::Skip);
    assert_eq!(decisions[1], PlanDecision::Fail(Failure::Resolution(s("network error"))));
    assert_eq!(decisions[2], PlanDecision::Fetch(target("5")));
}

#[test]
fn frozen_plugin_with_lock_entry_never_fetched() {
    let lock = lock_with(vec![("a", "1")]);
    let plugins = Plugins::new(vec![(s("a"), plugin(true, true))]);
    let decisions = plan_all(&plugins, vec![Ok(target("9"))], &lock);
    assert_eq!(decisions[0], PlanDecision::Skip);
}

#[test]
fn empty_desired_set_plans_nothing() {
    let lock = lock_with(vec![("a", "1")]);
    let plugins = Plugins::new(vec![]);
    let decisions = plan_all(&plugins, vec![], &lock);
    assert!(decisions.is_empty());
}

#[test]
fn second_run_with_same_builds_fetches_nothing() {
    let mut lock = lock_with(vec![("foo", "1")]);
    let plugins = Plugins::new(vec![
        (s("foo"), plugin(false, false)),
        (s("bar"), plugin(false, false)),
    ]);
    let outcomes = vec![Ok(target("1")), Ok(target("2"))];
    let decisions = plan_all(&plugins, outcomes.clone(), &lock);
    // Commit what the first run fetched.
    for (i, d) in decisions.iter().enumerate() {
        if let PlanDecision::Fetch(t) = d {
            lock.upsert_plugin(provision::orchestrate::make_commit(&plugins.items()[i].0, t));
        }
    }
    // The second run, resolving the same builds, skips everything.
    let decisions2 = plan_all(&plugins, outcomes, &lock);
    assert_eq!(decisions2, vec![PlanDecision::Skip, PlanDecision::Skip]);
}
