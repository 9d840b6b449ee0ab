//! The reconciliation decision and the planning phase: given the per-item
//! flags of the desired specification, the resolved build identifier, and
//! the build identifier the lock record currently holds for the item,
//! decide whether a fetch is required; and classify every desired plugin
//! into skipped, to-fetch or failed, one decision per item, so that one
//! plugin's resolution failure never disturbs the others.

use vstd::prelude::*;

use crate::errors::Failure;
use crate::lock::{ExtensionMeta, Lock};
use crate::settings::plugins::{Plugin, Plugins};
use crate::target::ResolvedTarget;

verus! {

/// The skip / force / freeze policy, evaluated in this order:
/// nothing installed yet means an update is required; an identical build
/// that is not force-updated needs none; a frozen item is never updated,
/// even under a force request or a build mismatch; anything else is fetched.
pub open spec fn spec_needs_update(
    freeze: bool,
    force_update: bool,
    resolved_build: Seq<char>,
    current_build: Option<Seq<char>>,
) -> bool {
    match current_build {
        None => true,
        Some(cur) => if cur == resolved_build && !force_update {
            false
        } else if freeze {
            false
        } else {
            true
        },
    }
}

/// Decides whether an item must be fetched, comparing the resolved build
/// identifier against the one recorded in the lock, under the item's
/// freeze and force-update flags.
pub fn needs_update(
    freeze: bool,
    force_update: bool,
    resolved_build: &String,
    current_build: Option<&String>,
) -> (r: bool)
    ensures
        r == spec_needs_update(
            freeze,
            force_update,
            resolved_build@,
            match current_build {
                Some(c) => Some(c@),
                None => None,
            },
        ),
{
    match current_build {
        None => true,
        Some(cur) => {
            if *cur == *resolved_build && !force_update {
                false
            } else if freeze {
                false
            } else {
                true
            }
        },
    }
}

/// Decides whether the core runtime must be fetched: the resolved build
/// identifier is held against the one the lock's core entry records,
/// under the desired core's freeze and force-update flags. The core is a
/// single sequential item; its caller treats any failure as fatal to the
/// run.
pub fn core_needs_update(c: &crate::settings::Core, resolved_build: &String, lock: &Lock) -> (r:
    bool)
    ensures
        r == spec_needs_update(
            c.freeze,
            c.force_update,
            resolved_build@,
            match lock.core.build {
                Some(b) => Some(b@),
                None => None,
            },
        ),
{
    needs_update(c.freeze, c.force_update, resolved_build, lock.core.build.as_ref())
}

/// The outcome of planning one desired plugin.
#[derive(Clone, Debug, PartialEq)]
pub enum PlanDecision {
    /// The installed build already satisfies the desired state, or the
    /// item is frozen: nothing is fetched.
    Skip,
    /// The item must be fetched from the resolved target.
    Fetch(ResolvedTarget),
    /// The item's resolution failed; the failure is recorded and the item
    /// excluded from the batch.
    Fail(Failure),
}

/// The build identifier the lock currently records under `name`, if any.
pub open spec fn spec_current_build(
    m: Map<Seq<char>, ExtensionMeta>,
    name: Seq<char>,
) -> Option<Seq<char>> {
    if m.contains_key(name) {
        Some(m[name].build@)
    } else {
        None
    }
}

/// How one desired plugin is classified, given its resolution outcome and
/// the build the lock currently records for it.
pub open spec fn spec_plan_item(
    p: Plugin,
    outcome: Result<ResolvedTarget, Failure>,
    current_build: Option<Seq<char>>,
) -> PlanDecision {
    match outcome {
        Result::Err(e) => PlanDecision::Fail(e),
        Result::Ok(t) => if spec_needs_update(p.freeze, p.force_update, t.build@, current_build) {
            PlanDecision::Fetch(t)
        } else {
            PlanDecision::Skip
        },
    }
}

/// The whole planning phase, pointwise: the decision for item `i` depends
/// on nothing but item `i`'s own specification, outcome and lock entry.
pub open spec fn spec_plan(
    items: Seq<(String, Plugin)>,
    outcomes: Seq<Result<ResolvedTarget, Failure>>,
    m: Map<Seq<char>, ExtensionMeta>,
) -> Seq<PlanDecision> {
    Seq::new(
        items.len(),
        |i: int| spec_plan_item(items[i].1, outcomes[i], spec_current_build(m, items[i].0@)),
    )
}

/// Classifies one desired plugin.
pub fn plan_item(
    p: &Plugin,
    outcome: Result<ResolvedTarget, Failure>,
    current_build: Option<&String>,
) -> (r: PlanDecision)
    ensures
        r == spec_plan_item(
            *p,
            outcome,
            match current_build {
                Some(c) => Some(c@),
                None => None,
            },
        ),
{
    match outcome {
        Result::Err(e) => PlanDecision::Fail(e),
        Result::Ok(t) => {
            if needs_update(p.freeze, p.force_update, &t.build, current_build) {
                PlanDecision::Fetch(t)
            } else {
                PlanDecision::Skip
            }
        },
    }
}

/// Phase A of the orchestrator: classify every desired plugin against the
/// current lock snapshot, one decision per item, in order. A resolution
/// failure is one item's `Fail` decision and stops nothing else.
pub fn plan_all(plugins: &Plugins, outcomes: Vec<Result<ResolvedTarget, Failure>>, lock: &Lock) -> (r:
    Vec<PlanDecision>)
    requires
        lock.wf(),
        outcomes@.len() == plugins.0@.len(),
    ensures
        r@ == spec_plan(plugins.0@, outcomes@, lock.plugins_map()),
{
    let ghost o0 = outcomes@;
    let ghost goal = spec_plan(plugins.0@, outcomes@, lock.plugins_map());
    let n = plugins.0.len();
    let mut outs = outcomes;
    let mut r: Vec<PlanDecision> = Vec::new();
    let mut i: usize = 0;
    while i < n
        invariant
            lock.wf(),
            n == plugins.0@.len(),
            o0.len() == n,
            i <= n,
            outs@ == o0.skip(i as int),
            r@.len() == i,
            goal == spec_plan(plugins.0@, o0, lock.plugins_map()),
            forall|j: int| 0 <= j < i ==> r@[j] == goal[j],
        decreases n - i,
    {
        let o = outs.remove(0);
        proof {
            assert(o == o0[i as int]);
            assert(outs@ =~= o0.skip(i + 1));
        }
        let pair = &plugins.0[i];
        let cur = lock.get_plugin(&pair.0);
        let cur_build = match cur {
            Some(m) => Some(m.build()),
            None => None,
        };
        let d = plan_item(&pair.1, o, cur_build);
        r.push(d);
        i = i + 1;
    }
    proof {
        assert(r@ =~= goal);
    }
    r
}

/// Freeze is an absolute override: a frozen item that the lock records is
/// never fetched, whatever its resolution outcome, however the resolved
/// build differs, and even under a force-update request.
pub proof fn lemma_freeze_is_absolute(
    p: Plugin,
    outcome: Result<ResolvedTarget, Failure>,
    current_build: Option<Seq<char>>,
)
    requires
        p.freeze,
        current_build is Some,
    ensures
        !(spec_plan_item(p, outcome, current_build) is Fetch),
{
}

/// A force-update on an unfrozen item always fetches: whenever resolution
/// succeeds, the decision is a fetch of the resolved target, even when the
/// resolved build equals the installed one.
pub proof fn lemma_force_update_always_fetches(
    p: Plugin,
    t: ResolvedTarget,
    current_build: Option<Seq<char>>,
)
    requires
        p.force_update,
        !p.freeze,
    ensures
        spec_plan_item(p, Result::Ok(t), current_build) == PlanDecision::Fetch(t),
{
}

/// One item's resolution failure is isolated: replacing item `j`'s outcome
/// — say by a failure — changes no other item's decision.
pub proof fn lemma_partial_failure_isolated(
    items: Seq<(String, Plugin)>,
    outcomes1: Seq<Result<ResolvedTarget, Failure>>,
    outcomes2: Seq<Result<ResolvedTarget, Failure>>,
    m: Map<Seq<char>, ExtensionMeta>,
    j: int,
)
    requires
        outcomes1.len() == items.len(),
        outcomes2.len() == items.len(),
        forall|k: int|
            0 <= k < items.len() && k != j ==> #[trigger] outcomes1[k] == outcomes2[k],
    ensures
        forall|k: int|
            0 <= k < items.len() && k != j ==> #[trigger] spec_plan(items, outcomes1, m)[k]
                == spec_plan(items, outcomes2, m)[k],
{
}

/// Idempotence of reconciliation, per item: after a first run has handled
/// an item that carries no force-update request — committing it if it was
/// fetched, leaving its lock entry untouched otherwise — a second run that
/// resolves the same build identifier skips it: zero fetches.
pub proof fn lemma_idempotent_item(
    p: Plugin,
    name: Seq<char>,
    t: ResolvedTarget,
    m1: Map<Seq<char>, ExtensionMeta>,
    m2: Map<Seq<char>, ExtensionMeta>,
)
    requires
        !p.force_update,
        spec_plan_item(p, Result::Ok(t), spec_current_build(m1, name)) is Fetch ==> m2.contains_key(
            name,
        ) && m2[name].build@ == t.build@,
        !(spec_plan_item(p, Result::Ok(t), spec_current_build(m1, name)) is Fetch)
            ==> spec_current_build(m2, name) == spec_current_build(m1, name),
    ensures
        spec_plan_item(p, Result::Ok(t), spec_current_build(m2, name)) == PlanDecision::Skip,
{
}

} // verus!
