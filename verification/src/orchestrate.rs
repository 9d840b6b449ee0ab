//! The fetch orchestration: the per-item pipeline as a state machine, and
//! the commit phase over the shared lock record.
//!
//! Each item moves through fetch, integrity verification, artifact
//! replacement and lock commit strictly in that order; the caller performs
//! exactly the action each transition emits and feeds the outcome back as
//! the next event. Tasks of different items interleave freely: every task
//! mutates a disjoint lock key, so the final record converges to the same
//! map whatever order the commits land in.

use vstd::prelude::*;
use vstd::string::StringExecFns;

use crate::lock::{distinct_names, ExtensionMeta, Lock};
use crate::reconcile::PlanDecision;
use crate::settings::plugins::Plugin;
use crate::target::ResolvedTarget;

verus! {

/// Where one item stands in its pipeline. `Skipped`, `Committed` and
/// `Failed` are terminal.
#[derive(Clone, Copy, Debug, PartialEq, Eq, Structural)]
pub enum ItemState {
    Planned,
    Skipped,
    Fetching,
    Verifying,
    Replacing,
    Committed,
    Failed,
}

/// What the outside world reports back about one item's last action.
#[derive(Clone, Copy, Debug, PartialEq, Eq, Structural)]
pub enum ItemEvent {
    FetchSucceeded,
    FetchFailed,
    IntegrityConfirmed,
    IntegrityFailed,
    ArtifactReplaced,
    ReplaceFailed,
    LockCommitted,
    PersistFailed,
}

/// What the caller must do next for the item.
#[derive(Clone, Copy, Debug, PartialEq, Eq, Structural)]
pub enum Action {
    FetchBytes,
    VerifyIntegrity,
    ReplaceArtifact,
    CommitLock,
    NoAction,
}

/// Where a planned item starts: a skip or a failure is terminal at once; a
/// fetch decision starts the pipeline.
pub open spec fn spec_begin(d: PlanDecision) -> (ItemState, Action) {
    match d {
        PlanDecision::Skip => (ItemState::Skipped, Action::NoAction),
        PlanDecision::Fetch(_) => (ItemState::Fetching, Action::FetchBytes),
        PlanDecision::Fail(_) => (ItemState::Failed, Action::NoAction),
    }
}

pub fn begin(d: &PlanDecision) -> (r: (ItemState, Action))
    ensures
        r == spec_begin(*d),
{
    match d {
        PlanDecision::Skip => (ItemState::Skipped, Action::NoAction),
        PlanDecision::Fetch(_) => (ItemState::Fetching, Action::FetchBytes),
        PlanDecision::Fail(_) => (ItemState::Failed, Action::NoAction),
    }
}

/// One transition of the per-item pipeline. The intra-item order is
/// strict: fetch, then verify, then replace the artifact, then commit the
/// lock. Any failure report — and any event the current state does not
/// expect — fails the item; terminal states absorb everything.
pub open spec fn spec_advance(s: ItemState, e: ItemEvent) -> (ItemState, Action) {
    match s {
        ItemState::Fetching => match e {
            ItemEvent::FetchSucceeded => (ItemState::Verifying, Action::VerifyIntegrity),
            _ => (ItemState::Failed, Action::NoAction),
        },
        ItemState::Verifying => match e {
            ItemEvent::IntegrityConfirmed => (ItemState::Replacing, Action::ReplaceArtifact),
            _ => (ItemState::Failed, Action::NoAction),
        },
        ItemState::Replacing => match e {
            ItemEvent::ArtifactReplaced => (ItemState::Replacing, Action::CommitLock),
            ItemEvent::LockCommitted => (ItemState::Committed, Action::NoAction),
            _ => (ItemState::Failed, Action::NoAction),
        },
        ItemState::Planned => (ItemState::Failed, Action::NoAction),
        ItemState::Skipped => (ItemState::Skipped, Action::NoAction),
        ItemState::Committed => (ItemState::Committed, Action::NoAction),
        ItemState::Failed => (ItemState::Failed, Action::NoAction),
    }
}

pub fn advance(s: ItemState, e: ItemEvent) -> (r: (ItemState, Action))
    ensures
        r == spec_advance(s, e),
{
    match s {
        ItemState::Fetching => match e {
            ItemEvent::FetchSucceeded => (ItemState::Verifying, Action::VerifyIntegrity),
            _ => (ItemState::Failed, Action::NoAction),
        },
        ItemState::Verifying => match e {
            ItemEvent::IntegrityConfirmed => (ItemState::Replacing, Action::ReplaceArtifact),
            _ => (ItemState::Failed, Action::NoAction),
        },
        ItemState::Replacing => match e {
            ItemEvent::ArtifactReplaced => (ItemState::Replacing, Action::CommitLock),
            ItemEvent::LockCommitted => (ItemState::Committed, Action::NoAction),
            _ => (ItemState::Failed, Action::NoAction),
        },
        ItemState::Planned => (ItemState::Failed, Action::NoAction),
        ItemState::Skipped => (ItemState::Skipped, Action::NoAction),
        ItemState::Committed => (ItemState::Committed, Action::NoAction),
        ItemState::Failed => (ItemState::Failed, Action::NoAction),
    }
}

/// The state an item reaches after a sequence of events.
pub open spec fn run_state(s: ItemState, events: Seq<ItemEvent>) -> ItemState
    decreases events.len(),
{
    if events.len() == 0 {
        s
    } else {
        run_state(spec_advance(s, events[0]).0, events.skip(1))
    }
}

/// Every action the pipeline emits along a sequence of events.
pub open spec fn run_actions(s: ItemState, events: Seq<ItemEvent>) -> Seq<Action>
    decreases events.len(),
{
    if events.len() == 0 {
        Seq::empty()
    } else {
        seq![spec_advance(s, events[0]).1] + run_actions(spec_advance(s, events[0]).0, events.skip(1))
    }
}

/// Replays a sequence of events through the pipeline and returns the
/// state the item ends in.
pub fn run_to_terminal(start: ItemState, events: &Vec<ItemEvent>) -> (r: ItemState)
    ensures
        r == run_state(start, events@),
{
    let mut state = start;
    let mut i: usize = 0;
    proof {
        assert(events@.skip(0) =~= events@);
    }
    while i < events.len()
        invariant
            i <= events@.len(),
            run_state(start, events@) == run_state(state, events@.skip(i as int)),
        decreases events@.len() - i,
    {
        proof {
            assert(events@.skip(i as int)[0] == events@[i as int]);
            assert(events@.skip(i as int).skip(1) =~= events@.skip(i + 1));
        }
        let (next, _) = advance(state, events[i]);
        state = next;
        i = i + 1;
    }
    state
}

proof fn lemma_no_confirm_stays_safe(s: ItemState, events: Seq<ItemEvent>)
    requires
        s == ItemState::Fetching || s == ItemState::Verifying || s == ItemState::Failed,
        forall|i: int| 0 <= i < events.len() ==> events[i] != ItemEvent::IntegrityConfirmed,
    ensures
        run_state(s, events) == ItemState::Fetching || run_state(s, events) == ItemState::Verifying
            || run_state(s, events) == ItemState::Failed,
        !run_actions(s, events).contains(Action::ReplaceArtifact),
        !run_actions(s, events).contains(Action::CommitLock),
        s == ItemState::Failed ==> run_state(s, events) == ItemState::Failed,
        (exists|i: int| 0 <= i < events.len() && events[i] == ItemEvent::IntegrityFailed)
            ==> run_state(s, events) == ItemState::Failed,
    decreases events.len(),
{
    if events.len() == 0 {
    } else {
        let e0 = events[0];
        let s1 = spec_advance(s, e0).0;
        let a0 = spec_advance(s, e0).1;
        let rest = events.skip(1);
        assert(forall|i: int| 0 <= i < rest.len() ==> rest[i] == events[i + 1]);
        lemma_no_confirm_stays_safe(s1, rest);
        assert(a0 != Action::ReplaceArtifact && a0 != Action::CommitLock);
        assert(!run_actions(s, events).contains(Action::ReplaceArtifact)) by {
            if run_actions(s, events).contains(Action::ReplaceArtifact) {
                let i = choose|i: int|
                    0 <= i < run_actions(s, events).len() && run_actions(s, events)[i]
                        == Action::ReplaceArtifact;
                if i > 0 {
                    assert(run_actions(s1, rest)[i - 1] == Action::ReplaceArtifact);
                }
            }
        }
        assert(!run_actions(s, events).contains(Action::CommitLock)) by {
            if run_actions(s, events).contains(Action::CommitLock) {
                let i = choose|i: int|
                    0 <= i < run_actions(s, events).len() && run_actions(s, events)[i]
                        == Action::CommitLock;
                if i > 0 {
                    assert(run_actions(s1, rest)[i - 1] == Action::CommitLock);
                }
            }
        }
        if exists|i: int| 0 <= i < events.len() && events[i] == ItemEvent::IntegrityFailed {
            let i = choose|i: int|
                0 <= i < events.len() && events[i] == ItemEvent::IntegrityFailed;
            if i == 0 {
                assert(s1 == ItemState::Failed);
            } else {
                assert(rest[i - 1] == ItemEvent::IntegrityFailed);
            }
        }
    }
}

/// Hash-mismatch safety: when the transport reports an integrity failure
/// for an item — so its verification never succeeds — the item ends
/// `Failed`, and the pipeline never instructs an artifact replacement or a
/// lock commit for it.
pub proof fn lemma_integrity_failure_is_safe(events: Seq<ItemEvent>)
    requires
        exists|i: int| 0 <= i < events.len() && events[i] == ItemEvent::IntegrityFailed,
        forall|i: int| 0 <= i < events.len() ==> events[i] != ItemEvent::IntegrityConfirmed,
    ensures
        run_state(ItemState::Fetching, events) == ItemState::Failed,
        !run_actions(ItemState::Fetching, events).contains(Action::ReplaceArtifact),
        !run_actions(ItemState::Fetching, events).contains(Action::CommitLock),
{
    lemma_no_confirm_stays_safe(ItemState::Fetching, events);
}

/// The lock entry that committing a fetched plugin produces: the resolved
/// build identifier under the plugin's own name, at the shared plugins
/// directory.
pub fn make_commit(name: &String, target: &ResolvedTarget) -> (r: ExtensionMeta)
    ensures
        r.name == *name,
        r.build == target.build,
        r.path@ == "./plugins/"@,
{
    ExtensionMeta::new(target.build.clone(), String::from_str("./plugins/"), name.clone())
}

/// The lock's plugin map after a sequence of commits lands, first to last.
pub open spec fn apply_commits(
    m: Map<Seq<char>, ExtensionMeta>,
    s: Seq<ExtensionMeta>,
) -> Map<Seq<char>, ExtensionMeta>
    decreases s.len(),
{
    if s.len() == 0 {
        m
    } else {
        apply_commits(m.insert(s[0].name@, s[0]), s.skip(1))
    }
}

proof fn lemma_apply_commits_push(
    m: Map<Seq<char>, ExtensionMeta>,
    s: Seq<ExtensionMeta>,
    x: ExtensionMeta,
)
    ensures
        apply_commits(m, s.push(x)) == apply_commits(m, s).insert(x.name@, x),
    decreases s.len(),
{
    if s.len() == 0 {
        assert(s.push(x)[0] == x);
        assert(s.push(x).skip(1) =~= Seq::<ExtensionMeta>::empty());
        assert(apply_commits(m, s.push(x)) == apply_commits(
            m.insert(x.name@, x),
            s.push(x).skip(1),
        ));
        assert(apply_commits(m.insert(x.name@, x), s.push(x).skip(1)) == m.insert(x.name@, x));
        assert(apply_commits(m, s) == m);
    } else {
        assert(s.push(x)[0] == s[0]);
        assert(s.push(x).skip(1) =~= s.skip(1).push(x));
        let m1 = m.insert(s[0].name@, s[0]);
        assert(apply_commits(m, s.push(x)) == apply_commits(m1, s.skip(1).push(x)));
        lemma_apply_commits_push(m1, s.skip(1), x);
        assert(apply_commits(m, s) == apply_commits(m1, s.skip(1)));
    }
}

/// Phase B's serialized mutation of the shared record: lands every commit
/// of the batch in the lock, in the order given.
pub fn commit_all(lock: &mut Lock, commits: Vec<ExtensionMeta>)
    requires
        old(lock).wf(),
    ensures
        final(lock).wf(),
        final(lock).core == old(lock).core,
        final(lock).plugins_map() == apply_commits(old(lock).plugins_map(), commits@),
{
    let ghost m0 = lock.plugins_map();
    let ghost c0 = commits@;
    let mut cs = commits;
    let mut i: usize = 0;
    let n = cs.len();
    while i < n
        invariant
            lock.wf(),
            lock.core == old(lock).core,
            n == c0.len(),
            i <= n,
            cs@ == c0.skip(i as int),
            lock.plugins_map() == apply_commits(m0, c0.take(i as int)),
        decreases n - i,
    {
        let c = cs.remove(0);
        proof {
            assert(c == c0[i as int]);
            assert(cs@ =~= c0.skip(i + 1));
        }
        lock.upsert_plugin(c);
        proof {
            assert(c0.take(i + 1) =~= c0.take(i as int).push(c0[i as int]));
            lemma_apply_commits_push(m0, c0.take(i as int), c0[i as int]);
        }
        i = i + 1;
    }
    proof {
        assert(c0.take(n as int) =~= c0);
    }
}

/// With distinct names, the map after a commit batch holds exactly the
/// batch's entries, each under its own name, over the untouched rest of
/// the record.
pub proof fn lemma_apply_commits_characterize(
    m: Map<Seq<char>, ExtensionMeta>,
    s: Seq<ExtensionMeta>,
)
    requires
        distinct_names(s),
    ensures
        forall|k: Seq<char>| #[trigger]
            apply_commits(m, s).contains_key(k) <==> (m.contains_key(k) || crate::lock::has_name(
                s,
                k,
            )),
        forall|i: int|
            0 <= i < s.len() ==> apply_commits(m, s)[(#[trigger] s[i]).name@] == s[i],
        forall|k: Seq<char>|
            !crate::lock::has_name(s, k) && m.contains_key(k) ==> #[trigger] apply_commits(m, s)[k]
                == m[k],
    decreases s.len(),
{
    if s.len() > 0 {
        let k0 = s[0].name@;
        let m1 = m.insert(k0, s[0]);
        let rest = s.skip(1);
        assert(forall|i: int| 0 <= i < rest.len() ==> rest[i] == s[i + 1]);
        assert(distinct_names(rest));
        lemma_apply_commits_characterize(m1, rest);
        assert(!crate::lock::has_name(rest, k0)) by {
            if crate::lock::has_name(rest, k0) {
                let j = choose|j: int|
                    0 <= j < rest.len() && (#[trigger] rest[j]).name@ == k0;
                assert(s[j + 1].name@ == s[0].name@);
            }
        }
        assert(apply_commits(m, s) == apply_commits(m1, rest));
        assert(m1.contains_key(k0) && m1[k0] == s[0]);
        assert(apply_commits(m1, rest)[k0] == m1[k0]);
        assert(apply_commits(m, s)[k0] == s[0]);
        assert forall|k: Seq<char>| #[trigger]
            apply_commits(m, s).contains_key(k) implies (m.contains_key(k)
            || crate::lock::has_name(s, k)) by {
            if !m.contains_key(k) {
                if k == k0 {
                    assert((s[0]).name@ == k);
                } else {
                    assert(apply_commits(m1, rest).contains_key(k));
                    assert(!m1.contains_key(k));
                    assert(crate::lock::has_name(rest, k));
                    let j = choose|j: int|
                        0 <= j < rest.len() && (#[trigger] rest[j]).name@ == k;
                    assert((s[j + 1]).name@ == k);
                }
            }
        }
        assert forall|k: Seq<char>| (m.contains_key(k) || crate::lock::has_name(s, k)) implies
            #[trigger] apply_commits(m, s).contains_key(k) by {
            if crate::lock::has_name(s, k) {
                let j = choose|j: int| 0 <= j < s.len() && (#[trigger] s[j]).name@ == k;
                if j == 0 {
                    assert(m1.contains_key(k));
                } else {
                    assert((rest[j - 1]).name@ == k);
                    assert(crate::lock::has_name(rest, k));
                }
            }
        }
        assert forall|i: int| 0 <= i < s.len() implies apply_commits(m, s)[(#[trigger] s[i]).name@]
            == s[i] by {
            if i > 0 {
                assert(rest[i - 1] == s[i]);
            }
        }
    }
}

/// A batch of N fresh, distinctly named commits grows the lock's plugin
/// map by exactly N entries, whatever order they land in.
pub proof fn lemma_commit_count(m: Map<Seq<char>, ExtensionMeta>, s: Seq<ExtensionMeta>)
    requires
        distinct_names(s),
        m.dom().finite(),
        forall|i: int| 0 <= i < s.len() ==> !m.contains_key((#[trigger] s[i]).name@),
    ensures
        apply_commits(m, s).dom().finite(),
        apply_commits(m, s).dom().len() == m.dom().len() + s.len(),
    decreases s.len(),
{
    broadcast use vstd::set::axiom_set_insert_len;

    if s.len() > 0 {
        let k0 = s[0].name@;
        let m1 = m.insert(k0, s[0]);
        let rest = s.skip(1);
        assert(forall|i: int| 0 <= i < rest.len() ==> rest[i] == s[i + 1]);
        assert(m1.dom() =~= m.dom().insert(k0));
        assert(!m.dom().contains(k0));
        assert(m1.dom().len() == m.dom().len() + 1);
        assert(distinct_names(rest));
        assert forall|i: int| 0 <= i < rest.len() implies !m1.contains_key(
            (#[trigger] rest[i]).name@,
        ) by {
            assert(s[i + 1].name@ != k0);
        }
        lemma_commit_count(m1, rest);
    }
}

/// Disjoint-key convergence: two commit batches that hold the same set of
/// entries — the same tasks, landing in any order — leave the lock's
/// plugin map identical. Nothing is lost and nothing extra appears,
/// whatever order the serialization point grants the tasks.
pub proof fn lemma_commit_order_irrelevant(
    m: Map<Seq<char>, ExtensionMeta>,
    s1: Seq<ExtensionMeta>,
    s2: Seq<ExtensionMeta>,
)
    requires
        distinct_names(s1),
        distinct_names(s2),
        forall|i: int| 0 <= i < s1.len() ==> s2.contains(#[trigger] s1[i]),
        forall|i: int| 0 <= i < s2.len() ==> s1.contains(#[trigger] s2[i]),
    ensures
        apply_commits(m, s1) == apply_commits(m, s2),
{
    lemma_apply_commits_characterize(m, s1);
    lemma_apply_commits_characterize(m, s2);
    assert forall|k: Seq<char>| crate::lock::has_name(s1, k) implies crate::lock::has_name(
        s2,
        k,
    ) by {
        let i = choose|i: int| 0 <= i < s1.len() && (#[trigger] s1[i]).name@ == k;
        let j = choose|j: int| 0 <= j < s2.len() && s2[j] == s1[i];
        assert((s2[j]).name@ == k);
    }
    assert forall|k: Seq<char>| crate::lock::has_name(s2, k) implies crate::lock::has_name(
        s1,
        k,
    ) by {
        let i = choose|i: int| 0 <= i < s2.len() && (#[trigger] s2[i]).name@ == k;
        let j = choose|j: int| 0 <= j < s1.len() && s1[j] == s2[i];
        assert((s1[j]).name@ == k);
    }
    assert forall|k: Seq<char>|
        apply_commits(m, s1).contains_key(k) && apply_commits(m, s2).contains_key(k) implies
        #[trigger] apply_commits(m, s1)[k] == #[trigger] apply_commits(m, s2)[k] by {
        if crate::lock::has_name(s1, k) {
            let i = choose|i: int| 0 <= i < s1.len() && (#[trigger] s1[i]).name@ == k;
            let j = choose|j: int| 0 <= j < s2.len() && s2[j] == s1[i];
            assert(apply_commits(m, s1)[k] == s1[i]);
            assert(apply_commits(m, s2)[(s2[j]).name@] == s2[j]);
        }
    }
    assert(apply_commits(m, s1) =~= apply_commits(m, s2));
}

/// Idempotence of reconciliation, over a whole batch: let a first run plan
/// the desired plugins, fetch every item its plan selected, and land their
/// commits — each carrying the resolved build under the item's name — in
/// the lock, in any order. A second run whose resolutions return the same
/// build identifiers, with no force-update in play, skips every item:
/// zero fetches.
pub proof fn lemma_second_run_fetches_nothing(
    items: Seq<(String, Plugin)>,
    outcomes: Seq<Result<ResolvedTarget, crate::errors::Failure>>,
    m: Map<Seq<char>, ExtensionMeta>,
    commits: Seq<ExtensionMeta>,
)
    requires
        crate::settings::plugins::distinct_plugin_names(items),
        outcomes.len() == items.len(),
        forall|i: int| 0 <= i < outcomes.len() ==> (#[trigger] outcomes[i]) is Ok,
        forall|i: int| 0 <= i < items.len() ==> !(#[trigger] items[i]).1.force_update,
        distinct_names(commits),
        // every item the plan fetched has its commit in the batch,
        forall|i: int|
            0 <= i < items.len() && (#[trigger] crate::reconcile::spec_plan(items, outcomes, m)[i])
                is Fetch ==> exists|j: int|
                0 <= j < commits.len() && (#[trigger] commits[j]).name@ == items[i].0@
                    && commits[j].build@ == (outcomes[i]->Ok_0).build@,
        // and the batch holds nothing but those commits.
        forall|j: int|
            0 <= j < commits.len() ==> exists|i: int|
                0 <= i < items.len() && (#[trigger] crate::reconcile::spec_plan(
                    items,
                    outcomes,
                    m,
                )[i]) is Fetch && (#[trigger] commits[j]).name@ == items[i].0@,
    ensures
        forall|i: int|
            0 <= i < items.len() ==> #[trigger] crate::reconcile::spec_plan(
                items,
                outcomes,
                apply_commits(m, commits),
            )[i] == PlanDecision::Skip,
{
    lemma_apply_commits_characterize(m, commits);
    let m2 = apply_commits(m, commits);
    assert forall|i: int| 0 <= i < items.len() implies #[trigger] crate::reconcile::spec_plan(
        items,
        outcomes,
        m2,
    )[i] == PlanDecision::Skip by {
        let p = items[i].1;
        let name = items[i].0@;
        let t = outcomes[i]->Ok_0;
        assert(outcomes[i] == Result::<ResolvedTarget, crate::errors::Failure>::Ok(t));
        let d1 = crate::reconcile::spec_plan(items, outcomes, m)[i];
        assert(d1 == crate::reconcile::spec_plan_item(
            p,
            outcomes[i],
            crate::reconcile::spec_current_build(m, name),
        ));
        if d1 is Fetch {
            let j = choose|j: int|
                0 <= j < commits.len() && (#[trigger] commits[j]).name@ == items[i].0@
                    && commits[j].build@ == (outcomes[i]->Ok_0).build@;
            assert(m2[commits[j].name@] == commits[j]);
            assert(m2.contains_key(name) && m2[name].build@ == t.build@);
            crate::reconcile::lemma_idempotent_item(p, name, t, m, m2);
        } else {
            assert(!crate::lock::has_name(commits, name)) by {
                if crate::lock::has_name(commits, name) {
                    let j = choose|j: int|
                        0 <= j < commits.len() && (#[trigger] commits[j]).name@ == name;
                    let i2 = choose|i2: int|
                        0 <= i2 < items.len() && (#[trigger] crate::reconcile::spec_plan(
                            items,
                            outcomes,
                            m,
                        )[i2]) is Fetch && commits[j].name@ == items[i2].0@;
                    assert(i2 != i);
                    assert(items[i2].0@ == items[i].0@);
                }
            }
            assert(crate::reconcile::spec_current_build(m2, name)
                == crate::reconcile::spec_current_build(m, name)) by {
                if m.contains_key(name) {
                    assert(m2[name] == m[name]);
                } else {
                    assert(!m2.contains_key(name));
                }
            }
            crate::reconcile::lemma_idempotent_item(p, name, t, m, m2);
        }
        assert(crate::reconcile::spec_plan(items, outcomes, m2)[i]
            == crate::reconcile::spec_plan_item(
            p,
            outcomes[i],
            crate::reconcile::spec_current_build(m2, name),
        ));
    }
}

/// The per-item status labels of the progress sink; observational only.
pub open spec fn spec_status_label(s: ItemState) -> Seq<char> {
    match s {
        ItemState::Planned => "planned"@,
        ItemState::Skipped => "skipped"@,
        ItemState::Fetching => "fetching"@,
        ItemState::Verifying => "verifying"@,
        ItemState::Replacing => "saving"@,
        ItemState::Committed => "done"@,
        ItemState::Failed => "failed"@,
    }
}

pub fn status_label(s: &ItemState) -> (r: &'static str)
    ensures
        r@ == spec_status_label(*s),
{
    match s {
        ItemState::Planned => "planned",
        ItemState::Skipped => "skipped",
        ItemState::Fetching => "fetching",
        ItemState::Verifying => "verifying",
        ItemState::Replacing => "saving",
        ItemState::Committed => "done",
        ItemState::Failed => "failed",
    }
}

/// The terminal state of one item of a batch, for the final report.
#[derive(Clone, Debug, PartialEq)]
pub struct ItemReport {
    pub name: String,
    pub state: ItemState,
}

/// The batch's final report: one terminal state per item; no task's
/// failure is dropped.
#[derive(Clone, Debug, PartialEq)]
pub struct BatchReport {
    pub entries: Vec<ItemReport>,
}

impl BatchReport {
    pub open spec fn spec_any_failed(&self) -> bool {
        exists|i: int|
            0 <= i < self.entries@.len() && (#[trigger] self.entries@[i]).state
                == ItemState::Failed
    }

    /// Whether the run's exit status must report a failure: true exactly
    /// when at least one item of the batch failed.
    pub fn any_failed(&self) -> (r: bool)
        ensures
            r == self.spec_any_failed(),
    {
        let mut i: usize = 0;
        while i < self.entries.len()
            invariant
                i <= self.entries@.len(),
                forall|j: int|
                    0 <= j < i ==> (#[trigger] self.entries@[j]).state != ItemState::Failed,
            decreases self.entries@.len() - i,
        {
            if self.entries[i].state == ItemState::Failed {
                return true;
            }
            i = i + 1;
        }
        false
    }
}

} // verus!
