//! Properties of the loopback that span several operations.
use vstd::prelude::*;
use crate::loopback::{
    after_calls, last_published_rename, plan_for, published_by_build, run, run_successes,
    started, LoopbackAction, LoopbackModel, Rebuild, StepOutcome,
};
use crate::errors::LoopbackError;

verus! {

/// A build in which every operation succeeds publishes the loopback under the
/// build's name, keeps its ids and additional destinations, and its last report
/// answers `Ok`.
pub proof fn lemma_successful_build(m: LoopbackModel)
    requires
        m.valid(),
        m.build is Some,
    ensures
        ({
            let remaining = (m.plan().len() - m.build->0.step) as nat;
            let last = run_successes(m, (remaining - 1) as nat);
            &&& last.report_result(StepOutcome::Done) == Some(Ok::<(), crate::errors::LoopbackError>(()))
            &&& run_successes(m, remaining) == LoopbackModel {
                name: m.build->0.name,
                published: true,
                build: None,
                ..m
            }
        }),
    decreases m.plan().len() - m.build->0.step,
{
    let b = m.build->0;
    let next = m.after(StepOutcome::Done);
    if b.step + 1 < m.plan().len() {
        assert(next.plan() == m.plan());
        lemma_successful_build(next);
        let remaining = (m.plan().len() - b.step) as nat;
        assert(run_successes(m, remaining) == run_successes(next, (remaining - 1) as nat));
        assert(run_successes(m, (remaining - 1) as nat) == run_successes(
            next,
            (remaining - 2) as nat,
        ));
    } else {
        assert(run_successes(next, 0) == next);
        assert(run_successes(m, 0) == m);
    }
}

/// Whatever the outcomes reported, a build never changes the loopback's unique
/// ids or the destinations it also forwards to.
pub proof fn lemma_run_keeps_ids(m: LoopbackModel, outcomes: Seq<StepOutcome>)
    ensures
        run(m, outcomes).source_id == m.source_id,
        run(m, outcomes).destination_id == m.destination_id,
        run(m, outcomes).additional_dest_ids == m.additional_dest_ids,
    decreases outcomes.len(),
{
    if outcomes.len() != 0 && m.build is Some {
        lemma_run_keeps_ids(m.after(outcomes[0]), outcomes.drop_first());
    }
}

/// Whatever the outcomes reported, the loopback keeps its name, or carries the
/// build's name; the latter only once the build has published it.
pub proof fn lemma_name_changes_only_on_success(m: LoopbackModel, outcomes: Seq<StepOutcome>)
    requires
        m.build is Some,
    ensures
        ({
            let r = run(m, outcomes);
            ||| r.name == m.name
            ||| (r.name == m.build->0.name && r.published && r.build is None)
        }),
    decreases outcomes.len(),
{
    if outcomes.len() != 0 {
        let next = m.after(outcomes[0]);
        if next.build is Some {
            lemma_name_changes_only_on_success(next, outcomes.drop_first());
        } else {
            assert(run(next, outcomes.drop_first()) == next);
        }
    }
}

/// A build that ends by publishing the loopback gives it the build's name; any
/// other run of a build that starts unpublished leaves the name as it was.
pub proof fn lemma_build_name(m: LoopbackModel, outcomes: Seq<StepOutcome>)
    requires
        m.build is Some,
        !m.published,
    ensures
        run(m, outcomes).name == (if published_by_build(run(m, outcomes)) {
            m.build->0.name
        } else {
            m.name
        }),
    decreases outcomes.len(),
{
    if outcomes.len() != 0 {
        let next = m.after(outcomes[0]);
        if next.build is Some {
            lemma_build_name(next, outcomes.drop_first());
        } else {
            assert(run(next, outcomes.drop_first()) == next);
        }
    }
}

/// A build that starts unpublished ends by publishing the loopback exactly when
/// one of its reports answers `Ok`.
pub proof fn lemma_published_iff_ok(m: LoopbackModel, outcomes: Seq<StepOutcome>)
    requires
        m.build is Some,
        !m.published,
    ensures
        published_by_build(run(m, outcomes)) <==> exists|k: int|
            0 <= k < outcomes.len() && (#[trigger] run(m, outcomes.take(k))).build is Some && run(
                m,
                outcomes.take(k),
            ).report_result(outcomes[k]) == Some(Ok::<(), LoopbackError>(())),
    decreases outcomes.len(),
{
    if outcomes.len() == 0 {
        return;
    }
    let o = outcomes[0];
    let rest = outcomes.drop_first();
    let next = m.after(o);
    assert(outcomes.take(0) =~= Seq::<StepOutcome>::empty());
    assert(run(m, outcomes.take(0)) == m);
    assert forall|k: int| 1 <= k <= outcomes.len() implies #[trigger] run(m, outcomes.take(k))
        == run(next, rest.take(k - 1)) by {
        assert(outcomes.take(k).drop_first() =~= rest.take(k - 1));
        assert(outcomes.take(k)[0] == o);
    }
    if next.build is Some {
        lemma_published_iff_ok(next, rest);
        if published_by_build(run(m, outcomes)) {
            let j = choose|j: int|
                0 <= j < rest.len() && (#[trigger] run(next, rest.take(j))).build is Some && run(
                    next,
                    rest.take(j),
                ).report_result(rest[j]) == Some(Ok::<(), LoopbackError>(()));
            assert(run(m, outcomes.take(j + 1)) == run(next, rest.take(j)));
            assert(outcomes[j + 1] == rest[j]);
        }
        if exists|k: int|
            0 <= k < outcomes.len() && (#[trigger] run(m, outcomes.take(k))).build is Some && run(
                m,
                outcomes.take(k),
            ).report_result(outcomes[k]) == Some(Ok::<(), LoopbackError>(())) {
            let k = choose|k: int|
                0 <= k < outcomes.len() && (#[trigger] run(m, outcomes.take(k))).build is Some && run(
                    m,
                    outcomes.take(k),
                ).report_result(outcomes[k]) == Some(Ok::<(), LoopbackError>(()));
            assert(k != 0);
            assert(run(m, outcomes.take(k)) == run(next, rest.take(k - 1)));
            assert(outcomes[k] == rest[k - 1]);
            assert(run(next, rest.take(k - 1)).build is Some);
        }
    } else {
        assert(run(m, outcomes) == next);
        assert forall|k: int| 1 <= k < outcomes.len() implies (#[trigger] run(m, outcomes.take(k))).build is None by {
            assert(run(m, outcomes.take(k)) == run(next, rest.take(k - 1)));
        }
    }
}

/// After any sequence of renames and changes of additional destinations, each
/// with any outcomes reported for its build, the loopback carries the name of the
/// last rename whose build published it, or the name it had before.
pub proof fn lemma_name_after_calls(m: LoopbackModel, calls: Seq<(Rebuild, Seq<StepOutcome>)>)
    ensures
        after_calls(m, calls).name == (match last_published_rename(m, calls) {
            Some(name) => name,
            None => m.name,
        }),
    decreases calls.len(),
{
    if calls.len() != 0 {
        let s = started(m, calls[0].0);
        let r = run(s, calls[0].1);
        lemma_build_name(s, calls[0].1);
        lemma_name_after_calls(r, calls.drop_first());
    }
}

/// After any sequence of renames and changes of additional destinations, each
/// with any outcomes reported for its build, the loopback keeps the unique ids of
/// its source and destination.
pub proof fn lemma_ids_after_calls(m: LoopbackModel, calls: Seq<(Rebuild, Seq<StepOutcome>)>)
    ensures
        after_calls(m, calls).source_id == m.source_id,
        after_calls(m, calls).destination_id == m.destination_id,
    decreases calls.len(),
{
    if calls.len() != 0 {
        let s = started(m, calls[0].0);
        lemma_run_keeps_ids(s, calls[0].1);
        lemma_ids_after_calls(run(s, calls[0].1), calls.drop_first());
    }
}

/// The shape of every build plan: it starts by releasing the published destination
/// exactly when asked to, and otherwise by creating the source; the source gets its
/// id right after it is created; every destination it locates is followed at once
/// by the output port that forwards to it, and every port follows such a search;
/// it locates each additional destination and no other; and it ends by creating
/// the destination and giving it its id.
pub proof fn lemma_plan_shape(
    release: bool,
    source_id: u32,
    destination_id: u32,
    additional: (Option<u32>, Option<u32>),
)
    ensures
        ({
            let p = plan_for(release, source_id, destination_id, additional);
            let c = if release {
                1int
            } else {
                0int
            };
            &&& 4 <= p.len()
            &&& p[0] == (if release {
                LoopbackAction::ReleaseDestination
            } else {
                LoopbackAction::CreateSource
            })
            &&& forall|i: int| 0 <= i < p.len() && #[trigger] p[i] == LoopbackAction::ReleaseDestination ==> i == 0 && release
            &&& p[c] == LoopbackAction::CreateSource
            &&& p[c + 1] == LoopbackAction::SetSourceUniqueId(source_id as i32)
            &&& forall|i: int| 0 <= i < p.len() && #[trigger] p[i] == LoopbackAction::CreateSource ==> i == c
            &&& forall|i: int|
                0 <= i < p.len() && #[trigger] p[i] is LocateDestination ==> i + 1 < p.len() && p[i
                    + 1] == LoopbackAction::CreateOutputPort && (additional.0 == Some(
                    p[i]->LocateDestination_0,
                ) || additional.1 == Some(p[i]->LocateDestination_0))
            &&& forall|i: int|
                0 <= i < p.len() && #[trigger] p[i] == LoopbackAction::CreateOutputPort ==> 0 < i && p[i
                    - 1] is LocateDestination
            &&& additional.0 matches Some(a) ==> p[c + 2] == LoopbackAction::LocateDestination(a)
            &&& additional.1 matches Some(a) ==> exists|i: int|
                0 <= i < p.len() && #[trigger] p[i] == LoopbackAction::LocateDestination(a)
            &&& p[p.len() - 2] == LoopbackAction::CreateDestination
            &&& p[p.len() - 1] == LoopbackAction::SetDestinationUniqueId(destination_id as i32)
            &&& forall|i: int| 0 <= i < p.len() - 2 ==> #[trigger] p[i] != LoopbackAction::CreateDestination
        }),
{
    let p = plan_for(release, source_id, destination_id, additional);
    let head: Seq<LoopbackAction> = if release {
        seq![LoopbackAction::ReleaseDestination]
    } else {
        Seq::empty()
    };
    let src = seq![LoopbackAction::CreateSource, LoopbackAction::SetSourceUniqueId(source_id as i32)];
    let tail = seq![
        LoopbackAction::CreateDestination,
        LoopbackAction::SetDestinationUniqueId(destination_id as i32),
    ];
    let l0 = crate::loopback::locate_steps(additional.0);
    let l1 = crate::loopback::locate_steps(additional.1);
    let mid = l0 + l1;
    assert(p =~= head + src + mid + tail);
    let c = head.len() as int;
    let m0 = c + 2;
    let m1 = m0 + mid.len();
    assert forall|i: int| 0 <= i < p.len() implies {
        &&& (0 <= i < c ==> p[i] == LoopbackAction::ReleaseDestination)
        &&& (i == c ==> p[i] == LoopbackAction::CreateSource)
        &&& (i == c + 1 ==> p[i] == LoopbackAction::SetSourceUniqueId(source_id as i32))
        &&& (m0 <= i < m1 ==> p[i] == mid[i - m0])
        &&& (i == m1 ==> p[i] == LoopbackAction::CreateDestination)
        &&& (i == m1 + 1 ==> p[i] == LoopbackAction::SetDestinationUniqueId(destination_id as i32))
    } by {}
    assert(p.len() == m1 + 2);
    assert forall|j: int| 0 <= j < mid.len() implies {
        &&& (mid[j] is LocateDestination ==> j + 1 < mid.len() && mid[j + 1]
            == LoopbackAction::CreateOutputPort && (additional.0 == Some(mid[j]->LocateDestination_0)
            || additional.1 == Some(mid[j]->LocateDestination_0)))
        &&& (mid[j] == LoopbackAction::CreateOutputPort ==> 0 < j && mid[j - 1] is LocateDestination)
        &&& (mid[j] is LocateDestination || mid[j] == LoopbackAction::CreateOutputPort)
    } by {
        if j < l0.len() {
            assert(mid[j] == l0[j]);
            if j + 1 < l0.len() {
                assert(mid[j + 1] == l0[j + 1]);
            }
            if j > 0 {
                assert(mid[j - 1] == l0[j - 1]);
            }
        } else {
            assert(mid[j] == l1[j - l0.len()]);
            if j + 1 < mid.len() {
                assert(mid[j + 1] == l1[j + 1 - l0.len()]);
            }
            if j > l0.len() {
                assert(mid[j - 1] == l1[j - 1 - l0.len()]);
            }
        }
    }
    if let Some(a) = additional.0 {
        assert(mid[0] == l0[0]);
    }
    if let Some(a) = additional.1 {
        assert(mid[l0.len() as int] == l1[0]);
        assert(p[m0 + l0.len()] == LoopbackAction::LocateDestination(a));
    }
    assert forall|i: int|
        0 <= i < p.len() && #[trigger] p[i] is LocateDestination implies i + 1 < p.len() && p[i
            + 1] == LoopbackAction::CreateOutputPort && (additional.0 == Some(
            p[i]->LocateDestination_0,
        ) || additional.1 == Some(p[i]->LocateDestination_0)) by {
        assert(m0 <= i < m1);
        assert(p[i] == mid[i - m0]);
        assert(p[i + 1] == mid[i + 1 - m0]);
    }
    assert forall|i: int|
        0 <= i < p.len() && #[trigger] p[i] == LoopbackAction::CreateOutputPort implies 0 < i && p[i
            - 1] is LocateDestination by {
        assert(m0 <= i < m1);
        assert(p[i] == mid[i - m0]);
        assert(p[i - 1] == mid[i - 1 - m0]);
    }
    assert forall|i: int| 0 <= i < p.len() && #[trigger] p[i] == LoopbackAction::ReleaseDestination implies i == 0
        && release by {
        if m0 <= i < m1 {
            assert(p[i] == mid[i - m0]);
        }
    }
    assert forall|i: int| 0 <= i < p.len() && #[trigger] p[i] == LoopbackAction::CreateSource implies i == c by {
        if m0 <= i < m1 {
            assert(p[i] == mid[i - m0]);
        }
    }
    assert forall|i: int| 0 <= i < p.len() - 2 implies #[trigger] p[i] != LoopbackAction::CreateDestination by {
        if m0 <= i < m1 {
            assert(p[i] == mid[i - m0]);
        }
    }
}

/// Renaming a published loopback, or changing its additional destinations, first
/// releases the destination that is published; where nothing is published the
/// build starts by creating the source. Either way the build keeps the loopback's
/// ids, and renaming it under the name asked for.
pub proof fn lemma_rebuild_releases_published(
    m: LoopbackModel,
    name: Seq<char>,
    id1: Option<u32>,
    id2: Option<u32>,
)
    ensures
        m.rebuilt(name).pending() == Some(
            if m.published {
                LoopbackAction::ReleaseDestination
            } else {
                LoopbackAction::CreateSource
            },
        ),
        m.rewired(id1, id2).pending() == Some(
            if m.published {
                LoopbackAction::ReleaseDestination
            } else {
                LoopbackAction::CreateSource
            },
        ),
        m.rebuilt(name).valid(),
        m.rewired(id1, id2).valid(),
        m.rebuilt(name).build->0.name == name,
        m.rewired(id1, id2).build->0.name == m.name,
        !m.rebuilt(name).published,
        !m.rewired(id1, id2).published,
{
    lemma_plan_shape(m.published, m.source_id, m.destination_id, m.additional_dest_ids);
    lemma_plan_shape(m.published, m.source_id, m.destination_id, (id1, id2));
}

/// A failed CoreMIDI operation ends the build with that call's status as the error,
/// never publishes the loopback, and leaves its name and ids as they were; so does
/// a destination that cannot be found.
pub proof fn lemma_failure_never_publishes(m: LoopbackModel, status: i32)
    requires
        m.valid(),
        m.build is Some,
    ensures
        m.report_result(StepOutcome::Failed(status)) == Some(
            Err::<(), LoopbackError>(LoopbackError::CoreMidi(status)),
        ),
        !m.after(StepOutcome::Failed(status)).published,
        m.after(StepOutcome::Failed(status)).build is None,
        m.after(StepOutcome::Failed(status)).name == m.name,
        m.after(StepOutcome::Failed(status)).source_id == m.source_id,
        m.after(StepOutcome::Failed(status)).destination_id == m.destination_id,
        m.report_result(StepOutcome::NotFound) matches Some(Err(_)),
        !m.after(StepOutcome::NotFound).published,
        m.after(StepOutcome::NotFound).build is None,
        m.after(StepOutcome::NotFound).name == m.name,
{
}

/// A build publishes the loopback only through a success of its last operation:
/// after any report that leaves it published with no build in progress, that report
/// was a success, of the plan's last operation, which gives the destination its id.
pub proof fn lemma_publishing_needs_last_success(m: LoopbackModel, outcome: StepOutcome)
    requires
        m.valid(),
        m.build is Some,
        published_by_build(m.after(outcome)),
    ensures
        outcome == StepOutcome::Done,
        m.build->0.step == m.plan().len() - 1,
        m.pending() == Some(LoopbackAction::SetDestinationUniqueId(m.destination_id as i32)),
        m.report_result(outcome) == Some(Ok::<(), LoopbackError>(())),
{
    lemma_plan_shape(m.build->0.release, m.source_id, m.destination_id, m.additional_dest_ids);
}

/// The unique id written as an endpoint's integer property reads back as the same
/// id: CoreMIDI stores it as `id as i32` and reports it as `value as u32`.
pub proof fn lemma_unique_id_round_trip(id: u32)
    ensures
        ((id as i32) as u32) == id,
{
    assert(((id as i32) as u32) == id) by (bit_vector);
}

} // verus!
