//! What the launcher's commands decide about instances and versions.

use vstd::prelude::*;
use vstd::seq_lib::{to_multiset_build, to_multiset_insert};
use vstd::string::StringExecFns;
use crate::instance::{Instance, InstanceState, InstanceView};
use crate::text::same_text;

verus! {

/// One line that the process of an instance printed.
#[derive(Debug, Clone)]
pub struct InstanceLog {
    pub instance_id: String,
    pub message: String,
}

/// Whether no instance but `instance_id` has the version `version_id`
/// recorded.
pub open spec fn unused_by_others(
    instances: Seq<Instance>,
    instance_id: Seq<char>,
    version_id: Seq<char>,
) -> bool {
    forall|i: int|
        0 <= i < instances.len() ==> !(instances[i].id@ != instance_id && instances[i].version@
            == version_id)
}

/// Whether no instance but `instance_id` owns the files of the version
/// `version_id`.
pub open spec fn unowned_by_others(
    instances: Seq<Instance>,
    instance_id: Seq<char>,
    version_id: Seq<char>,
) -> bool {
    forall|i: int|
        0 <= i < instances.len() ==> !(instances[i].id@ != instance_id
            && instances[i].deep_view().owned_version_id() == version_id)
}

/// Whether no instance but `instance_id` has the version `version_id`
/// recorded.
pub fn check_version_usage(instances: &Vec<Instance>, instance_id: &str, version_id: &str) -> (r:
    bool)
    ensures
        r == unused_by_others(instances@, instance_id@, version_id@),
{
    let mut i: usize = 0;
    while i < instances.len()
        invariant
            i <= instances.len(),
            forall|k: int|
                0 <= k < i ==> !(instances@[k].id@ != instance_id@ && instances@[k].version@
                    == version_id@),
        decreases instances.len() - i,
    {
        if !same_text(instances[i].id.as_str(), instance_id) && same_text(
            instances[i].version.as_str(),
            version_id,
        ) {
            return false;
        }
        i += 1;
    }
    true
}

/// Whether the files of the version that `instance_id` owns may be deleted
/// with it: no other instance owns them. Gives the id of that version too.
/// Nothing where `instance_id` is not among the instances.
#[verifier::loop_isolation(false)]
pub fn deletable_version(instances: &Vec<Instance>, instance_id: &str) -> (r: Option<
    (String, bool),
>)
    ensures
        match r {
            Some((version_id, unowned)) => exists|at: int|
                0 <= at < instances@.len() && instances@[at].id@ == instance_id@ && version_id@
                    == instances@[at].deep_view().owned_version_id() && unowned
                    == unowned_by_others(instances@, instance_id@, version_id@),
            None => forall|i: int| 0 <= i < instances@.len() ==> instances@[i].id@ != instance_id@,
        },
{
    let mut at: usize = 0;
    while at < instances.len() && !same_text(instances[at].id.as_str(), instance_id)
        invariant
            at <= instances.len(),
            forall|k: int| 0 <= k < at ==> instances@[k].id@ != instance_id@,
        decreases instances.len() - at,
    {
        at += 1;
    }
    if at == instances.len() {
        return None;
    }
    let version_id = instances[at].owned_version_id();
    let mut i: usize = 0;
    while i < instances.len()
        invariant
            i <= instances.len(),
            forall|k: int|
                0 <= k < i ==> !(instances@[k].id@ != instance_id@
                    && instances@[k].deep_view().owned_version_id() == version_id@),
        decreases instances.len() - i,
    {
        if !same_text(instances[i].id.as_str(), instance_id) {
            let other = instances[i].owned_version_id();
            if same_text(other.as_str(), version_id.as_str()) {
                assert(!unowned_by_others(instances@, instance_id@, version_id@));
                assert(instances@[at as int].id@ == instance_id@);
                return Some((version_id, false));
            }
        }
        i += 1;
    }
    assert(instances@[at as int].id@ == instance_id@);
    Some((version_id, true))
}

/// What an installation amounts to: the failure of the runtime comes
/// before that of the files.
pub open spec fn install_outcome(
    java: Result<Seq<char>, Seq<char>>,
    files: Result<(), Seq<char>>,
) -> Result<(), Seq<char>> {
    match java {
        Err(e) => Err("Java installation failed: "@ + e),
        Ok(_) => files,
    }
}

/// The record of an instance after its installation: `Ready`, with the
/// runtime that was found for it, where all went well; `Error` where
/// anything failed.
pub open spec fn after_install(
    instance: InstanceView,
    java: Result<Seq<char>, Seq<char>>,
    files: Result<(), Seq<char>>,
) -> InstanceView {
    match install_outcome(java, files) {
        Ok(_) => instance.installed(
            match java {
                Ok(path) => Some(path),
                Err(_) => None,
            },
        ),
        Err(_) => instance.in_state(InstanceState::Error),
    }
}

/// Takes up how the installation of an instance went: `java` is the
/// runtime that was found for it or why none was, `files` whether its
/// version's files could be had. Gives the record to keep, and what to
/// answer.
pub fn finish_install(
    instance: Instance,
    java: Result<String, String>,
    files: Result<(), String>,
) -> (r: (Instance, Result<(), String>))
    ensures
        ({
            let java_view = match java {
                Ok(p) => Ok::<Seq<char>, Seq<char>>(p@),
                Err(e) => Err::<Seq<char>, Seq<char>>(e@),
            };
            let files_view = match files {
                Ok(_) => Ok::<(), Seq<char>>(()),
                Err(e) => Err::<(), Seq<char>>(e@),
            };
            &&& r.0.deep_view() == after_install(instance.deep_view(), java_view, files_view)
            &&& match r.1 {
                Ok(_) => install_outcome(java_view, files_view) == Ok::<(), Seq<char>>(()),
                Err(e) => install_outcome(java_view, files_view) == Err::<(), Seq<char>>(e@),
            }
        }),
{
    let mut instance = instance;
    match java {
        Err(e) => {
            let mut m = String::from_str("Java installation failed: ");
            m.append(e.as_str());
            instance.set_state(InstanceState::Error);
            (instance, Err(m))
        },
        Ok(path) => match files {
            Err(e) => {
                instance.set_state(InstanceState::Error);
                (instance, Err(e))
            },
            Ok(_) => {
                instance.mark_installed(Some(path));
                (instance, Ok(()))
            },
        },
    }
}

/// Whether the instances stand newest first.
pub open spec fn newest_first(instances: Seq<Instance>) -> bool {
    forall|i: int, j: int|
        0 <= i <= j < instances.len() ==> instances[i].created_at >= instances[j].created_at
}

/// Where an instance created at `created_at` goes among instances that
/// stand newest first: behind all that are as new or newer.
pub open spec fn place_for(sorted: Seq<Instance>, created_at: u64) -> int
    decreases sorted.len(),
{
    if sorted.len() == 0 || sorted[0].created_at < created_at {
        0
    } else {
        1 + place_for(sorted.drop_first(), created_at)
    }
}

/// The instances, the newest first, those of the same age in the order in
/// which they came.
pub open spec fn sorted_newest_first(instances: Seq<Instance>) -> Seq<Instance>
    decreases instances.len(),
{
    if instances.len() == 0 {
        Seq::empty()
    } else {
        let before = sorted_newest_first(instances.drop_last());
        before.insert(place_for(before, instances.last().created_at), instances.last())
    }
}

/// The place for an instance is the first at which an older one stands.
pub proof fn lemma_place_for(sorted: Seq<Instance>, created_at: u64, at: int)
    requires
        0 <= at <= sorted.len(),
        forall|k: int| 0 <= k < at ==> sorted[k].created_at >= created_at,
        at < sorted.len() ==> sorted[at].created_at < created_at,
    ensures
        place_for(sorted, created_at) == at,
    decreases at,
{
    if at > 0 {
        let rest = sorted.drop_first();
        assert forall|k: int| 0 <= k < at - 1 implies rest[k].created_at >= created_at by {
            assert(rest[k] == sorted[k + 1]);
        }
        lemma_place_for(rest, created_at, at - 1);
    }
}

/// The place for an instance lies within the sequence, behind everything
/// that is as new or newer and before something older.
pub proof fn lemma_place_for_bounds(sorted: Seq<Instance>, created_at: u64)
    ensures
        0 <= place_for(sorted, created_at) <= sorted.len(),
        forall|k: int|
            0 <= k < place_for(sorted, created_at) ==> sorted[k].created_at >= created_at,
        place_for(sorted, created_at) < sorted.len() ==> sorted[place_for(
            sorted,
            created_at,
        )].created_at < created_at,
    decreases sorted.len(),
{
    if sorted.len() > 0 && sorted[0].created_at >= created_at {
        let rest = sorted.drop_first();
        lemma_place_for_bounds(rest, created_at);
        assert forall|k: int| 0 <= k < place_for(sorted, created_at) implies sorted[k].created_at
            >= created_at by {
            if k > 0 {
                assert(sorted[k] == rest[k - 1]);
            }
        }
    }
}

/// Sorting keeps every instance, as often as it occurs, and puts the newest
/// first.
pub proof fn lemma_sorting_permutes_and_orders(instances: Seq<Instance>)
    ensures
        sorted_newest_first(instances).to_multiset() == instances.to_multiset(),
        sorted_newest_first(instances).len() == instances.len(),
        newest_first(sorted_newest_first(instances)),
    decreases instances.len(),
{
    if instances.len() == 0 {
        assert(sorted_newest_first(instances) =~= instances);
    } else {
        let front = instances.drop_last();
        let last = instances.last();
        let before = sorted_newest_first(front);
        lemma_sorting_permutes_and_orders(front);
        lemma_place_for_bounds(before, last.created_at);
        let at = place_for(before, last.created_at);
        let after = before.insert(at, last);
        to_multiset_insert(before, at, last);
        to_multiset_build(front, last);
        assert(front.push(last) =~= instances);
        assert forall|i: int, j: int| 0 <= i <= j < after.len() implies after[i].created_at
            >= after[j].created_at by {
            if i < at && j > at {
                assert(after[i] == before[i]);
                assert(after[j] == before[j - 1]);
            } else if i < at && j < at {
                assert(after[i] == before[i]);
                assert(after[j] == before[j]);
            } else if i > at {
                assert(after[i] == before[i - 1]);
                assert(after[j] == before[j - 1]);
            } else if i == at && j > at {
                assert(after[j] == before[j - 1]);
            }
        }
    }
}

/// The instances, the newest first. Instances of the same age keep their
/// order.
pub fn sort_newest_first(instances: Vec<Instance>) -> (out: Vec<Instance>)
    ensures
        out@ == sorted_newest_first(instances@),
        newest_first(out@),
        out@.to_multiset() == instances@.to_multiset(),
        out@.len() == instances@.len(),
{
    let ghost all = instances@;
    let mut out: Vec<Instance> = Vec::new();
    assert(all.take(0) =~= Seq::<Instance>::empty());
    for instance in it: instances
        invariant
            it.seq() == all,
            out@ == sorted_newest_first(all.take(it.index() as int)),
    {
        let mut at: usize = 0;
        proof {
            lemma_sorting_permutes_and_orders(all.take(it.index() as int));
        }
        while at < out.len() && out[at].created_at >= instance.created_at
            invariant
                at <= out.len(),
                forall|k: int| 0 <= k < at ==> out@[k].created_at >= instance.created_at,
            decreases out.len() - at,
        {
            at += 1;
        }
        proof {
            lemma_place_for(out@, instance.created_at, at as int);
            assert(all.take(it.index() + 1).drop_last() =~= all.take(it.index() as int));
            assert(all.take(it.index() + 1).last() == instance);
        }
        out.insert(at, instance);
    }
    proof {
        assert(all.take(all.len() as int) =~= all);
        lemma_sorting_permutes_and_orders(all);
    }
    out
}

} // verus!
