use vstd::prelude::*;
use crate::artifact::{ArtifactDescriptor, FileType, descriptor_wf, expected_size};
use crate::digest::{digest_matches, digest_matches_spec};
use crate::errors::SyncError;
use crate::platform::OperatingSystem;
use crate::rules::{evaluate, rules_allow};

verus! {

/// What a run does with an artifact.
#[derive(Debug, Clone, Copy, PartialEq, Eq, Structural)]
pub enum Decision {
    /// Already present and correct.
    Skip,
    /// Missing or corrupt: download it.
    Fetch,
    /// A directory or link to create, with no transfer.
    Materialize,
}

/// What the destination path of an artifact holds before the run.
#[derive(Debug, Clone)]
pub enum LocalState {
    /// Nothing is there.
    Missing,
    /// Something is there that is not a readable regular file.
    Present,
    /// A regular file, with the SHA-1 digest of its content.
    File { sha1: Vec<u8> },
}

/// One planned action: the index of a descriptor and what to do with it.
#[derive(Debug, Clone, Copy, PartialEq, Eq, Structural)]
pub struct SyncTask {
    pub index: usize,
    pub decision: Decision,
}

/// The decision for one artifact, given what its destination holds.
pub open spec fn decision_for(d: ArtifactDescriptor, s: LocalState) -> Decision {
    match d.kind {
        FileType::Directory => Decision::Materialize,
        FileType::Link => if s is Missing {
            Decision::Materialize
        } else {
            Decision::Skip
        },
        FileType::File => match (s, d.source) {
            (LocalState::File { sha1 }, Some(src)) => if digest_matches_spec(sha1@, src.sha1@) {
                Decision::Skip
            } else {
                Decision::Fetch
            },
            _ => Decision::Fetch,
        },
    }
}

/// The plan: one task, in manifest order, for each artifact that the rules
/// include on `p`.
pub open spec fn planned(ds: Seq<ArtifactDescriptor>, p: OperatingSystem, obs: Seq<LocalState>) -> Seq<SyncTask>
    decreases ds.len(),
{
    if ds.len() == 0 {
        Seq::empty()
    } else {
        let prev = planned(ds.drop_last(), p, obs.drop_last());
        let i = ds.len() - 1;
        if rules_allow(ds.last().rules@, p) {
            prev.push(SyncTask { index: i as usize, decision: decision_for(ds.last(), obs[i]) })
        } else {
            prev
        }
    }
}

/// The index of the first malformed descriptor, if any.
pub open spec fn first_malformed(ds: Seq<ArtifactDescriptor>, i: int) -> bool {
    0 <= i < ds.len() && !descriptor_wf(ds[i]) && forall|k: int| 0 <= k < i ==> descriptor_wf(#[trigger] ds[k])
}

/// The bytes that the fetch tasks of a plan ask for.
pub open spec fn fetch_bytes(tasks: Seq<SyncTask>, ds: Seq<ArtifactDescriptor>) -> int
    decreases tasks.len(),
{
    if tasks.len() == 0 {
        0
    } else {
        fetch_bytes(tasks.drop_last(), ds) + if tasks.last().decision == Decision::Fetch {
            expected_size(ds[tasks.last().index as int]) as int
        } else {
            0
        }
    }
}

/// The number of fetch tasks of a plan.
pub open spec fn fetch_count(tasks: Seq<SyncTask>) -> int
    decreases tasks.len(),
{
    if tasks.len() == 0 {
        0
    } else {
        fetch_count(tasks.drop_last()) + if tasks.last().decision == Decision::Fetch {
            1int
        } else {
            0
        }
    }
}

/// Decides what to do with one artifact, given what its destination holds.
pub fn decide(d: &ArtifactDescriptor, s: &LocalState) -> (r: Decision)
    ensures
        r == decision_for(*d, *s),
{
    match d.kind {
        FileType::Directory => Decision::Materialize,
        FileType::Link => match s {
            LocalState::Missing => Decision::Materialize,
            _ => Decision::Skip,
        },
        FileType::File => match (s, &d.source) {
            (LocalState::File { sha1 }, Some(src)) => {
                if digest_matches(sha1.as_slice(), src.sha1.as_str()) {
                    Decision::Skip
                } else {
                    Decision::Fetch
                }
            },
            _ => Decision::Fetch,
        },
    }
}

/// Checks every descriptor and plans the run: the artifacts that apply on
/// `platform`, in order, each with its decision. `observed[i]` is what the
/// destination of `descriptors[i]` holds. Fails on the first malformed
/// descriptor, whether or not it applies.
pub fn plan(descriptors: &Vec<ArtifactDescriptor>, platform: &OperatingSystem, observed: &Vec<LocalState>) -> (r: Result<Vec<SyncTask>, SyncError>)
    requires
        observed@.len() == descriptors@.len(),
    ensures
        r matches Ok(tasks) ==> tasks@ == planned(descriptors@, *platform, observed@),
        r is Ok <==> forall|k: int| 0 <= k < descriptors@.len() ==> descriptor_wf(#[trigger] descriptors@[k]),
        r matches Err(e) ==> (e matches SyncError::MalformedDescriptor { index } && first_malformed(descriptors@, index as int)),
{
    let mut i: usize = 0;
    while i < descriptors.len()
        invariant
            i <= descriptors@.len(),
            forall|k: int| 0 <= k < i ==> descriptor_wf(#[trigger] descriptors@[k]),
        decreases descriptors@.len() - i,
    {
        if !descriptors[i].is_well_formed() {
            return Err(SyncError::MalformedDescriptor { index: i });
        }
        i = i + 1;
    }
    let mut tasks: Vec<SyncTask> = Vec::new();
    let mut j: usize = 0;
    while j < descriptors.len()
        invariant
            j <= descriptors@.len(),
            observed@.len() == descriptors@.len(),
            tasks@ == planned(descriptors@.take(j as int), *platform, observed@.take(j as int)),
        decreases descriptors@.len() - j,
    {
        proof {
            assert(descriptors@.take(j as int + 1).drop_last() =~= descriptors@.take(j as int));
            assert(observed@.take(j as int + 1).drop_last() =~= observed@.take(j as int));
            assert(descriptors@.take(j as int + 1).last() == descriptors@[j as int]);
        }
        let d = &descriptors[j];
        if evaluate(&d.rules, platform) {
            let decision = decide(d, &observed[j]);
            tasks.push(SyncTask { index: j, decision });
        }
        j = j + 1;
    }
    proof {
        assert(descriptors@.take(descriptors@.len() as int) =~= descriptors@);
        assert(observed@.take(observed@.len() as int) =~= observed@);
    }
    Ok(tasks)
}

/// Every task of a plan names an artifact that applies, with the decision
/// that its destination calls for, and indices rise.
pub proof fn lemma_planned_tasks(ds: Seq<ArtifactDescriptor>, p: OperatingSystem, obs: Seq<LocalState>)
    requires
        obs.len() == ds.len(),
        ds.len() <= usize::MAX,
    ensures
        forall|k: int| 0 <= k < planned(ds, p, obs).len() ==> {
            let t = #[trigger] planned(ds, p, obs)[k];
            &&& 0 <= t.index < ds.len()
            &&& rules_allow(ds[t.index as int].rules@, p)
            &&& t.decision == decision_for(ds[t.index as int], obs[t.index as int])
        },
    decreases ds.len(),
{
    if ds.len() > 0 {
        lemma_planned_tasks(ds.drop_last(), p, obs.drop_last());
    }
}

/// Every artifact that applies has its task in the plan.
pub proof fn lemma_planned_covers(ds: Seq<ArtifactDescriptor>, p: OperatingSystem, obs: Seq<LocalState>, j: int)
    requires
        obs.len() == ds.len(),
        ds.len() <= usize::MAX,
        0 <= j < ds.len(),
        rules_allow(ds[j].rules@, p),
    ensures
        exists|k: int| 0 <= k < planned(ds, p, obs).len() && #[trigger] planned(ds, p, obs)[k] == (SyncTask { index: j as usize, decision: decision_for(ds[j], obs[j]) }),
    decreases ds.len(),
{
    let prev = planned(ds.drop_last(), p, obs.drop_last());
    if j == ds.len() - 1 {
        let k = prev.len() as int;
        assert(planned(ds, p, obs)[k] == (SyncTask { index: j as usize, decision: decision_for(ds[j], obs[j]) }));
    } else {
        lemma_planned_covers(ds.drop_last(), p, obs.drop_last(), j);
        let k = choose|k: int| 0 <= k < prev.len() && #[trigger] prev[k] == (SyncTask { index: j as usize, decision: decision_for(ds[j], obs[j]) });
        assert(planned(ds, p, obs)[k] == prev[k]);
    }
}

/// A destination file whose content no longer has the declared digest is
/// planned for fetching, when its artifact applies.
pub proof fn lemma_corrupt_file_is_fetched(ds: Seq<ArtifactDescriptor>, p: OperatingSystem, obs: Seq<LocalState>, j: int)
    requires
        obs.len() == ds.len(),
        ds.len() <= usize::MAX,
        0 <= j < ds.len(),
        ds[j].kind == FileType::File,
        rules_allow(ds[j].rules@, p),
        obs[j] matches LocalState::File { sha1 } && ds[j].source matches Some(src) && !digest_matches_spec(sha1@, src.sha1@),
    ensures
        exists|k: int| 0 <= k < planned(ds, p, obs).len() && #[trigger] planned(ds, p, obs)[k] == (SyncTask { index: j as usize, decision: Decision::Fetch }),
{
    lemma_planned_covers(ds, p, obs, j);
}

/// A tree that already holds every file with its declared digest and every
/// link plans no fetch: nothing is transferred and no byte is announced.
pub proof fn lemma_settled_tree_fetches_nothing(ds: Seq<ArtifactDescriptor>, p: OperatingSystem, obs: Seq<LocalState>)
    requires
        obs.len() == ds.len(),
        ds.len() <= usize::MAX,
        forall|i: int| 0 <= i < ds.len() && ds[i].kind == FileType::File ==> (#[trigger] obs[i] matches LocalState::File { sha1 } && ds[i].source matches Some(src) && digest_matches_spec(sha1@, src.sha1@)),
        forall|i: int| 0 <= i < ds.len() && ds[i].kind == FileType::Link ==> !(#[trigger] obs[i] is Missing),
    ensures
        forall|k: int| 0 <= k < planned(ds, p, obs).len() ==> (#[trigger] planned(ds, p, obs)[k]).decision != Decision::Fetch,
        fetch_bytes(planned(ds, p, obs), ds) == 0,
        fetch_count(planned(ds, p, obs)) == 0,
{
    lemma_planned_tasks(ds, p, obs);
    let tasks = planned(ds, p, obs);
    assert forall|k: int| 0 <= k < tasks.len() implies (#[trigger] tasks[k]).decision != Decision::Fetch by {
        let i = tasks[k].index as int;
        assert(0 <= i < ds.len());
    }
    lemma_no_fetch_sums(tasks, ds);
}

proof fn lemma_no_fetch_sums(tasks: Seq<SyncTask>, ds: Seq<ArtifactDescriptor>)
    requires
        forall|k: int| 0 <= k < tasks.len() ==> (#[trigger] tasks[k]).decision != Decision::Fetch,
    ensures
        fetch_bytes(tasks, ds) == 0,
        fetch_count(tasks) == 0,
    decreases tasks.len(),
{
    if tasks.len() > 0 {
        assert(tasks.last() == tasks[tasks.len() - 1]);
        lemma_no_fetch_sums(tasks.drop_last(), ds);
    }
}

} // verus!
