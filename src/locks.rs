use vstd::prelude::*;

verus! {

/// How long a caller sleeps before it tries a held lock again, in milliseconds.
pub const POLL_INTERVAL_MS: u64 = 500;

/// What a caller waiting for a lock marker does next.
#[derive(Debug, Clone, Copy, PartialEq, Eq, Structural)]
pub enum LockPoll {
    /// The marker was created by this caller: go on.
    Proceed,
    /// The marker is held by another: sleep this many milliseconds, then try again.
    Sleep(u64),
}

/// Decides after an attempt to create a lock marker, which succeeds only where no
/// marker exists.
pub fn poll_lock(taken: bool) -> (r: LockPoll)
    ensures
        taken ==> r == LockPoll::Proceed,
        !taken ==> r == LockPoll::Sleep(POLL_INTERVAL_MS),
{
    if taken {
        LockPoll::Proceed
    } else {
        LockPoll::Sleep(POLL_INTERVAL_MS)
    }
}

/// Where a caller of the image build is.
#[derive(Debug, Clone, Copy, PartialEq, Eq, Structural)]
pub enum BuildStage {
    /// Waiting to create the build lock marker.
    AwaitLock,
    /// Holding the lock; the image's existence is being queried.
    Holding,
    /// Holding the lock; the image is being built.
    Building,
    /// The lock marker is being removed.
    Releasing,
    /// Done; the lock is released.
    Done,
}

/// What the caller asks to be done next.
#[derive(Debug, Clone, Copy, PartialEq, Eq, Structural)]
pub enum BuildAction {
    /// Create the build lock marker, where none exists.
    TryLock,
    /// Sleep this many milliseconds.
    Sleep(u64),
    /// Ask the runtime whether the image exists.
    QueryImage,
    /// Run the image build.
    RunBuild,
    /// Remove the build lock marker.
    RemoveLock,
    /// Nothing is left to do.
    Finished,
}

/// What came of the last action.
#[derive(Debug, Clone, Copy, PartialEq, Eq, Structural)]
pub enum BuildEvent {
    /// Another caller holds the lock.
    LockBusy,
    /// This caller created the lock marker.
    LockTaken,
    /// The sleep ended.
    Slept,
    /// Whether the image exists.
    ImageExists(bool),
    /// The build ended, in success or failure.
    BuildEnded,
    /// The lock marker is gone.
    LockRemoved,
}

/// The action that a stage waits on.
pub open spec fn stage_action(stage: BuildStage) -> BuildAction {
    match stage {
        BuildStage::AwaitLock => BuildAction::TryLock,
        BuildStage::Holding => BuildAction::QueryImage,
        BuildStage::Building => BuildAction::RunBuild,
        BuildStage::Releasing => BuildAction::RemoveLock,
        BuildStage::Done => BuildAction::Finished,
    }
}

/// The next stage and action after `event`. An event that does not answer the stage's
/// action leaves the stage as it is and asks for that action again.
pub open spec fn build_next(stage: BuildStage, event: BuildEvent) -> (BuildStage, BuildAction) {
    match (stage, event) {
        (BuildStage::AwaitLock, BuildEvent::LockBusy) => (
            BuildStage::AwaitLock,
            BuildAction::Sleep(POLL_INTERVAL_MS),
        ),
        (BuildStage::AwaitLock, BuildEvent::LockTaken) => (
            BuildStage::Holding,
            BuildAction::QueryImage,
        ),
        (BuildStage::Holding, BuildEvent::ImageExists(true)) => (
            BuildStage::Releasing,
            BuildAction::RemoveLock,
        ),
        (BuildStage::Holding, BuildEvent::ImageExists(false)) => (
            BuildStage::Building,
            BuildAction::RunBuild,
        ),
        (BuildStage::Building, BuildEvent::BuildEnded) => (
            BuildStage::Releasing,
            BuildAction::RemoveLock,
        ),
        (BuildStage::Releasing, BuildEvent::LockRemoved) => (BuildStage::Done, BuildAction::Finished),
        _ => (stage, stage_action(stage)),
    }
}

/// A caller's first stage and action.
pub fn build_start() -> (r: (BuildStage, BuildAction))
    ensures
        r == (BuildStage::AwaitLock, BuildAction::TryLock),
{
    (BuildStage::AwaitLock, BuildAction::TryLock)
}

/// The next stage and action of a caller after `event`: the lock is taken before the
/// image is queried, the build runs only where the image was found missing, and the
/// lock is removed after the query or the build, whatever its outcome.
pub fn build_step(stage: BuildStage, event: BuildEvent) -> (r: (BuildStage, BuildAction))
    ensures
        r == build_next(stage, event),
{
    match (stage, event) {
        (BuildStage::AwaitLock, BuildEvent::LockBusy) => (
            BuildStage::AwaitLock,
            BuildAction::Sleep(POLL_INTERVAL_MS),
        ),
        (BuildStage::AwaitLock, BuildEvent::LockTaken) => (
            BuildStage::Holding,
            BuildAction::QueryImage,
        ),
        (BuildStage::Holding, BuildEvent::ImageExists(true)) => (
            BuildStage::Releasing,
            BuildAction::RemoveLock,
        ),
        (BuildStage::Holding, BuildEvent::ImageExists(false)) => (
            BuildStage::Building,
            BuildAction::RunBuild,
        ),
        (BuildStage::Building, BuildEvent::BuildEnded) => (
            BuildStage::Releasing,
            BuildAction::RemoveLock,
        ),
        (BuildStage::Releasing, BuildEvent::LockRemoved) => (BuildStage::Done, BuildAction::Finished),
        _ => {
            let action = match stage {
                BuildStage::AwaitLock => BuildAction::TryLock,
                BuildStage::Holding => BuildAction::QueryImage,
                BuildStage::Building => BuildAction::RunBuild,
                BuildStage::Releasing => BuildAction::RemoveLock,
                BuildStage::Done => BuildAction::Finished,
            };
            (stage, action)
        },
    }
}

/// Callers of the image build that share one lock marker and one image store, in
/// which every build succeeds.
pub ghost struct BuildSystem {
    /// Each caller's stage and pending action.
    pub callers: Seq<(BuildStage, BuildAction)>,
    /// Whether the lock marker exists.
    pub lock: bool,
    /// Whether the image exists.
    pub image: bool,
    /// How many builds have run.
    pub builds: nat,
}

/// `n` callers that have not started, against a cold cache with no lock marker.
pub open spec fn cold_system(n: nat) -> BuildSystem {
    BuildSystem {
        callers: Seq::new(n, |i: int| (BuildStage::AwaitLock, BuildAction::TryLock)),
        lock: false,
        image: false,
        builds: 0,
    }
}

/// Caller `i` performs its pending action atomically and takes the next step.
pub open spec fn system_step(s: BuildSystem, i: int) -> BuildSystem {
    if 0 <= i < s.callers.len() {
        let (stage, action) = s.callers[i];
        let (lock, image, builds, event) = match action {
            BuildAction::TryLock => if s.lock {
                (s.lock, s.image, s.builds, BuildEvent::LockBusy)
            } else {
                (true, s.image, s.builds, BuildEvent::LockTaken)
            },
            BuildAction::Sleep(_) => (s.lock, s.image, s.builds, BuildEvent::Slept),
            BuildAction::QueryImage => (s.lock, s.image, s.builds, BuildEvent::ImageExists(s.image)),
            BuildAction::RunBuild => (s.lock, true, s.builds + 1, BuildEvent::BuildEnded),
            BuildAction::RemoveLock => (false, s.image, s.builds, BuildEvent::LockRemoved),
            BuildAction::Finished => (s.lock, s.image, s.builds, BuildEvent::Slept),
        };
        BuildSystem {
            callers: s.callers.update(i, build_next(stage, event)),
            lock,
            image,
            builds,
        }
    } else {
        s
    }
}

/// The system after the callers named by `schedule` have stepped, in that order.
pub open spec fn run_schedule(s: BuildSystem, schedule: Seq<int>) -> BuildSystem
    decreases schedule.len(),
{
    if schedule.len() == 0 {
        s
    } else {
        system_step(run_schedule(s, schedule.drop_last()), schedule.last())
    }
}

/// Whether a stage holds the lock.
pub open spec fn holds_lock(stage: BuildStage) -> bool {
    stage == BuildStage::Holding || stage == BuildStage::Building || stage == BuildStage::Releasing
}

/// Whether a caller's pending action is one that its stage can have.
pub open spec fn action_fits(c: (BuildStage, BuildAction)) -> bool {
    match c.0 {
        BuildStage::AwaitLock => c.1 == BuildAction::TryLock || c.1 == BuildAction::Sleep(
            POLL_INTERVAL_MS,
        ),
        _ => c.1 == stage_action(c.0),
    }
}

/// What holds in every state that a cold system reaches.
pub open spec fn build_invariant(s: BuildSystem) -> bool {
    &&& forall|i: int| 0 <= i < s.callers.len() ==> action_fits(#[trigger] s.callers[i])
    &&& forall|i: int| 0 <= i < s.callers.len() && holds_lock(#[trigger] s.callers[i].0) ==> s.lock
    &&& forall|i: int, j: int|
        0 <= i < s.callers.len() && 0 <= j < s.callers.len() && holds_lock(
            #[trigger] s.callers[i].0,
        ) && holds_lock(#[trigger] s.callers[j].0) ==> i == j
    &&& forall|i: int|
        0 <= i < s.callers.len() && #[trigger] s.callers[i].0 == BuildStage::Building ==> !s.image
    &&& forall|i: int|
        0 <= i < s.callers.len() && (#[trigger] s.callers[i].0 == BuildStage::Releasing
            || s.callers[i].0 == BuildStage::Done) ==> s.image
    &&& s.builds <= 1
    &&& s.image == (s.builds == 1)
}

proof fn lemma_step_keeps_invariant(s: BuildSystem, i: int)
    requires
        build_invariant(s),
    ensures
        build_invariant(system_step(s, i)),
        system_step(s, i).callers.len() == s.callers.len(),
{
    let t = system_step(s, i);
    if 0 <= i < s.callers.len() {
        assert forall|j: int, k: int|
            0 <= j < t.callers.len() && 0 <= k < t.callers.len() && holds_lock(
                #[trigger] t.callers[j].0,
            ) && holds_lock(#[trigger] t.callers[k].0) implies j == k by {
            if j != i && k != i {
                assert(s.callers[j] == t.callers[j]);
                assert(s.callers[k] == t.callers[k]);
            } else if j == i && k != i {
                assert(s.callers[k] == t.callers[k]);
                assert(holds_lock(s.callers[k].0));
            } else if k == i && j != i {
                assert(s.callers[j] == t.callers[j]);
                assert(holds_lock(s.callers[j].0));
            }
        }
        assert forall|j: int|
            0 <= j < t.callers.len() && holds_lock(#[trigger] t.callers[j].0) implies t.lock by {
            if j != i {
                assert(s.callers[j] == t.callers[j]);
                if s.callers[i].1 == BuildAction::RemoveLock {
                    assert(holds_lock(s.callers[i].0));
                }
            }
        }
        assert forall|j: int|
            0 <= j < t.callers.len() && #[trigger] t.callers[j].0 == BuildStage::Building implies !t.image by {
            if j != i {
                assert(s.callers[j] == t.callers[j]);
                if s.callers[i].1 == BuildAction::RunBuild {
                    assert(holds_lock(s.callers[i].0));
                    assert(holds_lock(s.callers[j].0));
                }
            }
        }
        assert forall|j: int|
            0 <= j < t.callers.len() && (#[trigger] t.callers[j].0 == BuildStage::Releasing
                || t.callers[j].0 == BuildStage::Done) implies t.image by {
            if j != i {
                assert(s.callers[j] == t.callers[j]);
            }
        }
        assert forall|j: int| 0 <= j < t.callers.len() implies action_fits(#[trigger] t.callers[j]) by {
            if j != i {
                assert(s.callers[j] == t.callers[j]);
            }
        }
        if s.callers[i].1 == BuildAction::RunBuild {
            assert(s.callers[i].0 == BuildStage::Building);
        }
    }
}

proof fn lemma_schedule_keeps_invariant(s: BuildSystem, schedule: Seq<int>)
    requires
        build_invariant(s),
    ensures
        build_invariant(run_schedule(s, schedule)),
        run_schedule(s, schedule).callers.len() == s.callers.len(),
    decreases schedule.len(),
{
    if schedule.len() > 0 {
        lemma_schedule_keeps_invariant(s, schedule.drop_last());
        lemma_step_keeps_invariant(run_schedule(s, schedule.drop_last()), schedule.last());
    }
}

/// However the steps of concurrent callers interleave against a cold cache, the image
/// is built at most once; once every caller is done, it has been built exactly once
/// and every caller observes it.
pub proof fn lemma_cold_build_runs_once(n: nat, schedule: Seq<int>)
    ensures
        run_schedule(cold_system(n), schedule).builds <= 1,
        (forall|i: int|
            0 <= i < n ==> (#[trigger] run_schedule(cold_system(n), schedule).callers[i]).0
                == BuildStage::Done) && n > 0 ==> run_schedule(cold_system(n), schedule).builds == 1
            && run_schedule(cold_system(n), schedule).image,
{
    let s = cold_system(n);
    assert(build_invariant(s));
    lemma_schedule_keeps_invariant(s, schedule);
    let t = run_schedule(s, schedule);
    if n > 0 && forall|i: int| 0 <= i < n ==> (#[trigger] t.callers[i]).0 == BuildStage::Done {
        assert(t.callers[0].0 == BuildStage::Done);
    }
}

} // verus!
