//! What holds of the update manager: of its single steps, and of every
//! history that is made of them.

use vstd::prelude::*;

use crate::updater::error::Failure;
use crate::updater::release::Release;
use crate::updater::state::{Artifact, UpdateStatus, UpdaterModel};
use crate::updater::trace::{after_unfolds, Run, Step};

verus! {

/// Taking the cached artifact twice in a row yields it once: the first take
/// finds whatever is cached, and the second finds nothing, whatever the state.
pub proof fn take_twice_yields_once(state: UpdaterModel)
    ensures
        state.taken() == state.cached,
        state.take().taken() is None,
        state.take().take() == state.take(),
{
}

/// A take that follows a store finds what was stored, whatever was cached
/// before, and the take after it finds nothing.
pub proof fn take_after_store(state: UpdaterModel, artifact: Artifact)
    ensures
        state.store(artifact).taken() == Some(artifact),
        state.store(artifact).take().taken() is None,
{
}

/// Of two stores in a row the later one stays: a new download always wins.
pub proof fn last_store_wins(state: UpdaterModel, earlier: Artifact, later: Artifact)
    ensures
        state.store(earlier).store(later) == state.store(later),
        state.complete_download(earlier).complete_download(later) == state.complete_download(
            later,
        ),
{
}

/// A completed download leaves its own bytes in the cache, under the version
/// of its own release, whatever was cached before.
pub proof fn cache_holds_a_matched_pair(state: UpdaterModel, release: Release, bytes: Seq<u8>)
    ensures
        state.leave_download(release, Ok(bytes)).taken() == Some(
            Artifact { bytes, version: release.version, current_version: release.current_version },
        ),
        state.leave_download(release, Ok(bytes)).update_downloaded,
{
}

/// An install consumes the artifact: once one has begun, the next request
/// finds no update to install, and the state stays as it is.
pub proof fn install_consumes(state: UpdaterModel)
    requires
        state.installable(),
    ensures
        state.install_request() == Ok::<Artifact, Failure>(state.cached->0),
        state.begin_install().install_request() == Err::<Artifact, Failure>(
            Failure::NoUpdateAvailable,
        ),
        state.begin_install().begin_install() == state.begin_install(),
{
}

/// A request to install with nothing marked as downloaded fails and leaves the
/// state unchanged.
pub proof fn install_needs_a_download(state: UpdaterModel)
    requires
        !state.update_downloaded,
    ensures
        state.install_request() == Err::<Artifact, Failure>(Failure::NoUpdateAvailable),
        state.begin_install() == state,
{
}

/// A failed cycle leaves the state idle: no check in flight, nothing
/// available, nothing downloaded, nothing cached. Whether the updater was
/// started is not touched.
pub proof fn failure_leaves_idle(state: UpdaterModel, release: Release, error: Failure)
    ensures
        state.fail_cycle().status() == (UpdateStatus {
            checking: false,
            update_available: false,
            update_downloaded: false,
        }),
        state.fail_cycle().cached is None,
        state.fail_cycle().started == state.started,
        state.leave_check(Err(error)) == state.fail_cycle(),
        state.leave_download(release, Err(error)) == state.fail_cycle(),
{
}

/// Starting is idempotent: once the updater is started, a request to start
/// changes nothing; a request repeated in the same kind of build changes
/// nothing either; and no step of any protocol takes the started mark away.
pub proof fn started_once_and_for_all(state: UpdaterModel, development: bool, step: Step)
    ensures
        state.started ==> state.start(development) == state,
        state.start(development).start(development) == state.start(development),
        state.started ==> state.step(step).started,
{
}

/// An update stays marked available until a step withdraws it: an answer that
/// reports no release, or a failure.
pub proof fn available_until_withdrawn(state: UpdaterModel, step: Step)
    requires
        state.update_available,
        !step.withdraws(),
    ensures
        state.step(step).update_available,
{
}

/// No step of a protocol parts the download mark from the cache slot: if the
/// mark tells whether the slot is filled before a step, it does so after.
pub proof fn step_keeps_cache_and_flag_together(state: UpdaterModel, step: Step)
    requires
        state.cache_matches_flag(),
    ensures
        state.step(step).cache_matches_flag(),
{
}

/// Along every history, the download mark tells whether the cache slot is
/// filled: it does so after each step if it did so at the start.
pub proof fn cache_matches_flag_throughout(start: Run, steps: Seq<Step>, k: int)
    requires
        start.state.cache_matches_flag(),
        0 <= k <= steps.len(),
    ensures
        start.after(steps.take(k)).state.cache_matches_flag(),
    decreases k,
{
    if k == 0 {
        assert(steps.take(0).len() == 0);
    } else {
        cache_matches_flag_throughout(start, steps, k - 1);
        after_unfolds(start, steps, k - 1);
        step_keeps_cache_and_flag_together(start.after(steps.take(k - 1)).state, steps[k - 1]);
    }
}

/// Single flight. Take any history in which no check is requested while a
/// cycle is checking unmarked. Then at every instant at most one
/// cycle is between entering and leaving the checking phase.
///
/// The condition leaves out one race and nothing else: see
/// [`exposure_needs_failed_download`].
pub proof fn single_flight_throughout(start: Run, steps: Seq<Step>, k: int)
    requires
        start.single_flight(),
        start.admits_all(steps),
        forall|i: int|
            0 <= i < steps.len() && steps[i].requests_check() ==> !(#[trigger] start.after(
                steps.take(i),
            )).exposed(),
        0 <= k <= steps.len(),
    ensures
        start.after(steps.take(k)).single_flight(),
        start.after(steps.take(k)).checking <= 1,
    decreases k,
{
    if k == 0 {
        assert(steps.take(0).len() == 0);
    } else {
        single_flight_throughout(start, steps, k - 1);
        after_unfolds(start, steps, k - 1);
        let before = start.after(steps.take(k - 1));
        assert(before.admits(steps[k - 1]));
        if steps[k - 1].requests_check() {
            assert(!before.exposed());
        }
    }
}

/// A checking cycle loses its mark in one way only: the download of an
/// earlier cycle fails while a later cycle is checking.
pub proof fn exposure_needs_failed_download(run: Run, step: Step)
    requires
        run.single_flight(),
        run.admits(step),
        !run.exposed(),
        run.step(step).exposed(),
    ensures
        step.fails_download(),
        run.checking == 1,
{
}

/// Single flight, in terms of the history alone. Take any history in which no
/// download fails while a cycle is checking. Then at every instant at most one
/// cycle is between entering and leaving the checking phase, and a check is
/// marked in flight exactly while one is.
pub proof fn single_flight_without_late_failures(start: Run, steps: Seq<Step>, k: int)
    requires
        start.single_flight(),
        !start.exposed(),
        start.admits_all(steps),
        forall|i: int|
            0 <= i < steps.len() && steps[i].fails_download() ==> (#[trigger] start.after(
                steps.take(i),
            )).checking == 0,
        0 <= k <= steps.len(),
    ensures
        start.after(steps.take(k)).checking <= 1,
        start.after(steps.take(k)).state.checking <==> start.after(steps.take(k)).checking == 1,
    decreases k,
{
    if k == 0 {
        assert(steps.take(0).len() == 0);
    } else {
        single_flight_without_late_failures(start, steps, k - 1);
        after_unfolds(start, steps, k - 1);
        let before = start.after(steps.take(k - 1));
        assert(before.admits(steps[k - 1]));
        if steps[k - 1].fails_download() {
            assert(before.checking == 0);
        }
    }
}

/// Between the steps of every history, an update that is marked downloaded is
/// in the cache and is marked available, provided no download completes after
/// its release has been marked unavailable again.
pub proof fn consistent_throughout(start: Run, steps: Seq<Step>, k: int)
    requires
        start.state.consistent(),
        forall|i: int|
            0 <= i < steps.len() && steps[i].completes_download() ==> (#[trigger] start.after(
                steps.take(i),
            )).state.update_available,
        0 <= k <= steps.len(),
    ensures
        start.after(steps.take(k)).state.consistent(),
    decreases k,
{
    if k == 0 {
        assert(steps.take(0).len() == 0);
    } else {
        consistent_throughout(start, steps, k - 1);
        after_unfolds(start, steps, k - 1);
        let before = start.after(steps.take(k - 1));
        if steps[k - 1].completes_download() {
            assert(before.state.update_available);
        }
    }
}

/// Where cycles do not overlap, nothing is left out: if every admitted check
/// request finds the run at rest, then at every instant at most one cycle is
/// under way, a check is marked in flight exactly while it is checking, and the state
/// is consistent.
pub proof fn sequential_cycles_keep_all(steps: Seq<Step>, k: int)
    requires
        Run::initial().admits_all(steps),
        forall|i: int|
            0 <= i < steps.len() && steps[i].requests_check() ==> {
                let before = #[trigger] Run::initial().after(steps.take(i));
                before.state.checking || before.at_rest()
            },
        0 <= k <= steps.len(),
    ensures
        ({
            let now = Run::initial().after(steps.take(k));
            &&& now.checking + now.downloading <= 1
            &&& (now.state.checking <==> now.checking == 1)
            &&& (now.downloading == 1 ==> now.state.update_available)
            &&& now.state.consistent()
        }),
    decreases k,
{
    if k == 0 {
        assert(steps.take(0).len() == 0);
    } else {
        sequential_cycles_keep_all(steps, k - 1);
        after_unfolds(Run::initial(), steps, k - 1);
        let before = Run::initial().after(steps.take(k - 1));
        assert(before.admits(steps[k - 1]));
        if steps[k - 1].requests_check() {
            assert(before.state.checking || before.at_rest());
        }
    }
}

} // verus!
