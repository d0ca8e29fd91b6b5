//! Properties that hold across the calls of a run.

use vstd::prelude::*;

use crate::config::RunConfig;
use crate::metrics::{nanos_of, seconds_of, NANOS_PER_SEC};
use crate::orchestrate::{
    next_phase,
    reports_failure,
    spawns,
    stage_line,
    Phase,
    RunError,
    Stage,
};
use crate::output::{succeeded, CommandOutcome};
use crate::validate::{accepted_upto, reason_of, rejected, InputReason, PathProbe};

verus! {

/// The phase reached from `p` once stages that end as `oks` says are recorded
/// in turn.
pub open spec fn phase_after(p: Phase, oks: Seq<bool>) -> Phase
    decreases oks.len(),
{
    if oks.len() == 0 {
        p
    } else {
        phase_after(next_phase(p, oks[0]), oks.drop_first())
    }
}

/// Files are accepted whatever else is true of them: a list of file inputs
/// passes, and no directory listing is consulted for any of them.
pub proof fn lemma_files_pass(probes: Seq<PathProbe>)
    requires
        forall|i: int| 0 <= i < probes.len() ==> probes[i] == PathProbe::File,
    ensures
        accepted_upto(probes, probes.len() as int),
{
}

/// A directory with no entries is rejected as an empty directory; one with
/// at least one entry is accepted.
pub proof fn lemma_directories(entries: usize)
    ensures
        entries == 0 ==> rejected(PathProbe::Directory { entries }) && reason_of(
            PathProbe::Directory { entries },
        ) == InputReason::EmptyDirectory,
        entries > 0 ==> !rejected(PathProbe::Directory { entries }),
{
}

/// A path that cannot be found is rejected for its metadata, and checking
/// stops there: whatever the paths after it would have shown, it stays the
/// first rejected one, and the whole list never passes.
pub proof fn lemma_fail_fast(probes: Seq<PathProbe>, k: int)
    requires
        0 <= k < probes.len(),
        accepted_upto(probes, k),
        probes[k] == PathProbe::Unavailable,
    ensures
        reason_of(probes[k]) == InputReason::MetadataUnavailable,
        !accepted_upto(probes, probes.len() as int),
        forall|j: int|
            0 <= j < probes.len() && accepted_upto(probes, j) && rejected(#[trigger] probes[j])
                ==> j == k,
        forall|more: Seq<PathProbe>|
            #![trigger more.subrange(0, k + 1)]
            k < more.len() && more.subrange(0, k + 1) == probes.subrange(0, k + 1) ==> accepted_upto(
                more,
                k,
            ) && rejected(more[k]),
{
    assert forall|more: Seq<PathProbe>|
        #![trigger more.subrange(0, k + 1)]
        k < more.len() && more.subrange(0, k + 1) == probes.subrange(0, k + 1) implies accepted_upto(
        more,
        k,
    ) && rejected(more[k]) by {
        assert forall|i: int| 0 <= i < k implies !rejected(#[trigger] more[i]) by {
            assert(more[i] == more.subrange(0, k + 1)[i]);
            assert(probes[i] == probes.subrange(0, k + 1)[i]);
        }
        assert(more[k] == more.subrange(0, k + 1)[k]);
        assert(probes[k] == probes.subrange(0, k + 1)[k]);
    }
}

/// A run that has failed stays failed and starts no process, whatever is
/// recorded after.
pub proof fn lemma_failed_is_final(oks: Seq<bool>, dry_run: bool)
    ensures
        phase_after(Phase::Failed, oks) == Phase::Failed,
        !spawns(dry_run, Phase::Failed),
    decreases oks.len(),
{
    if oks.len() > 0 {
        lemma_failed_is_final(oks.drop_first(), dry_run);
    }
}

/// In a dry run no stage starts a process, and the three stages, each
/// recorded as skipped, bring the run to its successful end.
pub proof fn lemma_dry_run(config: RunConfig)
    requires
        config.dry_run,
    ensures
        forall|p: Phase| !spawns(config.dry_run, p),
        phase_after(
            Phase::Running(Stage::Create),
            seq![
                succeeded(CommandOutcome::Skipped),
                succeeded(CommandOutcome::Skipped),
                succeeded(CommandOutcome::Skipped),
            ],
        ) == Phase::Done,
{
    reveal_with_fuel(phase_after, 4);
    let oks = seq![true, true, true];
    assert(oks.drop_first() =~= seq![true, true]);
    assert(oks.drop_first().drop_first() =~= seq![true]);
    assert(oks.drop_first().drop_first().drop_first() =~= Seq::<bool>::empty());
}

/// When the archive creation exits unsuccessfully, the run fails at once:
/// neither pruning nor sync is started after it, and the error carries the
/// creation's command line, exit status, output and error output.
pub proof fn lemma_create_failure_stops(
    config: RunConfig,
    status: Option<i32>,
    stdout: String,
    stderr: String,
    e: RunError,
    later: Seq<bool>,
)
    requires
        reports_failure(
            e,
            stage_line(config, Stage::Create),
            CommandOutcome::Failed { status, stdout, stderr },
        ),
    ensures
        next_phase(
            Phase::Running(Stage::Create),
            succeeded(CommandOutcome::Failed { status, stdout, stderr }),
        ) == Phase::Failed,
        phase_after(Phase::Failed, later) == Phase::Failed,
        !spawns(config.dry_run, Phase::Failed),
        match e {
            RunError::CommandFailure { command, status: s, stdout: out, stderr: err } => command@
                == stage_line(config, Stage::Create) && s == status && out@ == stdout@ && err@
                == stderr@,
            _ => false,
        },
{
    lemma_failed_is_final(later, config.dry_run);
}

/// Two clock readings in order give whole seconds in order, and the seconds
/// differ by at most one more than the whole seconds between the readings.
pub proof fn lemma_epoch_seconds_ordered(earlier: (u64, u32), later: (u64, u32))
    requires
        earlier.1 < NANOS_PER_SEC,
        later.1 < NANOS_PER_SEC,
        nanos_of(earlier) <= nanos_of(later),
    ensures
        seconds_of(Ok(earlier)) matches Some(r1) && seconds_of(Ok(later)) matches Some(r2) && r1
            <= r2 && r2 - r1 <= (nanos_of(later) - nanos_of(earlier)) / (NANOS_PER_SEC as int)
            + 1,
{
    let s1 = earlier.0 as int;
    let s2 = later.0 as int;
    let n1 = earlier.1 as int;
    let n2 = later.1 as int;
    let g = 1_000_000_000int;
    assert(s1 <= s2) by (nonlinear_arith)
        requires
            s1 * g + n1 <= s2 * g + n2,
            0 <= n1 < g,
            0 <= n2 < g,
            g == 1_000_000_000,
    ;
    let d = (s2 * g + n2) - (s1 * g + n1);
    assert((s2 - s1 - 1) * g <= d) by (nonlinear_arith)
        requires
            d == (s2 * g + n2) - (s1 * g + n1),
            0 <= n1 < g,
            0 <= n2,
    ;
    assert(s2 - s1 - 1 <= d / g) by (nonlinear_arith)
        requires
            (s2 - s1 - 1) * g <= d,
            g > 0,
            d >= 0,
    ;
}

} // verus!
