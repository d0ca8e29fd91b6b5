//! Judging the input paths before anything is archived.
//!
//! An empty or unmounted source must never be archived: a later prune or
//! sync would carry that emptiness over to the retained and remote copies.
//! The caller looks at the file system, one path at a time, and hands each
//! finding to this module, which says what to look at next or how the check
//! ended. Checking stops at the first rejected path.

use vstd::prelude::*;

verus! {

/// What the file system showed of one input path.
#[derive(Clone, Copy, PartialEq, Eq, Structural, Debug)]
pub enum PathProbe {
    /// The path does not exist, or its metadata or listing could not be read.
    Unavailable,
    /// A file: it is accepted as it is; its contents are not looked at.
    File,
    /// A directory with this many immediate entries.
    Directory { entries: usize },
}

/// Why an input path was rejected.
#[derive(Clone, Copy, PartialEq, Eq, Structural, Debug)]
pub enum InputReason {
    MetadataUnavailable,
    EmptyDirectory,
}

/// A rejected input path and the reason.
pub struct InputError {
    pub path: String,
    pub reason: InputReason,
}

/// Whether a path with this finding is rejected.
pub open spec fn rejected(p: PathProbe) -> bool {
    match p {
        PathProbe::Unavailable => true,
        PathProbe::File => false,
        PathProbe::Directory { entries } => entries == 0,
    }
}

/// The reason given for a rejected finding.
pub open spec fn reason_of(p: PathProbe) -> InputReason {
    match p {
        PathProbe::Unavailable => InputReason::MetadataUnavailable,
        _ => InputReason::EmptyDirectory,
    }
}

/// Whether `e` rejects `path` for the finding `p`.
pub open spec fn reports(e: InputError, path: Seq<char>, p: PathProbe) -> bool {
    e.path@ == path && e.reason == reason_of(p)
}

/// Whether none of the first `n` findings is rejected.
pub open spec fn accepted_upto(probes: Seq<PathProbe>, n: int) -> bool {
    forall|i: int| 0 <= i < n ==> !rejected(#[trigger] probes[i])
}

/// Judges one input path from its finding.
pub fn check_input(path: &String, probe: PathProbe) -> (r: Result<(), InputError>)
    ensures
        r is Ok <==> !rejected(probe),
        r matches Err(e) ==> reports(e, path@, probe),
{
    match probe {
        PathProbe::File => Ok(()),
        PathProbe::Directory { entries } => {
            if entries > 0 {
                Ok(())
            } else {
                Err(InputError { path: path.clone(), reason: InputReason::EmptyDirectory })
            }
        },
        PathProbe::Unavailable => Err(
            InputError { path: path.clone(), reason: InputReason::MetadataUnavailable },
        ),
    }
}

/// Where a check of the input paths stands.
pub enum Validation {
    /// Every path is accepted.
    Passed,
    /// The path at this index is to be looked at next.
    Probe(usize),
    /// The first rejected path.
    Failed(InputError),
}

/// Given the findings for the first `probes.len()` paths, in order, says how
/// the check of `paths` goes on: it fails at the first rejected finding, asks
/// for the next path while all so far are accepted, and passes once every
/// path is accepted.
pub fn validate_inputs(paths: &Vec<String>, probes: &Vec<PathProbe>) -> (r: Validation)
    requires
        probes.len() <= paths.len(),
    ensures
        r matches Validation::Passed ==> probes.len() == paths.len() && accepted_upto(
            probes@,
            probes.len() as int,
        ),
        r matches Validation::Probe(i) ==> i == probes.len() && i < paths.len() && accepted_upto(
            probes@,
            probes.len() as int,
        ),
        r matches Validation::Failed(e) ==> exists|k: int|
            0 <= k < probes.len() && accepted_upto(probes@, k) && rejected(#[trigger] probes@[k])
                && reports(e, paths@[k]@, probes@[k]),
        accepted_upto(probes@, probes.len() as int) <==> !(r is Failed),
{
    let mut i: usize = 0;
    while i < probes.len()
        invariant
            i <= probes.len() <= paths.len(),
            accepted_upto(probes@, i as int),
        decreases probes.len() - i,
    {
        match check_input(&paths[i], probes[i]) {
            Ok(()) => {},
            Err(e) => {
                assert(rejected(probes@[i as int]));
                return Validation::Failed(e);
            },
        }
        i = i + 1;
    }
    if i < paths.len() {
        Validation::Probe(i)
    } else {
        Validation::Passed
    }
}

} // verus!
