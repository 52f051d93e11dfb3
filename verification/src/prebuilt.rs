//! Verification of prebuilt artifacts against the pinned revision.

use vstd::prelude::*;
use crate::manifest::Repo;
use crate::target::{prebuilt_target_dir, spec_prebuilt_dir};
use crate::text::{lowercase, same_text, to_lowercase};

verus! {

/// Why prebuilt artifacts cannot be used.
#[derive(Clone, Copy, Debug, PartialEq, Eq, Structural)]
pub enum PrebuiltError {
    /// The file that records the revision of the artifacts is not there.
    VersionRegistryNotFound,
    /// The artifacts were built from another revision than the pinned one.
    InvalidCommit,
}

/// The verdict on a recorded revision against the pinned one, both in lower
/// case already.
pub open spec fn spec_folded_verdict(pinned: Seq<char>, recorded: Seq<char>) -> Result<
    (),
    PrebuiltError,
> {
    if pinned == recorded {
        Ok(())
    } else {
        Err(PrebuiltError::InvalidCommit)
    }
}

/// The verdict on the artifacts: without a record they cannot be used, and
/// with one only where it names the pinned revision, whatever the case of
/// the letters.
pub open spec fn spec_verdict(pinned: Seq<char>, recorded: Option<Seq<char>>) -> Result<
    (),
    PrebuiltError,
> {
    match recorded {
        None => Err(PrebuiltError::VersionRegistryNotFound),
        Some(text) => spec_folded_verdict(lowercase(pinned), lowercase(text)),
    }
}

/// The text of a record, if there is a record.
pub open spec fn recorded_text(recorded: Option<&str>) -> Option<Seq<char>> {
    match recorded {
        Some(text) => Some(text@),
        None => None,
    }
}

/// Compares the pinned revision with the recorded one, both in lower case
/// already.
pub fn compare_folded(pinned: &str, recorded: &str) -> (r: Result<(), PrebuiltError>)
    ensures
        r == spec_folded_verdict(pinned@, recorded@),
{
    if same_text(pinned, recorded) {
        Ok(())
    } else {
        Err(PrebuiltError::InvalidCommit)
    }
}

/// Checks what the record beside the artifacts says (`None` where there is
/// no record) against the pinned revision.
pub fn verify_stamp(pinned: &str, recorded: Option<&str>) -> (r: Result<(), PrebuiltError>)
    ensures
        r == spec_verdict(pinned@, recorded_text(recorded)),
        recorded is None ==> r == Err::<(), PrebuiltError>(PrebuiltError::VersionRegistryNotFound),
        recorded is Some ==> (r is Ok <==> lowercase(pinned@) == lowercase(recorded->Some_0@)),
        recorded is Some && r is Err ==> r == Err::<(), PrebuiltError>(
            PrebuiltError::InvalidCommit,
        ),
{
    match recorded {
        None => Err(PrebuiltError::VersionRegistryNotFound),
        Some(text) => {
            let pinned_folded = to_lowercase(pinned);
            let recorded_folded = to_lowercase(text);
            compare_folded(pinned_folded.as_str(), recorded_folded.as_str())
        },
    }
}

/// The directory of the prebuilt artifacts for a target, once they are
/// verified against the pinned revision of the project. The target must be
/// one that has prebuilt artifacts.
pub fn prebuilt_install_dir(
    repo: &Repo,
    target_os: &str,
    target_arch: &str,
    recorded: Option<&str>,
) -> (r: Result<&'static str, PrebuiltError>)
    requires
        spec_prebuilt_dir(target_os@, target_arch@) is Some,
    ensures
        match r {
            Ok(dir) => spec_verdict(repo.commit@, recorded_text(recorded)) is Ok && dir@
                == spec_prebuilt_dir(target_os@, target_arch@)->Some_0,
            Err(error) => spec_verdict(repo.commit@, recorded_text(recorded)) == Err::<
                (),
                PrebuiltError,
            >(error),
        },
{
    let dir = prebuilt_target_dir(target_os, target_arch);
    match verify_stamp(repo.commit.as_str(), recorded) {
        Ok(()) => Ok(dir.unwrap()),
        Err(error) => Err(error),
    }
}

/// A record is accepted exactly where it equals the pinned revision up to the
/// case of the letters; a missing record is refused whatever is pinned.
pub proof fn lemma_verdict(pinned: Seq<char>, recorded: Option<Seq<char>>)
    ensures
        recorded is None ==> spec_verdict(pinned, recorded) == Err::<(), PrebuiltError>(
            PrebuiltError::VersionRegistryNotFound,
        ),
        recorded is Some ==> (spec_verdict(pinned, recorded) is Ok <==> lowercase(pinned)
            == lowercase(recorded->Some_0)),
        recorded is Some && lowercase(pinned) != lowercase(recorded->Some_0) ==> spec_verdict(
            pinned,
            recorded,
        ) == Err::<(), PrebuiltError>(PrebuiltError::InvalidCommit),
        recorded == Some(pinned) ==> spec_verdict(pinned, recorded) is Ok,
{
}

} // verus!
