//! Directory provisioning: decide, from what is on disk at the target path,
//! whether the run may use it, must create it, or must fail.

use vstd::prelude::*;

use crate::errors::DirError;

verus! {

/// What a caller found at the target path.
#[derive(Clone, Copy, Debug, PartialEq, Eq, Structural)]
pub enum PathState {
    Missing,
    File,
    EmptyDir,
    NonemptyDir,
}

/// What provisioning must do next.
#[derive(Clone, Copy, Debug, PartialEq, Eq, Structural)]
pub enum ProvisionPlan {
    /// The directory is usable as it stands.
    UseExisting,
    /// The directory does not exist and must be created.
    CreateNew,
}

/// The working directory of one run, with its ownership record.
/// Only a directory this run created may ever be deleted by it.
pub struct ClusterDirectory {
    pub path: String,
    pub existed_before_run: bool,
    pub created_by_us: bool,
}

impl ClusterDirectory {
    /// A directory created by this run cannot also have existed beforehand.
    pub open spec fn wf(self) -> bool {
        self.created_by_us ==> !self.existed_before_run
    }
}

/// The provisioning decision itself: an existing empty directory is taken
/// as is; a nonempty one only when reuse was requested; a file is always
/// refused; a missing path must be created. The orchestrator's transition
/// relation takes its provisioning arms from this one definition.
pub open spec fn spec_plan_provision(state: PathState, use_existing_dir: bool) -> Result<
    ProvisionPlan,
    DirError,
> {
    match state {
        PathState::EmptyDir => Ok(ProvisionPlan::UseExisting),
        PathState::NonemptyDir => if use_existing_dir {
            Ok(ProvisionPlan::UseExisting)
        } else {
            Err(DirError::IsNonempty)
        },
        PathState::File => Err(DirError::IsFile),
        PathState::Missing => Ok(ProvisionPlan::CreateNew),
    }
}

/// The ownership record of a directory that already existed.
pub open spec fn spec_existing_dir(path: String) -> ClusterDirectory {
    ClusterDirectory { path, existed_before_run: true, created_by_us: false }
}

/// The ownership record of a directory this run created.
pub open spec fn spec_created_dir(path: String) -> ClusterDirectory {
    ClusterDirectory { path, existed_before_run: false, created_by_us: true }
}

/// Decide what to do with the target path.
pub fn plan_provision(state: PathState, use_existing_dir: bool) -> (r: Result<
    ProvisionPlan,
    DirError,
>)
    ensures
        r == spec_plan_provision(state, use_existing_dir),
        state is EmptyDir ==> r == Ok::<ProvisionPlan, DirError>(ProvisionPlan::UseExisting),
        state is NonemptyDir && use_existing_dir ==> r == Ok::<ProvisionPlan, DirError>(
            ProvisionPlan::UseExisting,
        ),
        state is NonemptyDir && !use_existing_dir ==> r == Err::<ProvisionPlan, DirError>(
            DirError::IsNonempty,
        ),
        state is File ==> r == Err::<ProvisionPlan, DirError>(DirError::IsFile),
        state is Missing ==> r == Ok::<ProvisionPlan, DirError>(ProvisionPlan::CreateNew),
{
    match state {
        PathState::EmptyDir => Ok(ProvisionPlan::UseExisting),
        PathState::NonemptyDir => {
            if use_existing_dir {
                Ok(ProvisionPlan::UseExisting)
            } else {
                Err(DirError::IsNonempty)
            }
        },
        PathState::File => Err(DirError::IsFile),
        PathState::Missing => Ok(ProvisionPlan::CreateNew),
    }
}

/// Record an already-existing directory that this run will use but did not make.
pub fn provisioned_existing(path: String) -> (r: ClusterDirectory)
    ensures
        r == spec_existing_dir(path),
        r.wf(),
        !r.created_by_us,
{
    ClusterDirectory { path, existed_before_run: true, created_by_us: false }
}

/// Record the outcome of creating a missing directory: on success the run
/// owns it (`created_by_us`), on failure the cause is surfaced as
/// `DirError::CreateFailed`.
pub fn provisioned_created(path: String, create_result: Result<(), String>) -> (r: Result<
    ClusterDirectory,
    DirError,
>)
    ensures
        create_result is Ok ==> r == Ok::<ClusterDirectory, DirError>(spec_created_dir(path)),
        create_result is Ok ==> (r matches Ok(d) && d.wf() && d.created_by_us),
        create_result matches Err(cause) ==> r == Err::<ClusterDirectory, DirError>(
            DirError::CreateFailed(cause),
        ),
{
    match create_result {
        Ok(()) => Ok(
            ClusterDirectory { path, existed_before_run: false, created_by_us: true },
        ),
        Err(cause) => Err(DirError::CreateFailed(cause)),
    }
}

} // verus!
