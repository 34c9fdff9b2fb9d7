//! Census through the per-process descriptor directory of procfs.
use crate::fds::{tally, tally_stats, FdKind, FdList};
use crate::outcome::{pid_in_range, UNCLASSIFIED, FshcError, Pid, ProcStats, QueryMode};
use procfs::process::{FDInfo, FDTarget, Process};
use procfs::ProcError;
use vstd::prelude::*;

verus! {

/// procfs::process::Process, carried from opening to listing.
#[verifier::external_type_specification]
#[verifier::external_body]
pub struct ExProcess(Process);

/// procfs::ProcError, carried until its variant is told apart.
#[verifier::external_type_specification]
#[verifier::external_body]
pub struct ExProcError(ProcError);

/// procfs::process::FDInfo, carried until its target is classified.
#[verifier::external_type_specification]
#[verifier::external_body]
pub struct ExFDInfo(FDInfo);

/// What a descriptor of the directory points at, one variant for each that
/// procfs tells apart.
#[derive(Clone, Copy, Debug, PartialEq, Eq, Structural)]
pub enum FdTargetKind {
    Path,
    Socket,
    Net,
    Pipe,
    AnonInode,
    MemFD,
    Other,
}

/// The failures that procfs reports, one variant for each of its own.
#[derive(Clone, Copy, Debug, PartialEq, Eq, Structural)]
pub enum ProcErrorKind {
    PermissionDenied,
    NotFound,
    Incomplete,
    Io,
    Other,
    InternalError,
}

/// Relies on procfs::process::Process::new: opens the procfs entry of the
/// process `pid`, or says why it could not.
#[verifier::external_body]
fn open_process(pid: i32) -> (r: Result<Process, ProcError>) {
    Process::new(pid)
}

/// Relies on procfs::process::Process::fd: lists the descriptor directory of
/// the process, one item per open descriptor (procfs itself passes over a
/// descriptor that closes while it is listed).
#[verifier::external_body]
fn read_fds(p: &Process) -> (r: Result<Vec<Result<FDInfo, ProcError>>, ProcError>) {
    p.fd().map(|fds| fds.collect())
}

/// Relies on the field `target` of procfs::process::FDInfo: tells its
/// variants apart.
#[verifier::external_body]
fn target_kind(info: &FDInfo) -> (r: FdTargetKind) {
    match &info.target {
        FDTarget::Path(_) => FdTargetKind::Path,
        FDTarget::Socket(_) => FdTargetKind::Socket,
        FDTarget::Net(_) => FdTargetKind::Net,
        FDTarget::Pipe(_) => FdTargetKind::Pipe,
        FDTarget::AnonInode(_) => FdTargetKind::AnonInode,
        FDTarget::MemFD(_) => FdTargetKind::MemFD,
        FDTarget::Other(_, _) => FdTargetKind::Other,
    }
}

/// Relies on procfs::ProcError: tells its variants apart.
#[verifier::external_body]
fn proc_error_kind(e: &ProcError) -> (r: ProcErrorKind) {
    match e {
        ProcError::PermissionDenied(_) => ProcErrorKind::PermissionDenied,
        ProcError::NotFound(_) => ProcErrorKind::NotFound,
        ProcError::Incomplete(_) => ProcErrorKind::Incomplete,
        ProcError::Io(_, _) => ProcErrorKind::Io,
        ProcError::Other(_) => ProcErrorKind::Other,
        ProcError::InternalError(_) => ProcErrorKind::InternalError,
    }
}

/// Descriptors that point at a path are files; sockets are sockets; the rest
/// count toward the total only.
pub open spec fn kind_of_target(t: FdTargetKind) -> FdKind {
    match t {
        FdTargetKind::Path => FdKind::File,
        FdTargetKind::Socket => FdKind::Socket,
        _ => FdKind::Other,
    }
}

/// Classifies what a descriptor points at.
pub fn classify_target(t: FdTargetKind) -> (r: FdKind)
    ensures
        r == kind_of_target(t),
{
    match t {
        FdTargetKind::Path => FdKind::File,
        FdTargetKind::Socket => FdKind::Socket,
        _ => FdKind::Other,
    }
}

/// The error that a procfs failure stands for.
pub open spec fn error_of_proc(k: ProcErrorKind) -> FshcError {
    match k {
        ProcErrorKind::PermissionDenied => FshcError::PermissionDenied,
        ProcErrorKind::NotFound => FshcError::InvalidInput,
        ProcErrorKind::Incomplete => FshcError::IoError,
        ProcErrorKind::Io => FshcError::IoError,
        ProcErrorKind::Other => FshcError::Other(UNCLASSIFIED),
        ProcErrorKind::InternalError => FshcError::Other(UNCLASSIFIED),
    }
}

impl From<ProcErrorKind> for FshcError {
    fn from(k: ProcErrorKind) -> (r: FshcError) {
        match k {
            ProcErrorKind::PermissionDenied => FshcError::PermissionDenied,
            ProcErrorKind::NotFound => FshcError::InvalidInput,
            ProcErrorKind::Incomplete => FshcError::IoError,
            ProcErrorKind::Io => FshcError::IoError,
            ProcErrorKind::Other => FshcError::Other(UNCLASSIFIED),
            ProcErrorKind::InternalError => FshcError::Other(UNCLASSIFIED),
        }
    }
}

impl vstd::std_specs::convert::FromSpecImpl<ProcErrorKind> for FshcError {
    open spec fn obeys_from_spec() -> bool {
        true
    }

    open spec fn from_spec(k: ProcErrorKind) -> FshcError {
        error_of_proc(k)
    }
}

/// The exit status that a procfs failure stands for.
pub open spec fn exit_code_of_proc(k: ProcErrorKind) -> sysexits::ExitCode {
    match k {
        ProcErrorKind::PermissionDenied => sysexits::ExitCode::NoPerm,
        ProcErrorKind::NotFound => sysexits::ExitCode::DataErr,
        ProcErrorKind::Io => sysexits::ExitCode::IoErr,
        _ => sysexits::ExitCode::Unavailable,
    }
}

impl crate::outcome::ExitCodeProvider for ProcErrorKind {
    open spec fn spec_exit_code(&self) -> sysexits::ExitCode {
        exit_code_of_proc(*self)
    }

    fn exit_code(&self) -> (r: sysexits::ExitCode) {
        match self {
            ProcErrorKind::PermissionDenied => sysexits::ExitCode::NoPerm,
            ProcErrorKind::NotFound => sysexits::ExitCode::DataErr,
            ProcErrorKind::Io => sysexits::ExitCode::IoErr,
            _ => sysexits::ExitCode::Unavailable,
        }
    }
}

/// The errors that a procfs census can end in.
pub open spec fn is_census_error(e: FshcError) -> bool {
    exists|k: ProcErrorKind| e == error_of_proc(k)
}

/// The classes of a listing, in order.
pub open spec fn listed_kinds(targets: Seq<FdTargetKind>) -> Seq<FdKind> {
    targets.map_values(|t: FdTargetKind| kind_of_target(t))
}

/// The counts of process `pid` from a listing of what its descriptors point
/// at, or `IoError` where the listing is too long to count in 32 bits.
pub open spec fn targets_outcome(pid: Pid, targets: Seq<FdTargetKind>, mode: QueryMode) -> Result<
    ProcStats,
    FshcError,
> {
    if targets.len() <= u32::MAX {
        Ok(tally_stats(pid, listed_kinds(targets), mode))
    } else {
        Err(FshcError::IoError)
    }
}

/// What each listed descriptor points at. procfs itself passes over a
/// descriptor that closes while it is listed, so a failed item is a failure
/// to read the directory: the first one ends the listing with its kind.
fn collect_targets(fds: &Vec<Result<FDInfo, ProcError>>) -> (r: Result<
    Vec<FdTargetKind>,
    ProcErrorKind,
>)
    ensures
        r matches Ok(v) ==> v@.len() == fds@.len() && forall|i: int|
            0 <= i < fds@.len() ==> (#[trigger] fds@[i]).is_ok(),
        r is Err ==> exists|i: int| 0 <= i < fds@.len() && (#[trigger] fds@[i]).is_err(),
{
    let mut out: Vec<FdTargetKind> = Vec::new();
    let mut i: usize = 0;
    while i < fds.len()
        invariant
            i <= fds@.len(),
            out@.len() == i,
            forall|j: int| 0 <= j < i ==> (#[trigger] fds@[j]).is_ok(),
        decreases fds@.len() - i,
    {
        match &fds[i] {
            Ok(info) => out.push(target_kind(info)),
            Err(e) => {
                assert(fds@[i as int].is_err());
                return Err(proc_error_kind(e));
            },
        }
        i = i + 1;
    }
    Ok(out)
}

/// The outcome of a census whose procfs step failed with `k`.
fn failure(k: ProcErrorKind) -> (r: Result<ProcStats, FshcError>)
    ensures
        r == Err::<ProcStats, FshcError>(error_of_proc(k)),
{
    Err(FshcError::from(k))
}

impl FdList {
    /// Counts the descriptors of process `pid` from what procfs listed for
    /// each of them: paths count as files, sockets as sockets, the rest toward
    /// the total only.
    pub fn count_targets(pid: Pid, targets: &Vec<FdTargetKind>, mode: QueryMode) -> (r: Result<
        ProcStats,
        FshcError,
    >)
        ensures
            r == targets_outcome(pid, targets@, mode),
            r matches Ok(s) ==> s.wf() && s.has_shape(mode),
    {
        if targets.len() > 0xffff_ffff {
            return Err(FshcError::IoError);
        }
        let mut kinds: Vec<FdKind> = Vec::new();
        let mut i: usize = 0;
        while i < targets.len()
            invariant
                i <= targets@.len(),
                kinds@ == listed_kinds(targets@.take(i as int)),
            decreases targets@.len() - i,
        {
            kinds.push(classify_target(targets[i]));
            proof {
                assert(kinds@ =~= listed_kinds(targets@.take(i + 1)));
            }
            i = i + 1;
        }
        proof {
            assert(targets@.take(i as int) == targets@);
        }
        Ok(tally(pid, &kinds, mode))
    }

    /// The outcome of a census from what procfs answered: the failure of
    /// opening the process or reading its descriptor directory, mapped to the
    /// library's error, or the counts of the listing.
    pub fn from_listing(pid: Pid, listing: Result<Vec<FdTargetKind>, ProcErrorKind>, mode: QueryMode) -> (r:
        Result<ProcStats, FshcError>)
        ensures
            listing matches Err(k) ==> r == Err::<ProcStats, FshcError>(error_of_proc(k)),
            listing matches Ok(t) ==> r == targets_outcome(pid, t@, mode),
            r matches Ok(s) ==> s.pid == pid && s.wf() && s.has_shape(mode),
    {
        match listing {
            Err(k) => failure(k),
            Ok(t) => FdList::count_targets(pid, &t, mode),
        }
    }
}

/// One census of process `pid` through procfs.
fn census(pid: Pid, mode: QueryMode) -> (r: Result<ProcStats, FshcError>)
    requires
        pid_in_range(pid),
    ensures
        r matches Ok(s) ==> s.pid == pid && s.wf() && s.has_shape(mode),
        r matches Err(e) ==> is_census_error(e),
{
    let listing = match open_process(pid as i32) {
        Err(e) => Err(proc_error_kind(&e)),
        Ok(process) => match read_fds(&process) {
            Err(e) => Err(proc_error_kind(&e)),
            Ok(fds) => collect_targets(&fds),
        },
    };
    proof {
        assert(FshcError::IoError == error_of_proc(ProcErrorKind::Io));
    }
    FdList::from_listing(pid, listing, mode)
}

impl FdList {
    /// Counts the open descriptors of process `pid`, split into sockets and
    /// files. Whatever procfs answers, the outcome is what `from_listing`
    /// gives for that answer in `Detailed` mode.
    pub fn list_by_type(pid: Pid) -> (r: Result<ProcStats, FshcError>)
        requires
            pid_in_range(pid),
        ensures
            r matches Ok(s) ==> s.pid == pid && s.wf() && s.has_shape(QueryMode::Detailed),
            r matches Err(e) ==> is_census_error(e),
    {
        census(pid, QueryMode::Detailed)
    }

    /// Counts the open descriptors of process `pid`, in total only. Whatever
    /// procfs answers, the outcome is what `from_listing` gives for that
    /// answer in `TotalOnly` mode.
    pub fn list_total(pid: Pid) -> (r: Result<ProcStats, FshcError>)
        requires
            pid_in_range(pid),
        ensures
            r matches Ok(s) ==> s.pid == pid && s.wf() && s.has_shape(QueryMode::TotalOnly),
            r matches Err(e) ==> is_census_error(e),
    {
        census(pid, QueryMode::TotalOnly)
    }
}

} // verus!
