//! The census entry points, and the tally of classified descriptors that the
//! per-process platforms share.
use crate::outcome::{FshcError, Pid, ProcStats, QueryMode};
use vstd::prelude::*;
use vstd::seq_lib::group_seq_properties;

verus! {

broadcast use group_seq_properties;

/// Namespace of the census entry points.
pub struct FdList;

/// The class of an open descriptor. Pipes, anonymous inodes, devices and the
/// like are `Other`: they count toward the total only.
#[derive(Clone, Copy, Debug, PartialEq, Eq, Structural)]
pub enum FdKind {
    File,
    Socket,
    Other,
}

/// Selects the descriptors of class `k`.
pub open spec fn of_kind(k: FdKind) -> spec_fn(FdKind) -> bool {
    |e: FdKind| e == k
}

/// The counts of process `pid` whose descriptors, in listing order, have the
/// classes `entries`.
pub open spec fn tally_stats(pid: Pid, entries: Seq<FdKind>, mode: QueryMode) -> ProcStats {
    let detailed = mode == QueryMode::Detailed;
    ProcStats {
        pid,
        total_descriptors: entries.len() as u32,
        socket_descriptors: if detailed {
            Some(entries.filter(of_kind(FdKind::Socket)).len() as u32)
        } else {
            None
        },
        file_descriptors: if detailed {
            Some(entries.filter(of_kind(FdKind::File)).len() as u32)
        } else {
            None
        },
    }
}

/// Counts classified descriptors; the breakdown is made in `Detailed` mode
/// only.
pub fn tally(pid: Pid, entries: &Vec<FdKind>, mode: QueryMode) -> (r: ProcStats)
    requires
        entries@.len() <= u32::MAX,
    ensures
        r == tally_stats(pid, entries@, mode),
        r.wf(),
        r.has_shape(mode),
{
    let mut sockets: u32 = 0;
    let mut files: u32 = 0;
    let mut i: usize = 0;
    while i < entries.len()
        invariant
            i <= entries@.len(),
            entries@.len() <= u32::MAX,
            sockets == entries@.take(i as int).filter(of_kind(FdKind::Socket)).len(),
            files == entries@.take(i as int).filter(of_kind(FdKind::File)).len(),
            sockets + files <= i,
        decreases entries@.len() - i,
    {
        proof {
            let s = entries@.take(i as int);
            let e = entries@[i as int];
            assert(entries@.take(i + 1) == s.push(e));
            s.lemma_filter_push(e, of_kind(FdKind::Socket));
            s.lemma_filter_push(e, of_kind(FdKind::File));
        }
        match entries[i] {
            FdKind::Socket => sockets = sockets + 1,
            FdKind::File => files = files + 1,
            FdKind::Other => {},
        }
        i = i + 1;
    }
    proof {
        assert(entries@.take(i as int) == entries@);
    }
    let total = entries.len() as u32;
    match mode {
        QueryMode::TotalOnly => ProcStats {
            pid,
            total_descriptors: total,
            socket_descriptors: None,
            file_descriptors: None,
        },
        QueryMode::Detailed => ProcStats {
            pid,
            total_descriptors: total,
            socket_descriptors: Some(sockets),
            file_descriptors: Some(files),
        },
    }
}

/// The class of a descriptor type number as the BSD process-info call
/// reports it: vnodes are files, and number 2 is a socket.
pub open spec fn bsd_kind_of(fd_type: u32) -> FdKind {
    if fd_type == 1 {
        FdKind::File
    } else if fd_type == 2 {
        FdKind::Socket
    } else {
        FdKind::Other
    }
}

/// Classifies a descriptor type number of the BSD process-info call.
pub fn bsd_fd_kind(fd_type: u32) -> (r: FdKind)
    ensures
        r == bsd_kind_of(fd_type),
{
    if fd_type == 1 {
        FdKind::File
    } else if fd_type == 2 {
        FdKind::Socket
    } else {
        FdKind::Other
    }
}

/// The error that a failed BSD process-info call stands for, by the OS error
/// number it left: no such process, no permission (`EPERM`, `EACCES`), or an
/// I/O failure; any other number keeps the call's own text.
pub open spec fn errno_error(code: i32, message: String) -> FshcError {
    if code == 3 {
        FshcError::InvalidInput
    } else if code == 1 || code == 13 {
        FshcError::PermissionDenied
    } else if code == 5 {
        FshcError::IoError
    } else {
        FshcError::Errno(message)
    }
}

/// Classifies a failed BSD process-info call by the OS error number it left.
pub fn error_of_errno(code: i32, message: String) -> (r: FshcError)
    ensures
        r == errno_error(code, message),
{
    if code == 3 {
        FshcError::InvalidInput
    } else if code == 1 || code == 13 {
        FshcError::PermissionDenied
    } else if code == 5 {
        FshcError::IoError
    } else {
        FshcError::Errno(message)
    }
}

impl FdList {
    /// Counts the descriptors of process `pid` from the type numbers that the
    /// BSD process-info call lists for it, one per open descriptor.
    pub fn count_fd_types(pid: Pid, fd_types: &Vec<u32>, mode: QueryMode) -> (r: Result<
        ProcStats,
        FshcError,
    >)
        ensures
            fd_types@.len() <= u32::MAX ==> r == Ok::<ProcStats, FshcError>(
                tally_stats(pid, fd_types@.map_values(|t: u32| bsd_kind_of(t)), mode),
            ),
            fd_types@.len() > u32::MAX ==> r == Err::<ProcStats, FshcError>(FshcError::IoError),
            r matches Ok(s) ==> s.wf() && s.has_shape(mode),
    {
        if fd_types.len() > 0xffff_ffff {
            return Err(FshcError::IoError);
        }
        let mut kinds: Vec<FdKind> = Vec::new();
        let mut i: usize = 0;
        while i < fd_types.len()
            invariant
                i <= fd_types@.len(),
                kinds@ == fd_types@.take(i as int).map_values(|t: u32| bsd_kind_of(t)),
            decreases fd_types@.len() - i,
        {
            kinds.push(bsd_fd_kind(fd_types[i]));
            proof {
                assert(kinds@ =~= fd_types@.take(i + 1).map_values(
                    |t: u32| bsd_kind_of(t),
                ));
            }
            i = i + 1;
        }
        proof {
            assert(fd_types@.take(i as int) == fd_types@);
        }
        Ok(tally(pid, &kinds, mode))
    }
}

/// Sockets and files together never outnumber the descriptors.
proof fn lemma_kinds_within_total(s: Seq<FdKind>)
    ensures
        s.filter(of_kind(FdKind::Socket)).len() + s.filter(of_kind(FdKind::File)).len() <= s.len(),
    decreases s.len(),
{
    if s.len() > 0 {
        let init = s.drop_last();
        lemma_kinds_within_total(init);
        assert(s == init.push(s.last()));
        init.lemma_filter_push(s.last(), of_kind(FdKind::Socket));
        init.lemma_filter_push(s.last(), of_kind(FdKind::File));
    }
}

/// Every tally is well formed: the socket and file counts together are at
/// most the total.
pub proof fn lemma_tally_within_total(pid: Pid, entries: Seq<FdKind>, mode: QueryMode)
    requires
        entries.len() <= u32::MAX,
    ensures
        tally_stats(pid, entries, mode).wf(),
{
    lemma_kinds_within_total(entries);
}

/// A `Detailed` tally has both the socket and the file count, a `TotalOnly`
/// tally has neither: never one without the other.
pub proof fn lemma_tally_mode_shape(pid: Pid, entries: Seq<FdKind>, mode: QueryMode)
    ensures
        tally_stats(pid, entries, mode).has_shape(mode),
        tally_stats(pid, entries, mode).paired(),
        mode == QueryMode::TotalOnly ==> tally_stats(pid, entries, mode).socket_descriptors.is_none()
            && tally_stats(pid, entries, mode).file_descriptors.is_none(),
{
}

/// Two tallies of the same process, mode and descriptors give identical
/// counts.
pub proof fn lemma_tally_idempotent(
    pid: Pid,
    entries: Seq<FdKind>,
    mode: QueryMode,
    first: ProcStats,
    second: ProcStats,
)
    requires
        first == tally_stats(pid, entries, mode),
        second == tally_stats(pid, entries, mode),
    ensures
        first == second,
{
}

/// Skipping the breakdown never changes the total: over the same
/// descriptors both modes count the same total.
pub proof fn lemma_total_same_in_both_modes(pid: Pid, entries: Seq<FdKind>)
    ensures
        tally_stats(pid, entries, QueryMode::TotalOnly).total_descriptors == tally_stats(
            pid,
            entries,
            QueryMode::Detailed,
        ).total_descriptors,
{
}

/// One more descriptor of another class, such as a pipe, raises the total
/// by one and leaves the socket and file counts as they were.
pub proof fn lemma_other_raises_total_only(pid: Pid, entries: Seq<FdKind>, mode: QueryMode)
    requires
        entries.len() < u32::MAX,
    ensures
        ({
            let before = tally_stats(pid, entries, mode);
            let after = tally_stats(pid, entries.push(FdKind::Other), mode);
            &&& after.total_descriptors == before.total_descriptors + 1
            &&& after.socket_descriptors == before.socket_descriptors
            &&& after.file_descriptors == before.file_descriptors
        }),
{
    entries.lemma_filter_push(FdKind::Other, of_kind(FdKind::Socket));
    entries.lemma_filter_push(FdKind::Other, of_kind(FdKind::File));
}

} // verus!
