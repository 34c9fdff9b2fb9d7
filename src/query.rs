//! One query as the command line states it: check the pid, then run the
//! census that the flags ask for.
use crate::fds::FdList;
use crate::linux::is_census_error;
use crate::outcome::{pid_in_range, FshcError, FshcResult, Pid, ProcStats, QueryMode, PID_LIMIT};
use vstd::prelude::*;

verus! {

/// The arguments of a query.
#[derive(Clone, Copy, Debug)]
pub struct CliArgs {
    /// Count the descriptors in total only.
    pub only_total: bool,
    /// The process to inspect.
    pub pid: u32,
}

impl CliArgs {
    /// The census mode that the arguments ask for.
    pub open spec fn mode(self) -> QueryMode {
        if self.only_total {
            QueryMode::TotalOnly
        } else {
            QueryMode::Detailed
        }
    }
}

/// The pid of the arguments, if it lies in `1..=PID_LIMIT`.
pub fn validate_pid(args: &CliArgs) -> (r: Result<Pid, FshcError>)
    ensures
        pid_in_range(args.pid) ==> r == Ok::<Pid, FshcError>(args.pid),
        !pid_in_range(args.pid) ==> r == Err::<Pid, FshcError>(FshcError::PidOutOfRange),
{
    if 1 <= args.pid && args.pid <= PID_LIMIT {
        Ok(args.pid)
    } else {
        Err(FshcError::PidOutOfRange)
    }
}

/// Runs the query that the arguments describe.
pub fn run(args: &CliArgs) -> (r: FshcResult)
    ensures
        !pid_in_range(args.pid) ==> r == Err::<ProcStats, FshcError>(FshcError::PidOutOfRange),
        pid_in_range(args.pid) ==> (r matches Err(e) ==> is_census_error(e)),
        r matches Ok(s) ==> s.pid == args.pid && s.wf() && s.has_shape(args.mode()),
{
    let pid = match validate_pid(args) {
        Ok(p) => p,
        Err(e) => return Err(e),
    };
    if args.only_total {
        FdList::list_total(pid)
    } else {
        FdList::list_by_type(pid)
    }
}

} // verus!
