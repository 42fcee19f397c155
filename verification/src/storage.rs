//! Storage usage statistics: the tally over a walk of the tool's data
//! directory. The walk itself is file-system input/output and the
//! embedding application's; every number reported is specified here.

use vstd::prelude::*;
use crate::models::StorageUsage;

verus! {

/// One entry of the directory walk, as plain values.
#[derive(Debug, Clone, Copy, PartialEq, Eq, Structural)]
pub struct WalkEntry {
    /// A file (as opposed to a directory).
    pub is_file: bool,
    /// The file's size in bytes (0 for directories).
    pub size: u64,
    /// A session log: a file with the session-log extension.
    pub is_session_log: bool,
    /// An immediate child of the projects directory.
    pub in_projects_dir: bool,
}

/// The total size of the files, unbounded.
pub open spec fn sum_sizes(s: Seq<WalkEntry>) -> nat
    decreases s.len(),
{
    if s.len() == 0 {
        0
    } else {
        sum_sizes(s.drop_last()) + if s.last().is_file {
            s.last().size as nat
        } else {
            0nat
        }
    }
}

/// How many entries are files.
pub open spec fn count_files(s: Seq<WalkEntry>) -> nat
    decreases s.len(),
{
    if s.len() == 0 {
        0
    } else {
        count_files(s.drop_last()) + if s.last().is_file {
            1nat
        } else {
            0nat
        }
    }
}

/// How many entries are session logs.
pub open spec fn count_session_logs(s: Seq<WalkEntry>) -> nat
    decreases s.len(),
{
    if s.len() == 0 {
        0
    } else {
        count_session_logs(s.drop_last()) + if s.last().is_file && s.last().is_session_log {
            1nat
        } else {
            0nat
        }
    }
}

/// How many entries are project directories.
pub open spec fn count_projects(s: Seq<WalkEntry>) -> nat
    decreases s.len(),
{
    if s.len() == 0 {
        0
    } else {
        count_projects(s.drop_last()) + if !s.last().is_file && s.last().in_projects_dir {
            1nat
        } else {
            0nat
        }
    }
}

/// Tally a walk of the data directory: total bytes of all files (saturated
/// at the counter's width), how many files, how many session logs, and how
/// many project directories.
#[verifier::loop_isolation(false)]
pub fn tally_storage(entries: &Vec<WalkEntry>) -> (r: StorageUsage)
    ensures
        r.total_size_bytes as nat == (if sum_sizes(entries@) <= u64::MAX {
            sum_sizes(entries@)
        } else {
            u64::MAX as nat
        }),
        r.total_files as nat == count_files(entries@),
        r.sessions_count as nat == count_session_logs(entries@),
        r.projects_count as nat == count_projects(entries@),
{
    let mut total_size: u64 = 0;
    let mut total_files: usize = 0;
    let mut sessions_count: usize = 0;
    let mut projects_count: usize = 0;
    let n = entries.len();
    for i in 0..n
        invariant
            n == entries@.len(),
            total_size as nat == (if sum_sizes(entries@.subrange(0, i as int)) <= u64::MAX {
                sum_sizes(entries@.subrange(0, i as int))
            } else {
                u64::MAX as nat
            }),
            total_files as nat == count_files(entries@.subrange(0, i as int)),
            sessions_count as nat == count_session_logs(entries@.subrange(0, i as int)),
            projects_count as nat == count_projects(entries@.subrange(0, i as int)),
            total_files <= i,
            sessions_count <= i,
            projects_count <= i,
    {
        proof {
            assert(entries@.subrange(0, i + 1).drop_last() =~= entries@.subrange(0, i as int));
            assert(entries@.subrange(0, i + 1).last() == entries@[i as int]);
        }
        let e = entries[i];
        if e.is_file {
            total_files = total_files + 1;
            total_size = if total_size <= u64::MAX - e.size {
                total_size + e.size
            } else {
                u64::MAX
            };
            if e.is_session_log {
                sessions_count = sessions_count + 1;
            }
        } else if e.in_projects_dir {
            projects_count = projects_count + 1;
        }
    }
    proof {
        assert(entries@.subrange(0, n as int) =~= entries@);
    }
    StorageUsage {
        total_size_bytes: total_size,
        total_files,
        projects_count,
        sessions_count,
    }
}

} // verus!
