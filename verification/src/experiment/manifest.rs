//! The parts of an experiment run's manifest that are plain values: the run
//! status, the git information read from `git`'s output, the data and output
//! file descriptions.

use vstd::prelude::*;
use crate::text::{owned, trim, trimmed};

verus! {

#[verifier::external_type_specification]
#[verifier::external_body]
pub struct ExPathBuf(std::path::PathBuf);

/// Run status.
#[derive(Debug, Clone, Copy, PartialEq, Eq, Structural)]
pub enum RunStatus {
    Running,
    Completed,
    Failed,
    Cancelled,
}

impl RunStatus {
    /// Get human-readable status text.
    pub fn text(&self) -> (r: &'static str)
        ensures
            r@ == (match self {
                RunStatus::Running => "running"@,
                RunStatus::Completed => "completed"@,
                RunStatus::Failed => "failed"@,
                RunStatus::Cancelled => "cancelled"@,
            }),
    {
        match self {
            RunStatus::Running => "running",
            RunStatus::Completed => "completed",
            RunStatus::Failed => "failed",
            RunStatus::Cancelled => "cancelled",
        }
    }
}

/// Git repository information.
#[derive(Debug)]
pub struct GitInfo {
    /// Current commit hash
    pub commit_hash: String,
    /// Current branch name
    pub branch: String,
    /// Whether there are uncommitted changes
    pub dirty: bool,
    /// Remote URL (if available)
    pub remote: Option<String>,
}

/// A command's output without surrounding whitespace, or "unknown" when there was none.
pub open spec fn output_or_unknown(out: Option<String>) -> Seq<char> {
    match out {
        Some(s) => trimmed(s@),
        None => "unknown"@,
    }
}

fn trimmed_or_unknown(out: &Option<String>) -> (r: String)
    ensures
        r@ == output_or_unknown(*out),
{
    match out {
        Some(s) => trim(s.as_str()),
        None => owned("unknown"),
    }
}

impl GitInfo {
    /// Builds the git information from the standard output of `git rev-parse HEAD`,
    /// `git rev-parse --abbrev-ref HEAD`, `git status --porcelain` and
    /// `git remote get-url origin` (`None` where a command could not be run or
    /// its output was not UTF-8).
    pub fn from_command_outputs(
        commit_out: Option<String>,
        branch_out: Option<String>,
        status_out: Option<String>,
        remote_out: Option<String>,
    ) -> (r: GitInfo)
        ensures
            r.commit_hash@ == output_or_unknown(commit_out),
            r.branch@ == output_or_unknown(branch_out),
            r.dirty == (match status_out { Some(s) => trimmed(s@).len() > 0, None => false }),
            r.remote is Some == remote_out is Some,
            r.remote matches Some(x) ==> x@ == trimmed(remote_out->Some_0@),
    {
        let commit_hash = trimmed_or_unknown(&commit_out);
        let branch = trimmed_or_unknown(&branch_out);
        let dirty = match &status_out {
            Some(s) => trim(s.as_str()).unicode_len() > 0,
            None => false,
        };
        let remote = match &remote_out {
            Some(s) => Some(trim(s.as_str())),
            None => None,
        };
        GitInfo { commit_hash, branch, dirty, remote }
    }
}

/// Data source information for reproducibility.
#[derive(Debug)]
pub struct DataInfo {
    /// Symbols used
    pub symbols: Vec<String>,
    /// Total candles per symbol
    pub candles_per_symbol: std::collections::HashMap<String, usize>,
    /// Date range
    pub date_range: Option<(String, String)>,
    /// Data checksums (for cache validation)
    pub checksums: std::collections::HashMap<String, String>,
}

impl Default for DataInfo {
    fn default() -> (r: Self)
        ensures
            r.symbols@.len() == 0,
            r.candles_per_symbol@.len() == 0,
            r.date_range is None,
            r.checksums@.len() == 0,
    {
        DataInfo {
            symbols: Vec::new(),
            candles_per_symbol: std::collections::HashMap::new(),
            date_range: None,
            checksums: std::collections::HashMap::new(),
        }
    }
}

/// Types of output files.
#[derive(Debug, Clone, Copy, PartialEq, Eq, Structural)]
pub enum OutputFileType {
    Manifest,
    EquityCurve,
    TradeLog,
    Metrics,
    Plot,
    ModelSnapshot,
    Custom,
}

/// Output file generated by the experiment.
#[derive(Debug)]
pub struct OutputFile {
    /// File type
    pub file_type: OutputFileType,
    /// Relative path from experiment output directory
    pub path: std::path::PathBuf,
    /// File size in bytes
    pub size_bytes: u64,
    /// Description
    pub description: String,
}

} // verus!
