//! The metrics accumulator of a sync session.
//!
//! Counters are updated as operations complete. File counters stop at the
//! largest `usize`, byte counters saturate at the largest `u64`, and the
//! number of processed files never falls below the sum of the per-kind
//! counters. Times are nanoseconds.

use vstd::prelude::*;
use crate::progress::{FileOperation, two_decimals, round_half_even};
use crate::tally::{tally_view, bumped, bumped_all, bump, bump_all, count_for, count_named, unique_names};
use crate::text::{concat_str, push_decimal, decimal};

verus! {

/// File counters.
#[derive(Debug, Clone, Copy, PartialEq, Eq, Structural)]
pub struct FileStats {
    pub scanned: usize,
    pub processed: usize,
    pub copied: usize,
    pub updated: usize,
    pub deleted: usize,
    pub skipped: usize,
    pub directories_created: usize,
    pub conflicts: usize,
    pub failed: usize,
}

impl Default for FileStats {
    fn default() -> (r: FileStats)
        ensures
            r == (FileStats {
                scanned: 0,
                processed: 0,
                copied: 0,
                updated: 0,
                deleted: 0,
                skipped: 0,
                directories_created: 0,
                conflicts: 0,
                failed: 0,
            }),
    {
        FileStats {
            scanned: 0,
            processed: 0,
            copied: 0,
            updated: 0,
            deleted: 0,
            skipped: 0,
            directories_created: 0,
            conflicts: 0,
            failed: 0,
        }
    }
}

/// The sum of the per-kind file counters.
pub open spec fn kinds_total(f: FileStats) -> int {
    f.copied + f.updated + f.deleted + f.skipped + f.directories_created + f.conflicts
}

/// Byte counters.
#[derive(Debug, Clone, Copy, PartialEq, Eq, Structural)]
pub struct TransferStats {
    pub bytes_scanned: u64,
    pub bytes_transferred: u64,
    pub bytes_copied: u64,
    pub bytes_updated: u64,
    pub largest_file_size: u64,
    pub smallest_file_size: u64,
    pub average_file_size: u64,
}

impl Default for TransferStats {
    fn default() -> (r: TransferStats)
        ensures
            r == (TransferStats {
                bytes_scanned: 0,
                bytes_transferred: 0,
                bytes_copied: 0,
                bytes_updated: 0,
                largest_file_size: 0,
                smallest_file_size: 0,
                average_file_size: 0,
            }),
    {
        TransferStats {
            bytes_scanned: 0,
            bytes_transferred: 0,
            bytes_copied: 0,
            bytes_updated: 0,
            largest_file_size: 0,
            smallest_file_size: 0,
            average_file_size: 0,
        }
    }
}

/// Timing and rates.
#[derive(Debug, Clone, Copy, PartialEq, Eq, Structural)]
pub struct PerformanceStats {
    /// Bytes transferred per second over the whole session.
    pub bytes_per_second: u64,
    /// Files processed per second over the whole session.
    pub files_per_second: u64,
    pub scan_time: u64,
    pub comparison_time: u64,
    pub transfer_time: u64,
}

/// Errors and warnings.
#[derive(Debug, Clone)]
pub struct ErrorStats {
    pub total_errors: usize,
    pub total_warnings: usize,
    /// Errors per kind name.
    pub errors_by_type: Vec<(String, u64)>,
    pub critical_errors: Vec<String>,
    pub recoverable_errors: Vec<String>,
}

impl ErrorStats {
    /// The number of errors recorded under a kind name.
    pub fn count_for(&self, error_type: &str) -> (r: Option<u64>)
        ensures
            r == count_named(tally_view(self.errors_by_type@), error_type@),
    {
        count_for(&self.errors_by_type, error_type)
    }
}

impl Default for ErrorStats {
    fn default() -> (r: ErrorStats)
        ensures
            r.total_errors == 0,
            r.total_warnings == 0,
            r.errors_by_type@.len() == 0,
            r.critical_errors@.len() == 0,
            r.recoverable_errors@.len() == 0,
    {
        ErrorStats {
            total_errors: 0,
            total_warnings: 0,
            errors_by_type: Vec::new(),
            critical_errors: Vec::new(),
            recoverable_errors: Vec::new(),
        }
    }
}

/// Per operation kind: count, time and bytes, by the kind's name.
#[derive(Debug, Clone)]
pub struct OperationStats {
    pub operation_times: Vec<(String, u64)>,
    pub operation_counts: Vec<(String, u64)>,
    pub operation_bytes: Vec<(String, u64)>,
}

impl Default for OperationStats {
    fn default() -> (r: OperationStats)
        ensures
            r.operation_times@.len() == 0,
            r.operation_counts@.len() == 0,
            r.operation_bytes@.len() == 0,
    {
        OperationStats { operation_times: Vec::new(), operation_counts: Vec::new(), operation_bytes: Vec::new() }
    }
}

/// Conflict outcomes.
#[derive(Debug, Clone)]
pub struct ConflictStats {
    pub total_conflicts: usize,
    pub auto_resolved: usize,
    pub manual_intervention: usize,
    /// Resolutions per strategy name.
    pub resolution_strategies: Vec<(String, u64)>,
}

impl Default for ConflictStats {
    fn default() -> (r: ConflictStats)
        ensures
            r.total_conflicts == 0,
            r.auto_resolved == 0,
            r.manual_intervention == 0,
            r.resolution_strategies@.len() == 0,
    {
        ConflictStats { total_conflicts: 0, auto_resolved: 0, manual_intervention: 0, resolution_strategies: Vec::new() }
    }
}

impl Default for PerformanceStats {
    fn default() -> (r: PerformanceStats)
        ensures
            r == (PerformanceStats {
                bytes_per_second: 0,
                files_per_second: 0,
                scan_time: 0,
                comparison_time: 0,
                transfer_time: 0,
            }),
    {
        PerformanceStats { bytes_per_second: 0, files_per_second: 0, scan_time: 0, comparison_time: 0, transfer_time: 0 }
    }
}

/// The metrics of one sync session.
#[derive(Debug, Clone)]
pub struct SyncMetrics {
    pub session_id: String,
    /// Start time, nanoseconds relative to the Unix epoch.
    pub start_time: i128,
    pub end_time: Option<i128>,
    /// Session length in nanoseconds.
    pub duration: u64,
    pub files: FileStats,
    pub transfer: TransferStats,
    pub performance: PerformanceStats,
    pub errors: ErrorStats,
    pub operations: OperationStats,
    pub conflicts: ConflictStats,
}

/// Relies on `uuid::Uuid::new_v4` rendered as text: a fresh random
/// identifier. Nothing is assumed about its value.
#[verifier::external_body]
fn new_session_id() -> (r: String) {
    uuid::Uuid::new_v4().to_string()
}

/// Relies on `std::time::SystemTime::now`: the current time in nanoseconds
/// relative to the Unix epoch. Nothing is assumed about its value.
#[verifier::external_body]
fn now_nanos() -> (r: i128) {
    match std::time::SystemTime::now().duration_since(std::time::UNIX_EPOCH) {
        Ok(d) => d.as_nanos() as i128,
        Err(e) => -(e.duration().as_nanos() as i128),
    }
}

fn sat_add(a: u64, b: u64) -> (r: u64)
    ensures
        r == sat(a + b),
{
    a.saturating_add(b)
}

/// `n` capped at the largest `u64`.
pub open spec fn sat(n: int) -> u64 {
    if n > u64::MAX { u64::MAX } else { n as u64 }
}

/// `n` capped at the largest `usize`.
pub open spec fn sat_usize(n: int) -> usize {
    if n > usize::MAX { usize::MAX } else { n as usize }
}

/// The per-kind counters after one operation of kind `op`.
pub open spec fn counted(f: FileStats, op: FileOperation) -> FileStats {
    match op {
        FileOperation::Copy => FileStats { processed: (f.processed + 1) as usize, copied: (f.copied + 1) as usize, ..f },
        FileOperation::Update => FileStats { processed: (f.processed + 1) as usize, updated: (f.updated + 1) as usize, ..f },
        FileOperation::Delete => FileStats { processed: (f.processed + 1) as usize, deleted: (f.deleted + 1) as usize, ..f },
        FileOperation::CreateDirectory => FileStats {
            processed: (f.processed + 1) as usize,
            directories_created: (f.directories_created + 1) as usize,
            ..f
        },
        FileOperation::Skip => FileStats { processed: (f.processed + 1) as usize, skipped: (f.skipped + 1) as usize, ..f },
        FileOperation::Conflict => FileStats {
            processed: (f.processed + 1) as usize,
            conflicts: (f.conflicts + 1) as usize,
            ..f
        },
    }
}

/// The byte counters after one operation of `size` bytes and kind `op`:
/// transferred bytes grow for every operation, copied and updated bytes
/// for their kinds, and the largest and smallest sizes track non-empty
/// files.
pub open spec fn recorded_transfer(t: TransferStats, op: FileOperation, size: u64) -> TransferStats {
    TransferStats {
        bytes_transferred: sat(t.bytes_transferred + size),
        bytes_copied: if op is Copy { sat(t.bytes_copied + size) } else { t.bytes_copied },
        bytes_updated: if op is Update { sat(t.bytes_updated + size) } else { t.bytes_updated },
        largest_file_size: if size > 0 && (t.largest_file_size == 0 || size > t.largest_file_size) {
            size
        } else {
            t.largest_file_size
        },
        smallest_file_size: if size > 0 && (t.smallest_file_size == 0 || size < t.smallest_file_size) {
            size
        } else {
            t.smallest_file_size
        },
        ..t
    }
}

/// The error lists and tallies of `a` and `b` are the same.
pub open spec fn same_errors(a: ErrorStats, b: ErrorStats) -> bool {
    &&& a.total_errors == b.total_errors
    &&& a.total_warnings == b.total_warnings
    &&& a.errors_by_type@ == b.errors_by_type@
    &&& a.critical_errors@ == b.critical_errors@
    &&& a.recoverable_errors@ == b.recoverable_errors@
}

/// The operation tallies of `a` and `b` are the same.
pub open spec fn same_operations(a: OperationStats, b: OperationStats) -> bool {
    &&& a.operation_counts@ == b.operation_counts@
    &&& a.operation_times@ == b.operation_times@
    &&& a.operation_bytes@ == b.operation_bytes@
}

/// The conflict counters of `a` and `b` are the same.
pub open spec fn same_conflicts(a: ConflictStats, b: ConflictStats) -> bool {
    &&& a.total_conflicts == b.total_conflicts
    &&& a.auto_resolved == b.auto_resolved
    &&& a.manual_intervention == b.manual_intervention
    &&& a.resolution_strategies@ == b.resolution_strategies@
}

impl SyncMetrics {
    /// The metrics are consistent: every counted operation was processed,
    /// and no name occurs twice in a tally.
    pub open spec fn wf(&self) -> bool {
        &&& self.files.processed >= kinds_total(self.files)
        &&& unique_names(tally_view(self.errors.errors_by_type@))
        &&& unique_names(tally_view(self.operations.operation_counts@))
        &&& unique_names(tally_view(self.operations.operation_times@))
        &&& unique_names(tally_view(self.operations.operation_bytes@))
        &&& unique_names(tally_view(self.conflicts.resolution_strategies@))
    }

    /// Fresh metrics with a new random session identifier, started now.
    pub fn new() -> (r: SyncMetrics)
        ensures
            r.wf(),
            r.end_time is None,
            r.duration == 0,
            r.files == FileStats::default_value(),
            r.transfer == TransferStats::default_value(),
            r.errors.total_errors == 0,
            r.errors.total_warnings == 0,
            r.errors.errors_by_type@.len() == 0,
            r.errors.critical_errors@.len() == 0,
            r.errors.recoverable_errors@.len() == 0,
            r.conflicts.total_conflicts == 0,
            r.conflicts.auto_resolved == 0,
            r.conflicts.manual_intervention == 0,
            r.conflicts.resolution_strategies@.len() == 0,
            r.operations.operation_counts@.len() == 0,
            r.operations.operation_times@.len() == 0,
            r.operations.operation_bytes@.len() == 0,
            r.performance == PerformanceStats::default_value(),
    {
        let id = new_session_id();
        let now = now_nanos();
        SyncMetrics::started_at(id, now)
    }

    /// Fresh metrics with the given identifier and start time.
    pub fn started_at(session_id: String, now: i128) -> (r: SyncMetrics)
        ensures
            r.wf(),
            r.session_id == session_id,
            r.start_time == now,
            r.end_time is None,
            r.duration == 0,
            r.files == FileStats::default_value(),
            r.transfer == TransferStats::default_value(),
            r.errors.total_errors == 0,
            r.errors.total_warnings == 0,
            r.errors.errors_by_type@.len() == 0,
            r.errors.critical_errors@.len() == 0,
            r.errors.recoverable_errors@.len() == 0,
            r.conflicts.total_conflicts == 0,
            r.conflicts.auto_resolved == 0,
            r.conflicts.manual_intervention == 0,
            r.conflicts.resolution_strategies@.len() == 0,
            r.operations.operation_counts@.len() == 0,
            r.operations.operation_times@.len() == 0,
            r.operations.operation_bytes@.len() == 0,
            r.performance == PerformanceStats::default_value(),
    {
        SyncMetrics {
            session_id,
            start_time: now,
            end_time: None,
            duration: 0,
            files: FileStats::default(),
            transfer: TransferStats::default(),
            performance: PerformanceStats {
                bytes_per_second: 0,
                files_per_second: 0,
                scan_time: 0,
                comparison_time: 0,
                transfer_time: 0,
            },
            errors: ErrorStats {
                total_errors: 0,
                total_warnings: 0,
                errors_by_type: Vec::new(),
                critical_errors: Vec::new(),
                recoverable_errors: Vec::new(),
            },
            operations: OperationStats {
                operation_times: Vec::new(),
                operation_counts: Vec::new(),
                operation_bytes: Vec::new(),
            },
            conflicts: ConflictStats {
                total_conflicts: 0,
                auto_resolved: 0,
                manual_intervention: 0,
                resolution_strategies: Vec::new(),
            },
        }
    }

    /// Restarts the clock now.
    pub fn start(&mut self)
        requires
            old(self).wf(),
        ensures
            final(self).wf(),
            final(self).files == old(self).files,
            final(self).transfer == old(self).transfer,
    {
        self.start_time = now_nanos();
    }

    /// Records one finished operation of `file_size` bytes that took
    /// `duration` nanoseconds. Once the processed counter has reached its
    /// largest value, file counters stay as they are.
    pub fn record_file_operation(&mut self, operation: FileOperation, file_size: u64, duration: u64)
        requires
            old(self).wf(),
        ensures
            final(self).wf(),
            old(self).files.processed < usize::MAX ==> final(self).files == counted(old(self).files, operation),
            old(self).files.processed == usize::MAX ==> final(self).files == old(self).files,
            final(self).transfer.bytes_transferred == sat(old(self).transfer.bytes_transferred + file_size),
            final(self).transfer.bytes_copied == if operation is Copy {
                sat(old(self).transfer.bytes_copied + file_size)
            } else {
                old(self).transfer.bytes_copied
            },
            final(self).transfer.bytes_updated == if operation is Update {
                sat(old(self).transfer.bytes_updated + file_size)
            } else {
                old(self).transfer.bytes_updated
            },
            final(self).transfer.largest_file_size == if file_size > 0 && (old(self).transfer.largest_file_size == 0
                || file_size > old(self).transfer.largest_file_size) {
                file_size
            } else {
                old(self).transfer.largest_file_size
            },
            final(self).transfer.smallest_file_size == if file_size > 0 && (old(self).transfer.smallest_file_size == 0
                || file_size < old(self).transfer.smallest_file_size) {
                file_size
            } else {
                old(self).transfer.smallest_file_size
            },
            final(self).conflicts.total_conflicts == if operation is Conflict {
                sat_usize(old(self).conflicts.total_conflicts + 1)
            } else {
                old(self).conflicts.total_conflicts
            },
            tally_view(final(self).operations.operation_counts@) == bumped(
                tally_view(old(self).operations.operation_counts@),
                crate::progress::operation_name(operation),
                1,
            ),
            tally_view(final(self).operations.operation_times@) == bumped(
                tally_view(old(self).operations.operation_times@),
                crate::progress::operation_name(operation),
                duration,
            ),
            tally_view(final(self).operations.operation_bytes@) == bumped(
                tally_view(old(self).operations.operation_bytes@),
                crate::progress::operation_name(operation),
                file_size,
            ),
            final(self).errors.total_errors == old(self).errors.total_errors,
            final(self).conflicts.auto_resolved == old(self).conflicts.auto_resolved,
            final(self).conflicts.manual_intervention == old(self).conflicts.manual_intervention,
            final(self).transfer == recorded_transfer(old(self).transfer, operation, file_size),
            same_errors(final(self).errors, old(self).errors),
            final(self).conflicts.resolution_strategies@ == old(self).conflicts.resolution_strategies@,
    {
        if self.files.processed < usize::MAX {
            self.files.processed = self.files.processed + 1;
            match operation {
                FileOperation::Copy => self.files.copied = self.files.copied + 1,
                FileOperation::Update => self.files.updated = self.files.updated + 1,
                FileOperation::Delete => self.files.deleted = self.files.deleted + 1,
                FileOperation::CreateDirectory => self.files.directories_created = self.files.directories_created + 1,
                FileOperation::Skip => self.files.skipped = self.files.skipped + 1,
                FileOperation::Conflict => self.files.conflicts = self.files.conflicts + 1,
            }
        }
        match operation {
            FileOperation::Copy => self.transfer.bytes_copied = sat_add(self.transfer.bytes_copied, file_size),
            FileOperation::Update => self.transfer.bytes_updated = sat_add(self.transfer.bytes_updated, file_size),
            FileOperation::Conflict => self.conflicts.total_conflicts = self.conflicts.total_conflicts.saturating_add(1),
            _ => {},
        }
        self.transfer.bytes_transferred = sat_add(self.transfer.bytes_transferred, file_size);
        if file_size > 0 {
            if self.transfer.largest_file_size == 0 || file_size > self.transfer.largest_file_size {
                self.transfer.largest_file_size = file_size;
            }
            if self.transfer.smallest_file_size == 0 || file_size < self.transfer.smallest_file_size {
                self.transfer.smallest_file_size = file_size;
            }
        }
        let name = operation.name();
        bump(&mut self.operations.operation_counts, name, 1);
        bump(&mut self.operations.operation_times, name, duration);
        bump(&mut self.operations.operation_bytes, name, file_size);
    }

    /// Records an error under a kind name; critical errors are listed apart
    /// from recoverable ones.
    pub fn record_error(&mut self, error_type: &str, message: &str, is_critical: bool)
        requires
            old(self).wf(),
        ensures
            final(self).wf(),
            final(self).files == old(self).files,
            final(self).errors.total_errors == sat_usize(old(self).errors.total_errors + 1),
            tally_view(final(self).errors.errors_by_type@) == bumped(
                tally_view(old(self).errors.errors_by_type@),
                error_type@,
                1,
            ),
            is_critical ==> final(self).errors.critical_errors@.map_values(|s: String| s@) == old(
                self,
            ).errors.critical_errors@.map_values(|s: String| s@).push(message@),
            is_critical ==> final(self).errors.recoverable_errors@ == old(self).errors.recoverable_errors@,
            !is_critical ==> final(self).errors.recoverable_errors@.map_values(|s: String| s@) == old(
                self,
            ).errors.recoverable_errors@.map_values(|s: String| s@).push(message@),
            !is_critical ==> final(self).errors.critical_errors@ == old(self).errors.critical_errors@,
            final(self).conflicts.auto_resolved == old(self).conflicts.auto_resolved,
            final(self).conflicts.manual_intervention == old(self).conflicts.manual_intervention,
            final(self).transfer == old(self).transfer,
            same_operations(final(self).operations, old(self).operations),
            same_conflicts(final(self).conflicts, old(self).conflicts),
            final(self).errors.total_warnings == old(self).errors.total_warnings,
    {
        self.errors.total_errors = self.errors.total_errors.saturating_add(1);
        bump(&mut self.errors.errors_by_type, error_type, 1);
        if is_critical {
            self.errors.critical_errors.push(message.to_owned());
            assert(self.errors.critical_errors@.map_values(|s: String| s@) =~= old(self).errors.critical_errors@.map_values(
                |s: String| s@,
            ).push(message@));
        } else {
            self.errors.recoverable_errors.push(message.to_owned());
            assert(self.errors.recoverable_errors@.map_values(|s: String| s@) =~= old(
                self,
            ).errors.recoverable_errors@.map_values(|s: String| s@).push(message@));
        }
    }

    /// Counts one failed operation.
    pub fn record_failure(&mut self)
        requires
            old(self).wf(),
        ensures
            final(self).wf(),
            final(self).files == (FileStats { failed: sat_usize(old(self).files.failed + 1), ..old(self).files }),
            same_errors(final(self).errors, old(self).errors),
            final(self).transfer == old(self).transfer,
            same_operations(final(self).operations, old(self).operations),
            same_conflicts(final(self).conflicts, old(self).conflicts),
    {
        self.files.failed = self.files.failed.saturating_add(1);
    }

    /// Counts one warning.
    pub fn record_warning(&mut self)
        requires
            old(self).wf(),
        ensures
            final(self).wf(),
            final(self).files == old(self).files,
            final(self).errors.total_warnings == sat_usize(old(self).errors.total_warnings + 1),
    {
        self.errors.total_warnings = self.errors.total_warnings.saturating_add(1);
    }

    /// Records how a conflict was resolved.
    pub fn record_conflict_resolution(&mut self, strategy: &str, auto_resolved: bool)
        requires
            old(self).wf(),
        ensures
            final(self).wf(),
            final(self).files == old(self).files,
            final(self).conflicts.auto_resolved == if auto_resolved {
                sat_usize(old(self).conflicts.auto_resolved + 1)
            } else {
                old(self).conflicts.auto_resolved
            },
            final(self).conflicts.manual_intervention == if auto_resolved {
                old(self).conflicts.manual_intervention
            } else {
                sat_usize(old(self).conflicts.manual_intervention + 1)
            },
            tally_view(final(self).conflicts.resolution_strategies@) == bumped(
                tally_view(old(self).conflicts.resolution_strategies@),
                strategy@,
                1,
            ),
            final(self).conflicts.total_conflicts == old(self).conflicts.total_conflicts,
            final(self).transfer == old(self).transfer,
            same_operations(final(self).operations, old(self).operations),
            same_errors(final(self).errors, old(self).errors),
    {
        if auto_resolved {
            self.conflicts.auto_resolved = self.conflicts.auto_resolved.saturating_add(1);
        } else {
            self.conflicts.manual_intervention = self.conflicts.manual_intervention.saturating_add(1);
        }
        bump(&mut self.conflicts.resolution_strategies, strategy, 1);
    }

    /// Records a scan that found `files_found` entries of `bytes_scanned`
    /// bytes in `duration` nanoseconds.
    pub fn record_scan(&mut self, files_found: usize, bytes_scanned: u64, duration: u64)
        requires
            old(self).wf(),
        ensures
            final(self).wf(),
            final(self).files == (FileStats { scanned: sat_usize(old(self).files.scanned + files_found), ..old(self).files }),
            final(self).transfer.bytes_scanned == sat(old(self).transfer.bytes_scanned + bytes_scanned),
            final(self).performance.scan_time == sat(old(self).performance.scan_time + duration),
    {
        self.files.scanned = self.files.scanned.saturating_add(files_found);
        self.transfer.bytes_scanned = sat_add(self.transfer.bytes_scanned, bytes_scanned);
        self.performance.scan_time = sat_add(self.performance.scan_time, duration);
    }

    /// Adds comparison time.
    pub fn record_comparison_time(&mut self, duration: u64)
        requires
            old(self).wf(),
        ensures
            final(self).wf(),
            final(self).files == old(self).files,
            final(self).performance.comparison_time == sat(old(self).performance.comparison_time + duration),
    {
        self.performance.comparison_time = sat_add(self.performance.comparison_time, duration);
    }

    /// Adds transfer time.
    pub fn record_transfer_time(&mut self, duration: u64)
        requires
            old(self).wf(),
        ensures
            final(self).wf(),
            final(self).files == old(self).files,
            final(self).performance.transfer_time == sat(old(self).performance.transfer_time + duration),
    {
        self.performance.transfer_time = sat_add(self.performance.transfer_time, duration);
    }

    /// Whether `after` is `before` ended at time `now`: the duration is the
    /// time since the start (zero if the clock went back), the rates are per
    /// second of that duration, the average size is per processed file, and
    /// nothing else changes.
    pub open spec fn completed_at(before: SyncMetrics, after: SyncMetrics, now: i128) -> bool {
        let d = elapsed(before.start_time, now);
        &&& after.end_time == Some(now)
        &&& after.duration == d
        &&& after.performance.bytes_per_second == per_second(before.transfer.bytes_transferred as nat, d as nat)
        &&& after.performance.files_per_second == per_second(before.files.processed as nat, d as nat)
        &&& after.transfer.average_file_size == if before.files.processed > 0 {
            (before.transfer.bytes_transferred / (before.files.processed as u64)) as u64
        } else {
            before.transfer.average_file_size
        }
        &&& after.files == before.files
        &&& after.session_id == before.session_id
        &&& after.start_time == before.start_time
        &&& after.transfer == TransferStats { average_file_size: after.transfer.average_file_size, ..before.transfer }
        &&& after.performance.scan_time == before.performance.scan_time
        &&& after.performance.comparison_time == before.performance.comparison_time
        &&& after.performance.transfer_time == before.performance.transfer_time
        &&& after.errors.total_errors == before.errors.total_errors
        &&& after.errors.total_warnings == before.errors.total_warnings
        &&& after.errors.errors_by_type@ == before.errors.errors_by_type@
        &&& after.errors.critical_errors@ == before.errors.critical_errors@
        &&& after.errors.recoverable_errors@ == before.errors.recoverable_errors@
        &&& after.conflicts.total_conflicts == before.conflicts.total_conflicts
        &&& after.conflicts.auto_resolved == before.conflicts.auto_resolved
        &&& after.conflicts.manual_intervention == before.conflicts.manual_intervention
    }

    /// Ends the session at time `now`.
    pub fn complete_at(&mut self, now: i128)
        requires
            old(self).wf(),
        ensures
            final(self).wf(),
            SyncMetrics::completed_at(*old(self), *final(self), now),
    {
        self.end_time = Some(now);
        let d: i128 = if now > self.start_time {
            match now.checked_sub(self.start_time) {
                Some(x) => x,
                None => i128::MAX,
            }
        } else {
            0
        };
        self.duration = if d > u64::MAX as i128 { u64::MAX } else { d as u64 };
        self.performance.bytes_per_second = per_second_exec(self.transfer.bytes_transferred, self.duration);
        self.performance.files_per_second = per_second_exec(self.files.processed as u64, self.duration);
        if self.files.processed > 0 {
            self.transfer.average_file_size = self.transfer.bytes_transferred / (self.files.processed as u64);
        }
    }

    /// Ends the session now: the metrics are those of `complete_at` at the
    /// time the clock gave.
    pub fn complete(&mut self)
        requires
            old(self).wf(),
        ensures
            final(self).wf(),
            exists|now: i128| #[trigger] SyncMetrics::completed_at(*old(self), *final(self), now),
            old(self).files.processed > 0 ==> final(self).transfer.average_file_size == old(
                self,
            ).transfer.bytes_transferred / (old(self).files.processed as u64),
    {
        let now = now_nanos();
        self.complete_at(now);
        assert(SyncMetrics::completed_at(*old(self), *self, now));
    }

    /// Whether no critical error was recorded and no file failed.
    pub fn is_successful(&self) -> (r: bool)
        ensures
            r == (self.errors.critical_errors@.len() == 0 && self.files.failed == 0),
    {
        self.errors.critical_errors.len() == 0 && self.files.failed == 0
    }

    /// The one-line summary:
    /// `Sync completed in {s}s: {n} files processed ({c} copied, {u} updated,
    /// {d} deleted), {b} bytes transferred at {r} MB/s`, seconds and MB/s
    /// with two decimals.
    pub fn summary(&self) -> (r: String)
        ensures
            r@ == summary_text(*self),
    {
        let mut s = "Sync completed in ".to_owned();
        push_two_decimals(&mut s, self.duration as u128, 1_000_000_000);
        s = concat_str(s.as_str(), "s: ");
        push_decimal(&mut s, self.files.processed as u64);
        s = concat_str(s.as_str(), " files processed (");
        push_decimal(&mut s, self.files.copied as u64);
        s = concat_str(s.as_str(), " copied, ");
        push_decimal(&mut s, self.files.updated as u64);
        s = concat_str(s.as_str(), " updated, ");
        push_decimal(&mut s, self.files.deleted as u64);
        s = concat_str(s.as_str(), " deleted), ");
        push_decimal(&mut s, self.transfer.bytes_transferred);
        s = concat_str(s.as_str(), " bytes transferred at ");
        push_two_decimals(&mut s, self.performance.bytes_per_second as u128, 1024 * 1024);
        s = concat_str(s.as_str(), " MB/s");
        proof {
            assert(s@ =~= summary_text(*self));
        }
        s
    }

    /// Adds another session's counters to these.
    pub fn merge(&mut self, other: &SyncMetrics)
        requires
            old(self).wf(),
            other.wf(),
            old(self).files.processed + other.files.processed <= usize::MAX,
        ensures
            final(self).wf(),
            final(self).files == (FileStats {
                scanned: sat_usize(old(self).files.scanned + other.files.scanned),
                processed: (old(self).files.processed + other.files.processed) as usize,
                copied: (old(self).files.copied + other.files.copied) as usize,
                updated: (old(self).files.updated + other.files.updated) as usize,
                deleted: (old(self).files.deleted + other.files.deleted) as usize,
                skipped: (old(self).files.skipped + other.files.skipped) as usize,
                directories_created: (old(self).files.directories_created + other.files.directories_created) as usize,
                conflicts: (old(self).files.conflicts + other.files.conflicts) as usize,
                failed: sat_usize(old(self).files.failed + other.files.failed),
            }),
            final(self).transfer.bytes_transferred == sat(old(self).transfer.bytes_transferred + other.transfer.bytes_transferred),
            final(self).transfer.bytes_copied == sat(old(self).transfer.bytes_copied + other.transfer.bytes_copied),
            final(self).transfer.bytes_updated == sat(old(self).transfer.bytes_updated + other.transfer.bytes_updated),
            final(self).transfer.largest_file_size == if old(self).transfer.largest_file_size >= other.transfer.largest_file_size {
                old(self).transfer.largest_file_size
            } else {
                other.transfer.largest_file_size
            },
            final(self).transfer.smallest_file_size == if old(self).transfer.smallest_file_size == 0 {
                other.transfer.smallest_file_size
            } else if other.transfer.smallest_file_size > 0 && other.transfer.smallest_file_size < old(self).transfer.smallest_file_size {
                other.transfer.smallest_file_size
            } else {
                old(self).transfer.smallest_file_size
            },
            final(self).errors.total_errors == sat_usize(old(self).errors.total_errors + other.errors.total_errors),
            final(self).errors.critical_errors@ == old(self).errors.critical_errors@ + other.errors.critical_errors@,
            final(self).errors.recoverable_errors@ == old(self).errors.recoverable_errors@ + other.errors.recoverable_errors@,
            tally_view(final(self).errors.errors_by_type@) == bumped_all(
                tally_view(old(self).errors.errors_by_type@),
                tally_view(other.errors.errors_by_type@),
            ),
            tally_view(final(self).conflicts.resolution_strategies@) == bumped_all(
                tally_view(old(self).conflicts.resolution_strategies@),
                tally_view(other.conflicts.resolution_strategies@),
            ),
            final(self).conflicts.total_conflicts == sat_usize(old(self).conflicts.total_conflicts + other.conflicts.total_conflicts),
            final(self).conflicts.auto_resolved == sat_usize(old(self).conflicts.auto_resolved + other.conflicts.auto_resolved),
            final(self).conflicts.manual_intervention == sat_usize(
                old(self).conflicts.manual_intervention + other.conflicts.manual_intervention,
            ),
            final(self).transfer.bytes_scanned == sat(old(self).transfer.bytes_scanned + other.transfer.bytes_scanned),
            final(self).performance.scan_time == sat(old(self).performance.scan_time + other.performance.scan_time),
            final(self).performance.comparison_time == sat(
                old(self).performance.comparison_time + other.performance.comparison_time,
            ),
            final(self).performance.transfer_time == sat(
                old(self).performance.transfer_time + other.performance.transfer_time,
            ),
            final(self).errors.total_warnings == sat_usize(old(self).errors.total_warnings + other.errors.total_warnings),
            final(self).duration == old(self).duration,
            final(self).performance.bytes_per_second == if old(self).duration > 0 {
                per_second(final(self).transfer.bytes_transferred as nat, old(self).duration as nat)
            } else {
                old(self).performance.bytes_per_second
            },
            final(self).performance.files_per_second == if old(self).duration > 0 {
                per_second(final(self).files.processed as nat, old(self).duration as nat)
            } else {
                old(self).performance.files_per_second
            },
            final(self).transfer.average_file_size == if final(self).files.processed > 0 {
                (final(self).transfer.bytes_transferred / (final(self).files.processed as u64)) as u64
            } else {
                old(self).transfer.average_file_size
            },
    {
        let o = &other.files;
        self.files.scanned = self.files.scanned.saturating_add(o.scanned);
        self.files.processed = self.files.processed + o.processed;
        self.files.copied = self.files.copied + o.copied;
        self.files.updated = self.files.updated + o.updated;
        self.files.deleted = self.files.deleted + o.deleted;
        self.files.skipped = self.files.skipped + o.skipped;
        self.files.directories_created = self.files.directories_created + o.directories_created;
        self.files.conflicts = self.files.conflicts + o.conflicts;
        self.files.failed = self.files.failed.saturating_add(o.failed);
        let t = &other.transfer;
        self.transfer.bytes_scanned = sat_add(self.transfer.bytes_scanned, t.bytes_scanned);
        self.transfer.bytes_transferred = sat_add(self.transfer.bytes_transferred, t.bytes_transferred);
        self.transfer.bytes_copied = sat_add(self.transfer.bytes_copied, t.bytes_copied);
        self.transfer.bytes_updated = sat_add(self.transfer.bytes_updated, t.bytes_updated);
        if t.largest_file_size > self.transfer.largest_file_size {
            self.transfer.largest_file_size = t.largest_file_size;
        }
        if self.transfer.smallest_file_size == 0 {
            self.transfer.smallest_file_size = t.smallest_file_size;
        } else if t.smallest_file_size > 0 && t.smallest_file_size < self.transfer.smallest_file_size {
            self.transfer.smallest_file_size = t.smallest_file_size;
        }
        self.performance.scan_time = sat_add(self.performance.scan_time, other.performance.scan_time);
        self.performance.comparison_time = sat_add(self.performance.comparison_time, other.performance.comparison_time);
        self.performance.transfer_time = sat_add(self.performance.transfer_time, other.performance.transfer_time);
        self.errors.total_errors = self.errors.total_errors.saturating_add(other.errors.total_errors);
        self.errors.total_warnings = self.errors.total_warnings.saturating_add(other.errors.total_warnings);
        bump_all(&mut self.errors.errors_by_type, &other.errors.errors_by_type);
        append_strings(&mut self.errors.critical_errors, &other.errors.critical_errors);
        append_strings(&mut self.errors.recoverable_errors, &other.errors.recoverable_errors);
        self.conflicts.total_conflicts = self.conflicts.total_conflicts.saturating_add(other.conflicts.total_conflicts);
        self.conflicts.auto_resolved = self.conflicts.auto_resolved.saturating_add(other.conflicts.auto_resolved);
        self.conflicts.manual_intervention = self.conflicts.manual_intervention.saturating_add(
            other.conflicts.manual_intervention,
        );
        bump_all(&mut self.conflicts.resolution_strategies, &other.conflicts.resolution_strategies);
        if self.duration > 0 {
            self.performance.bytes_per_second = per_second_exec(self.transfer.bytes_transferred, self.duration);
            self.performance.files_per_second = per_second_exec(self.files.processed as u64, self.duration);
        }
        if self.files.processed > 0 {
            self.transfer.average_file_size = self.transfer.bytes_transferred / (self.files.processed as u64);
        }
    }
}

fn append_strings(a: &mut Vec<String>, b: &Vec<String>)
    ensures
        final(a)@ == old(a)@ + b@,
{
    let mut i: usize = 0;
    while i < b.len()
        invariant
            i <= b@.len(),
            a@ == old(a)@ + b@.subrange(0, i as int),
        decreases b@.len() - i,
    {
        a.push(b[i].clone());
        i = i + 1;
        assert(a@ =~= old(a)@ + b@.subrange(0, i as int));
    }
    assert(b@.subrange(0, b@.len() as int) =~= b@);
}

/// The nanoseconds from `start` to `now`, zero if negative, capped.
pub open spec fn elapsed(start: i128, now: i128) -> u64 {
    if now > start { sat(now - start) } else { 0 }
}

/// A count per second over `nanos` nanoseconds, rounded down; zero over no
/// time.
pub open spec fn per_second(n: nat, nanos: nat) -> u64 {
    if nanos == 0 { 0 } else { sat((n * 1_000_000_000 / nanos) as int) }
}

fn per_second_exec(n: u64, nanos: u64) -> (r: u64)
    ensures
        r == per_second(n as nat, nanos as nat),
{
    if nanos == 0 {
        return 0;
    }
    let scaled: u128 = n as u128 * 1_000_000_000;
    let q: u128 = scaled / (nanos as u128);
    if q > u64::MAX as u128 { u64::MAX } else { q as u64 }
}

/// `n / d` with two decimals, rounded half to even.
pub open spec fn ratio_text(n: nat, d: nat) -> Seq<char> {
    two_decimals(round_half_even(n * 100, d))
}

fn push_two_decimals(s: &mut String, n: u128, d: u128)
    requires
        d > 0,
        n <= u64::MAX,
        d >= 1024,
    ensures
        final(s)@ == old(s)@ + ratio_text(n as nat, d as nat),
{
    let scaled: u128 = n * 100;
    let q: u128 = scaled / d;
    let rem: u128 = scaled % d;
    proof {
        vstd::arithmetic::div_mod::lemma_fundamental_div_mod(scaled as int, d as int);
        assert(q * 1024 <= scaled) by (nonlinear_arith)
            requires
                scaled == d * q + rem,
                rem >= 0,
                d >= 1024,
                q >= 0,
        ;
    }
    let h: u128 = if 2 * rem > d || (2 * rem == d && q % 2 == 1) { q + 1 } else { q };
    assert(h == round_half_even(n as nat * 100, d as nat));
    let hs: u64 = h as u64;
    push_decimal(s, hs / 100);
    crate::text::push_char(s, '.');
    crate::text::push_char(s, crate::text::digit_of((hs % 100) / 10));
    crate::text::push_char(s, crate::text::digit_of(hs % 10));
    assert(final(s)@ =~= old(s)@ + ratio_text(n as nat, d as nat));
}

/// The summary line of a session.
pub open spec fn summary_text(m: SyncMetrics) -> Seq<char> {
    "Sync completed in "@ + ratio_text(m.duration as nat, 1_000_000_000) + "s: "@ + decimal(m.files.processed as nat)
        + " files processed ("@ + decimal(m.files.copied as nat) + " copied, "@ + decimal(m.files.updated as nat)
        + " updated, "@ + decimal(m.files.deleted as nat) + " deleted), "@ + decimal(m.transfer.bytes_transferred as nat)
        + " bytes transferred at "@ + ratio_text(m.performance.bytes_per_second as nat, 1024 * 1024) + " MB/s"@
}

impl FileStats {
    /// All counters zero.
    pub open spec fn default_value() -> FileStats {
        FileStats {
            scanned: 0,
            processed: 0,
            copied: 0,
            updated: 0,
            deleted: 0,
            skipped: 0,
            directories_created: 0,
            conflicts: 0,
            failed: 0,
        }
    }
}

impl PerformanceStats {
    /// All rates and times zero.
    pub open spec fn default_value() -> PerformanceStats {
        PerformanceStats { bytes_per_second: 0, files_per_second: 0, scan_time: 0, comparison_time: 0, transfer_time: 0 }
    }
}

impl TransferStats {
    /// All counters zero.
    pub open spec fn default_value() -> TransferStats {
        TransferStats {
            bytes_scanned: 0,
            bytes_transferred: 0,
            bytes_copied: 0,
            bytes_updated: 0,
            largest_file_size: 0,
            smallest_file_size: 0,
            average_file_size: 0,
        }
    }
}

/// Consistent metrics, in particular metrics after `complete`, count at
/// least as many processed files as copies, updates, deletions, skips,
/// directory creations and conflicts together.
pub proof fn lemma_processed_covers_kinds(m: SyncMetrics)
    requires
        m.wf(),
    ensures
        m.files.processed >= m.files.copied + m.files.updated + m.files.deleted + m.files.skipped
            + m.files.directories_created + m.files.conflicts,
{
}

} // verus!
