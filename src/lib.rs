//! A two-endpoint file synchronization engine.
//!
//! The library turns two directory enumerations into a plan of file
//! operations, resolves conflicts by policy, and decides how each operation
//! is carried out and counted. Walking directories and touching files is left
//! to the caller; everything here is plain data and decisions.

pub mod text;
pub mod error;
pub mod digest;
pub mod glob;
pub mod filter;
pub mod progress;
pub mod scanner;
pub mod comparator;
pub mod diff;
pub mod conflict;
pub mod tally;
pub mod metrics;
pub mod preservation;
pub mod engine;

pub use scanner::{DirectoryScanner, ScanOptions, FileEntry, HashAlgorithm};
pub use comparator::{FileComparator, ComparisonMethod, ComparisonResult, FileProbe};
pub use diff::{generate_diff, DiffEngine, SyncAction, SyncPlan, PlanSummary, ActionFilter, ConflictType, FileInfo};
pub use conflict::{ConflictResolver, ConflictStrategy, ConflictResolution, ConflictPreset};
pub use filter::{FileFilter, FilterOptions};
pub use engine::{SyncEngine, SyncOptions, FsStep, ActionWork, Control, SyncState, SyncEvent};
pub use progress::{FileOperation, ProgressSnapshot, format_bytes, format_bytes_per_second};
pub use metrics::{SyncMetrics, FileStats, TransferStats, ErrorStats, OperationStats, ConflictStats, PerformanceStats};
pub use preservation::{AttributePreserver, PermissionPreserver, PreservationOptions, FileAttributes, RawMetadata, AttributeChanges};
pub use error::SyncError;
