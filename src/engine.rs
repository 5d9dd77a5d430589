//! The sync engine: configuration, plan preparation and the executor's
//! decisions.
//!
//! The application scans both trees, performs filesystem work and runs the
//! actions with bounded concurrency. The engine decides everything in
//! between: which plan to run, what filesystem work each action needs
//! (none at all in a dry run), how each outcome is counted, and whether the
//! run goes on after a failure. A conflict resolved by backing a file up
//! carries the move to the backup path as the first step of its work.

use vstd::prelude::*;
use crate::comparator::{ComparisonMethod, FileComparator};
use crate::conflict::{
    ConflictResolver, ConflictStrategy, ConflictResolution, ResolutionView, join_path, join_path_exec, resolution_for,
    resolution_action, utc_stamp,
};
use crate::diff::{
    ActionView, DiffEngine, SyncAction, SyncPlan, planned, plan_possible, path_of, views, in_execution_order,
    summary_of, size_of, rank_class,
};
use crate::error::SyncError;
use crate::filter::{FileFilter, FilterOptions, ClauseView, all_admit_path, copy_options};
use crate::metrics::{SyncMetrics, FileStats, counted, recorded_transfer, same_errors, same_operations, same_conflicts};
use crate::tally::{tally_view, bumped};
use crate::progress::operation_name;
use crate::conflict::strategy_name;
use crate::error::error_text;
use crate::preservation::{AttributePreserver, PreservationOptions};
use crate::progress::FileOperation;
use crate::scanner::{DirectoryScanner, FileEntry, ScanOptions, HashAlgorithm, filter_compiles};

verus! {

/// Options of a sync run.
#[derive(Debug, Clone)]
pub struct SyncOptions {
    pub scan_options: ScanOptions,
    pub comparison_method: ComparisonMethod,
    pub conflict_strategy: ConflictStrategy,
    /// Filter applied to the plan's actions.
    pub filter_options: Option<FilterOptions>,
    pub preservation_options: PreservationOptions,
    /// Perform no filesystem mutation.
    pub dry_run: bool,
    /// Delete destination entries that the source lacks.
    pub delete_extra: bool,
    /// Where conflict backups go.
    pub backup_directory: Option<String>,
    /// Upper bound on actions in flight.
    pub max_concurrency: usize,
    /// Block size for file reads.
    pub buffer_size: usize,
    /// Record failed actions and go on, rather than stop.
    pub continue_on_error: bool,
}

impl Default for SyncOptions {
    fn default() -> (r: SyncOptions)
        ensures
            r.comparison_method == ComparisonMethod::SizeAndTimestamp,
            r.conflict_strategy == ConflictStrategy::Manual,
            r.filter_options is None,
            !r.dry_run,
            r.delete_extra,
            r.backup_directory is None,
            r.max_concurrency == 4,
            r.buffer_size == 65536,
            !r.continue_on_error,
    {
        SyncOptions {
            scan_options: ScanOptions::default(),
            comparison_method: ComparisonMethod::default(),
            conflict_strategy: ConflictStrategy::default(),
            filter_options: None,
            preservation_options: PreservationOptions::default(),
            dry_run: false,
            delete_extra: true,
            backup_directory: None,
            max_concurrency: 4,
            buffer_size: 64 * 1024,
            continue_on_error: false,
        }
    }
}

/// Whether a method compares contents, so that scans must carry digests.
pub open spec fn compares_contents(m: ComparisonMethod) -> bool {
    m is Sha256 || m is Blake3 || m is ByteByByte || m is Comprehensive
}

/// The digest algorithm scans use for a content method.
pub open spec fn digest_for(m: ComparisonMethod) -> HashAlgorithm {
    if m is Sha256 { HashAlgorithm::Sha256 } else { HashAlgorithm::Blake3 }
}

/// One piece of filesystem work.
#[derive(Debug, Clone, PartialEq)]
pub enum FsStep {
    /// Create the destination's parent directories, then copy the file.
    CopyFile { source: String, destination: String },
    /// Remove a file, or a directory with its contents.
    RemoveEntry { path: String },
    /// Create a directory and its ancestors.
    MakeDirectory { path: String },
    /// Move an entry to a backup path. A failure is recoverable when the
    /// move is not `required`.
    MoveAside { from: String, to: String, required: bool },
}

/// An `FsStep` with its paths seen as character sequences.
pub enum StepView {
    CopyFile { source: Seq<char>, destination: Seq<char> },
    RemoveEntry { path: Seq<char> },
    MakeDirectory { path: Seq<char> },
    MoveAside { from: Seq<char>, to: Seq<char>, required: bool },
}

impl View for FsStep {
    type V = StepView;

    open spec fn view(&self) -> StepView {
        match self {
            FsStep::CopyFile { source, destination } => StepView::CopyFile { source: source@, destination: destination@ },
            FsStep::RemoveEntry { path } => StepView::RemoveEntry { path: path@ },
            FsStep::MakeDirectory { path } => StepView::MakeDirectory { path: path@ },
            FsStep::MoveAside { from, to, required } => StepView::MoveAside { from: from@, to: to@, required: *required },
        }
    }
}

/// The work one action needs.
#[derive(Debug, Clone)]
pub struct ActionWork {
    /// How the outcome is counted.
    pub operation: FileOperation,
    /// Filesystem work, in order.
    pub steps: Vec<FsStep>,
    /// Whether copied files get their attributes carried over.
    pub preserve_attributes: bool,
    /// Whether a person must resolve the conflict.
    pub manual: bool,
}

/// The work of an action, seen as values.
pub struct WorkView {
    pub operation: FileOperation,
    pub steps: Seq<StepView>,
    pub preserve_attributes: bool,
    pub manual: bool,
}

impl ActionWork {
    pub open spec fn view_of(&self) -> WorkView {
        WorkView {
            operation: self.operation,
            steps: self.steps@.map_values(|s: FsStep| s@),
            preserve_attributes: self.preserve_attributes,
            manual: self.manual,
        }
    }
}

/// The work for a plain (non-conflict) action, before dry-run is applied.
pub open spec fn plain_work(a: ActionView, src_root: Seq<char>, dst_root: Seq<char>, preserve: bool) -> WorkView {
    match a {
        ActionView::Copy { source, destination, .. } => WorkView {
            operation: FileOperation::Copy,
            steps: seq![StepView::CopyFile { source: join_path(src_root, source), destination: join_path(dst_root, destination) }],
            preserve_attributes: preserve,
            manual: false,
        },
        ActionView::Update { source, destination, .. } => WorkView {
            operation: FileOperation::Update,
            steps: seq![StepView::CopyFile { source: join_path(src_root, source), destination: join_path(dst_root, destination) }],
            preserve_attributes: preserve,
            manual: false,
        },
        ActionView::Delete { path } => WorkView {
            operation: FileOperation::Delete,
            steps: seq![StepView::RemoveEntry { path: join_path(dst_root, path) }],
            preserve_attributes: false,
            manual: false,
        },
        ActionView::CreateDirectory { path } => WorkView {
            operation: FileOperation::CreateDirectory,
            steps: seq![StepView::MakeDirectory { path: join_path(dst_root, path) }],
            preserve_attributes: false,
            manual: false,
        },
        _ => WorkView { operation: FileOperation::Skip, steps: Seq::empty(), preserve_attributes: false, manual: false },
    }
}

/// The backup move a resolution asks for, if any.
pub open spec fn backup_steps(res: ResolutionView, source: Seq<char>, destination: Seq<char>, src_root: Seq<char>, dst_root: Seq<char>) -> Seq<StepView> {
    match res {
        ResolutionView::BackupAndUseSource { backup_path } => seq![
            StepView::MoveAside { from: join_path(dst_root, destination), to: backup_path, required: true },
        ],
        ResolutionView::BackupAndKeepDestination { backup_path } => seq![
            StepView::MoveAside { from: join_path(src_root, source), to: backup_path, required: false },
        ],
        _ => Seq::empty(),
    }
}

/// The work an action needs, or the error it fails with, before dry-run is
/// applied. A conflict is resolved once and the resolution's action is
/// carried out in its place, after any backup move; a conflict left to a
/// person needs no work.
pub open spec fn action_work(
    a: ActionView,
    strategy_of: spec_fn(crate::diff::ConflictType) -> ConflictStrategy,
    backup_dir: Option<Seq<char>>,
    stamp: Seq<char>,
    src_root: Seq<char>,
    dst_root: Seq<char>,
    preserve: bool,
) -> Option<WorkView> {
    match a {
        ActionView::Conflict { source, destination, conflict_type, source_info, destination_info } => {
            match resolution_for(strategy_of(conflict_type), source, destination, conflict_type, source_info, destination_info, backup_dir, stamp) {
                None => None,
                Some(res) => match resolution_action(res, source, destination, source_info) {
                    Err(_) => None,
                    Ok(None) => Some(WorkView { operation: FileOperation::Conflict, steps: Seq::empty(), preserve_attributes: false, manual: true }),
                    Ok(Some(b)) => {
                        let w = plain_work(b, src_root, dst_root, preserve);
                        Some(WorkView { steps: backup_steps(res, source, destination, src_root, dst_root) + w.steps, ..w })
                    },
                },
            }
        },
        _ => Some(plain_work(a, src_root, dst_root, preserve)),
    }
}

/// `w` as a dry run performs it: the same outcome, no filesystem work.
pub open spec fn dry(w: WorkView, dry_run: bool) -> WorkView {
    if dry_run { WorkView { steps: Seq::empty(), preserve_attributes: false, ..w } } else { w }
}

/// Whether the run goes on after an action's outcome.
#[derive(Debug, Clone, PartialEq)]
pub enum Control {
    /// Dispatch the next action.
    Continue,
    /// Stop dispatching, let in-flight actions finish, and fail with this
    /// error.
    Abort(SyncError),
}

/// The phases of one sync run.
#[derive(Debug, Clone, Copy, PartialEq, Eq, Structural)]
pub enum SyncState {
    Idle,
    Scanning,
    Planning,
    Executing,
    Complete,
    Failed,
    Aborted,
}

/// What moves a run from one phase to the next.
#[derive(Debug, Clone, Copy, PartialEq, Eq, Structural)]
pub enum SyncEvent {
    /// The run begins.
    Started,
    /// Both trees were scanned.
    Scanned,
    /// A plan was made.
    Planned,
    /// Scanning or planning failed.
    SetupFailed,
    /// An action failed under the fail-fast policy.
    ActionAborted,
    /// Every action has finished.
    Drained,
}

/// The phase after an event; events that do not apply leave the phase.
pub open spec fn next_state(s: SyncState, e: SyncEvent) -> SyncState {
    match (s, e) {
        (SyncState::Idle, SyncEvent::Started) => SyncState::Scanning,
        (SyncState::Scanning, SyncEvent::Scanned) => SyncState::Planning,
        (SyncState::Scanning, SyncEvent::SetupFailed) => SyncState::Failed,
        (SyncState::Planning, SyncEvent::Planned) => SyncState::Executing,
        (SyncState::Planning, SyncEvent::SetupFailed) => SyncState::Failed,
        (SyncState::Executing, SyncEvent::ActionAborted) => SyncState::Aborted,
        (SyncState::Executing, SyncEvent::Drained) => SyncState::Complete,
        _ => s,
    }
}

impl SyncState {
    /// The phase after an event.
    pub fn next(self, event: SyncEvent) -> (r: SyncState)
        ensures
            r == next_state(self, event),
    {
        match (self, event) {
            (SyncState::Idle, SyncEvent::Started) => SyncState::Scanning,
            (SyncState::Scanning, SyncEvent::Scanned) => SyncState::Planning,
            (SyncState::Scanning, SyncEvent::SetupFailed) => SyncState::Failed,
            (SyncState::Planning, SyncEvent::Planned) => SyncState::Executing,
            (SyncState::Planning, SyncEvent::SetupFailed) => SyncState::Failed,
            (SyncState::Executing, SyncEvent::ActionAborted) => SyncState::Aborted,
            (SyncState::Executing, SyncEvent::Drained) => SyncState::Complete,
            _ => self,
        }
    }
}

/// The actions whose path passes every filter clause, in order.
pub open spec fn admitted_actions(s: Seq<ActionView>, cs: Option<Seq<ClauseView>>) -> Seq<ActionView>
    decreases s.len(),
{
    if s.len() == 0 {
        Seq::empty()
    } else {
        let prev = admitted_actions(s.drop_last(), cs);
        if cs matches Some(c) && !all_admit_path(c, path_of(s.last())) { prev } else { prev.push(s.last()) }
    }
}

/// The sync engine.
pub struct SyncEngine {
    options: SyncOptions,
    scanner: DirectoryScanner,
    comparator: FileComparator,
    diff_engine: DiffEngine,
    conflict_resolver: ConflictResolver,
    attribute_preserver: AttributePreserver,
    filter: Option<FileFilter>,
}

impl SyncEngine {
    /// The clauses of the plan filter, if any.
    pub closed spec fn plan_clauses(&self) -> Option<Seq<ClauseView>> {
        match self.filter {
            Some(f) => Some(f.clauses()),
            None => None,
        }
    }

    /// The options the engine runs with.
    pub closed spec fn settings(&self) -> SyncOptions {
        self.options
    }

    /// The conflict resolver.
    pub closed spec fn resolver(&self) -> ConflictResolver {
        self.conflict_resolver
    }

    /// The comparator's block size.
    pub closed spec fn block(&self) -> usize {
        self.comparator.block_size()
    }

    /// The scanner.
    pub closed spec fn scan_settings(&self) -> DirectoryScanner {
        self.scanner
    }

    /// Whether copied files get their attributes carried over.
    pub closed spec fn preserves(&self) -> bool {
        self.attribute_preserver.settings().preserve_mtime || self.attribute_preserver.settings().preserve_permissions
    }

    /// Builds an engine. Content-comparing methods make the scanner compute
    /// digests (SHA-256 for the SHA-256 method, BLAKE3 otherwise), so that
    /// plans are made from the digests the entries carry. A plan filter
    /// whose patterns do not compile, for the scan or for the plan, makes
    /// the construction fail. Digests carried by both entries also stand for
    /// the contents under the block-by-block method, since the scans
    /// compute them; no file is read while planning.
    pub fn new(options: SyncOptions) -> (res: Result<SyncEngine, SyncError>)
        ensures
            (res is Ok) == (filter_compiles(options.scan_options.filter_options) && filter_compiles(
                options.filter_options,
            )),
            res matches Err(e) ==> e is FilterPattern,
            res matches Ok(r) ==> {
                &&& r.settings().comparison_method == options.comparison_method
                &&& r.settings().dry_run == options.dry_run
                &&& r.settings().delete_extra == options.delete_extra
                &&& r.settings().continue_on_error == options.continue_on_error
                &&& r.resolver().fallback() == options.conflict_strategy
                &&& forall|t: crate::diff::ConflictType| r.resolver().override_for(t) is None
                &&& options.backup_directory matches Some(d) ==> r.resolver().backup_dir() == Some(d@)
                &&& options.backup_directory is None ==> r.resolver().backup_dir() is None
                &&& compares_contents(options.comparison_method) ==> r.scan_settings().digest_setting() == (
                    true,
                    digest_for(options.comparison_method),
                )
                &&& !compares_contents(options.comparison_method) ==> r.scan_settings().digest_setting() == (
                    options.scan_options.collect_hashes,
                    options.scan_options.hash_algorithm,
                )
                &&& r.scan_settings().includes_hidden() == options.scan_options.include_hidden
                &&& options.filter_options is None ==> r.plan_clauses() is None
                &&& options.filter_options matches Some(o) ==> r.plan_clauses() == Some(seq![o@])
                &&& r.preserves() == (options.preservation_options.preserve_mtime
                    || options.preservation_options.preserve_permissions)
                &&& r.block() == options.buffer_size
            },
    {
        let m = options.comparison_method;
        let mut scan_options = copy_scan_options(&options.scan_options);
        let content = match m {
            ComparisonMethod::Sha256 | ComparisonMethod::Blake3 | ComparisonMethod::ByteByByte
            | ComparisonMethod::Comprehensive => true,
            _ => false,
        };
        if content {
            scan_options.collect_hashes = true;
            scan_options.hash_algorithm = match m {
                ComparisonMethod::Sha256 => HashAlgorithm::Sha256,
                _ => HashAlgorithm::Blake3,
            };
        }
        let scanner = match DirectoryScanner::new(scan_options) {
            Ok(sc) => sc,
            Err(e) => {
                return Err(e);
            },
        };
        let comparator = FileComparator::with_buffer_size(options.buffer_size);
        let mut conflict_resolver = ConflictResolver::new(options.conflict_strategy);
        match &options.backup_directory {
            Some(d) => conflict_resolver.set_backup_directory(d.clone()),
            None => {},
        }
        let attribute_preserver = AttributePreserver::new(options.preservation_options);
        let filter = match &options.filter_options {
            Some(o) => match FileFilter::new(copy_options(o)) {
                Ok(f) => Some(f),
                Err(e) => {
                    return Err(e);
                },
            },
            None => None,
        };
        Ok(SyncEngine {
            options,
            scanner,
            comparator,
            diff_engine: DiffEngine::new(),
            conflict_resolver,
            attribute_preserver,
            filter,
        })
    }

    /// The options the engine runs with.
    pub fn options(&self) -> (r: &SyncOptions)
        ensures
            *r == self.settings(),
    {
        &self.options
    }

    /// Replaces the options and rebuilds the engine from them.
    pub fn set_options(&mut self, options: SyncOptions) -> (res: Result<(), SyncError>)
        ensures
            (res is Ok) == (filter_compiles(options.scan_options.filter_options) && filter_compiles(
                options.filter_options,
            )),
            res is Err ==> *final(self) == *old(self),
            res is Ok ==> {
                &&& final(self).settings().comparison_method == options.comparison_method
                &&& final(self).settings().dry_run == options.dry_run
                &&& final(self).settings().delete_extra == options.delete_extra
                &&& final(self).settings().continue_on_error == options.continue_on_error
                &&& final(self).resolver().fallback() == options.conflict_strategy
            },
    {
        match SyncEngine::new(options) {
            Ok(e) => {
                *self = e;
                Ok(())
            },
            Err(e) => Err(e),
        }
    }

    /// The scanner the engine uses for both trees.
    pub fn scanner(&self) -> (r: &DirectoryScanner)
        ensures
            *r == self.scan_settings(),
    {
        &self.scanner
    }

    /// The comparator, with the configured block size.
    pub fn comparator(&self) -> (r: FileComparator)
        ensures
            r.block_size() == self.block(),
    {
        self.comparator
    }

    /// Whether the plan filter keeps an action: its path must pass.
    pub fn should_include_action(&self, action: &SyncAction) -> (r: bool)
        ensures
            r == (match self.plan_clauses() {
                Some(c) => all_admit_path(c, path_of(action@)),
                None => true,
            }),
    {
        match &self.filter {
            Some(f) => f.should_include(action.rel_path().as_str()),
            None => true,
        }
    }

    /// The plan to execute for two enumerations: the differ's plan, with
    /// deletion or keeping of extra entries as configured, restricted to the
    /// actions the plan filter keeps, summarized, and put in execution
    /// order. A destination-only entry whose path the filter refuses is
    /// kept: its deletion is filtered out with it.
    pub fn generate_sync_plan(&self, source_entries: Vec<FileEntry>, dest_entries: Vec<FileEntry>) -> (r: Result<SyncPlan, SyncError>)
        ensures
            (r is Ok) == plan_possible(source_entries@, dest_entries@, self.settings().comparison_method),
            r matches Ok(p) ==> {
                let kept = admitted_actions(
                    planned(source_entries@, dest_entries@, self.settings().comparison_method, self.settings().delete_extra),
                    self.plan_clauses(),
                );
                &&& views(p.actions@).to_multiset() == kept.to_multiset()
                &&& in_execution_order(views(p.actions@))
                &&& forall|x: ActionView| #[trigger] rank_class(views(p.actions@), x) == rank_class(kept, x)
                &&& p.summary == summary_of(kept)
            },
            r matches Err(e) ==> e is Comparison,
    {
        let plan = self.diff_engine.generate_plan(
            source_entries,
            dest_entries,
            self.options.comparison_method,
            self.options.delete_extra,
        );
        let plan = match plan {
            Ok(p) => p,
            Err(e) => {
                return Err(e);
            },
        };
        let ghost all = views(plan.actions@);
        let mut kept: Vec<SyncAction> = Vec::new();
        let mut rest = plan.actions;
        let mut i: usize = 0;
        let n = rest.len();
        while i < n
            invariant
                n == rest@.len(),
                all == views(rest@),
                i <= n,
                views(kept@) == admitted_actions(all.subrange(0, i as int), self.plan_clauses()),
            decreases n - i,
        {
            assert(all.subrange(0, i + 1).drop_last() =~= all.subrange(0, i as int));
            if self.should_include_action(&rest[i]) {
                let c = rest[i].duplicate();
                let ghost before = views(kept@);
                kept.push(c);
                assert(views(kept@) =~= before.push(c@));
            }
            i = i + 1;
        }
        assert(all.subrange(0, n as int) =~= all);
        let summary = self.diff_engine.generate_summary(&kept);
        let mut out = SyncPlan { actions: kept, summary };
        self.diff_engine.sort_actions(&mut out);
        Ok(out)
    }

    /// Whether `r` is the work an action needs, or the error it fails with,
    /// for the time stamp `stamp`. In a dry run the work is empty.
    pub open spec fn work_outcome(
        &self,
        r: Result<ActionWork, SyncError>,
        action: ActionView,
        source_root: Seq<char>,
        dest_root: Seq<char>,
        stamp: Seq<char>,
    ) -> bool {
        let expected = action_work(
            action,
            |t: crate::diff::ConflictType| self.resolver().strategy_for(t),
            self.resolver().backup_dir(),
            stamp,
            source_root,
            dest_root,
            self.preserves(),
        );
        &&& (r is Ok) == (expected is Some)
        &&& r matches Ok(w) ==> w.view_of() == dry(expected->0, self.settings().dry_run)
        &&& r matches Err(e) ==> e is ConflictResolution
    }

    /// The work an action needs, with `stamp` as the time stamp of backup
    /// names. In a dry run the outcome is the same and the work is empty.
    pub fn plan_action_at(&self, action: &SyncAction, source_root: &str, dest_root: &str, stamp: &str) -> (r: Result<ActionWork, SyncError>)
        ensures
            self.work_outcome(r, action@, source_root@, dest_root@, stamp@),
    {
        let preserve = self.attribute_preserver.wants_attributes();
        let w = match action {
            SyncAction::Conflict { source, destination, conflict_type, source_info, destination_info } => {
                let res = self.conflict_resolver.resolve_conflict_at(
                    source.as_str(),
                    destination.as_str(),
                    *conflict_type,
                    source_info,
                    destination_info,
                    stamp,
                );
                let res = match res {
                    Ok(v) => v,
                    Err(e) => {
                        return Err(e);
                    },
                };
                let mut steps: Vec<FsStep> = Vec::new();
                match &res {
                    ConflictResolution::BackupAndUseSource { backup_path } => {
                        steps.push(FsStep::MoveAside {
                            from: join_path_exec(dest_root, destination.as_str()),
                            to: backup_path.clone(),
                            required: true,
                        });
                    },
                    ConflictResolution::BackupAndKeepDestination { backup_path } => {
                        steps.push(FsStep::MoveAside {
                            from: join_path_exec(source_root, source.as_str()),
                            to: backup_path.clone(),
                            required: false,
                        });
                    },
                    _ => {},
                }
                let ghost backup = steps@.map_values(|s: FsStep| s@);
                let ghost res_view = res@;
                assert(backup =~= backup_steps(res_view, source@, destination@, source_root@, dest_root@));
                let resolved = self.conflict_resolver.resolution_to_action(
                    res,
                    source.clone(),
                    destination.clone(),
                    source_info,
                );
                match resolved {
                    Err(e) => {
                        return Err(e);
                    },
                    Ok(None) => ActionWork {
                        operation: FileOperation::Conflict,
                        steps: Vec::new(),
                        preserve_attributes: false,
                        manual: true,
                    },
                    Ok(Some(b)) => {
                        let mut pw = plain_work_exec(&b, source_root, dest_root, preserve);
                        let mut all_steps = steps;
                        let ghost tail = pw.steps@.map_values(|s: FsStep| s@);
                        all_steps.append(&mut pw.steps);
                        assert(all_steps@.map_values(|s: FsStep| s@) =~= backup + tail);
                        ActionWork {
                            operation: pw.operation,
                            steps: all_steps,
                            preserve_attributes: pw.preserve_attributes,
                            manual: pw.manual,
                        }
                    },
                }
            },
            _ => plain_work_exec(action, source_root, dest_root, preserve),
        };
        if self.options.dry_run {
            let d = ActionWork {
                operation: w.operation,
                steps: Vec::new(),
                preserve_attributes: false,
                manual: w.manual,
            };
            assert(d.steps@.map_values(|s: FsStep| s@) =~= Seq::<StepView>::empty());
            Ok(d)
        } else {
            Ok(w)
        }
    }

    /// The work an action needs. Backup names carry the current UTC time:
    /// the result is the work for some time stamp, and only the backup path
    /// depends on which.
    pub fn plan_action(&self, action: &SyncAction, source_root: &str, dest_root: &str) -> (r: Result<ActionWork, SyncError>)
        ensures
            exists|stamp: Seq<char>| #[trigger] self.work_outcome(r, action@, source_root@, dest_root@, stamp),
            (r is Ok) == (action_work(
                action@,
                |t: crate::diff::ConflictType| self.resolver().strategy_for(t),
                self.resolver().backup_dir(),
                Seq::empty(),
                source_root@,
                dest_root@,
                self.preserves(),
            ) is Some),
            r matches Ok(w) ==> (self.settings().dry_run ==> w.steps@.len() == 0),
            r matches Err(e) ==> e is ConflictResolution,
            !(action@ is Conflict) ==> (r matches Ok(w) && w.view_of() == dry(
                plain_work(action@, source_root@, dest_root@, self.preserves()),
                self.settings().dry_run,
            )),
    {
        let stamp = match action {
            SyncAction::Conflict { .. } => utc_stamp(),
            _ => String::new(),
        };
        let r = self.plan_action_at(action, source_root, dest_root, stamp.as_str());
        assert(self.work_outcome(r, action@, source_root@, dest_root@, stamp@));
        proof {
            lemma_success_ignores_stamp(
                action@,
                |t: crate::diff::ConflictType| self.resolver().strategy_for(t),
                self.resolver().backup_dir(),
                stamp@,
                Seq::empty(),
                source_root@,
                dest_root@,
                self.preserves(),
            );
        }
        proof {
            if r is Ok && self.settings().dry_run {
                assert(r->Ok_0.view_of().steps.len() == 0);
            }
        }
        r
    }

    /// Counts an action's outcome and decides whether the run goes on. A
    /// success is recorded with the action's bytes and duration; a conflict
    /// left to a person is counted as a conflict and recorded as a
    /// recoverable error; a failure is counted as failed and recorded as
    /// recoverable when errors are to be stepped past, and otherwise as
    /// critical, aborting the run with that error.
    pub fn finish_action(
        &self,
        metrics: &mut SyncMetrics,
        action: &SyncAction,
        outcome: Result<ActionWork, SyncError>,
        duration: u64,
    ) -> (r: Control)
        requires
            old(metrics).wf(),
        ensures
            final(metrics).wf(),
            (outcome is Ok) ==> r == Control::Continue,
            outcome matches Ok(w) ==> (action@ is Conflict ==> (if w.manual {
                final(metrics).conflicts.manual_intervention == crate::metrics::sat_usize(
                    old(metrics).conflicts.manual_intervention + 1,
                )
            } else {
                final(metrics).conflicts.auto_resolved == crate::metrics::sat_usize(old(metrics).conflicts.auto_resolved + 1)
            })),
            outcome matches Ok(w) ==> (old(metrics).files.processed < usize::MAX ==> final(metrics).files
                == counted(old(metrics).files, w.operation)),
            outcome matches Err(e) ==> (r == Control::Continue) == self.settings().continue_on_error,
            outcome matches Err(e) ==> (!self.settings().continue_on_error ==> r == Control::Abort(e)),
            (outcome is Err) ==> (final(metrics).files.failed == crate::metrics::sat_usize(old(metrics).files.failed + 1)),
            (outcome is Err) ==> (final(metrics).errors.total_errors == crate::metrics::sat_usize(
                old(metrics).errors.total_errors + 1,
            )),
            outcome matches Ok(w) ==> final(metrics).transfer == recorded_transfer(
                old(metrics).transfer,
                w.operation,
                counted_size(action@),
            ),
            outcome matches Ok(w) ==> tally_view(final(metrics).operations.operation_counts@) == bumped(
                tally_view(old(metrics).operations.operation_counts@),
                operation_name(w.operation),
                1,
            ),
            outcome matches Ok(w) ==> tally_view(final(metrics).operations.operation_times@) == bumped(
                tally_view(old(metrics).operations.operation_times@),
                operation_name(w.operation),
                duration,
            ),
            outcome matches Ok(w) ==> tally_view(final(metrics).operations.operation_bytes@) == bumped(
                tally_view(old(metrics).operations.operation_bytes@),
                operation_name(w.operation),
                counted_size(action@),
            ),
            outcome matches Ok(w) ==> (!w.manual ==> same_errors(final(metrics).errors, old(metrics).errors)),
            outcome matches Ok(w) ==> (w.manual ==> {
                &&& final(metrics).errors.total_errors == crate::metrics::sat_usize(old(metrics).errors.total_errors + 1)
                &&& final(metrics).errors.recoverable_errors@.map_values(|m: String| m@) == old(
                    metrics,
                ).errors.recoverable_errors@.map_values(|m: String| m@).push(path_of(action@))
                &&& final(metrics).errors.critical_errors@ == old(metrics).errors.critical_errors@
                &&& tally_view(final(metrics).errors.errors_by_type@) == bumped(
                    tally_view(old(metrics).errors.errors_by_type@),
                    "ManualResolutionRequired"@,
                    1,
                )
            }),
            outcome matches Ok(w) ==> (action@ matches ActionView::Conflict { conflict_type: t, .. } ==> tally_view(
                final(metrics).conflicts.resolution_strategies@,
            ) == bumped(
                tally_view(old(metrics).conflicts.resolution_strategies@),
                strategy_name(self.resolver().strategy_for(t)),
                1,
            )),
            ((outcome is Ok) && !(action@ is Conflict)) ==> final(metrics).conflicts.resolution_strategies@ == old(
                metrics,
            ).conflicts.resolution_strategies@,
            (outcome is Err) ==> final(metrics).transfer == old(metrics).transfer,
            (outcome is Err) ==> same_operations(final(metrics).operations, old(metrics).operations),
            (outcome is Err) ==> same_conflicts(final(metrics).conflicts, old(metrics).conflicts),
            (outcome is Err) ==> final(metrics).files == (FileStats {
                failed: crate::metrics::sat_usize(old(metrics).files.failed + 1),
                ..old(metrics).files
            }),
            (outcome is Err) ==> tally_view(final(metrics).errors.errors_by_type@) == bumped(
                tally_view(old(metrics).errors.errors_by_type@),
                "ActionExecution"@,
                1,
            ),
            outcome matches Err(e) ==> (if self.settings().continue_on_error {
                &&& final(metrics).errors.recoverable_errors@.map_values(|m: String| m@) == old(
                    metrics,
                ).errors.recoverable_errors@.map_values(|m: String| m@).push(error_text(e))
                &&& final(metrics).errors.critical_errors@ == old(metrics).errors.critical_errors@
            } else {
                &&& final(metrics).errors.critical_errors@.map_values(|m: String| m@) == old(
                    metrics,
                ).errors.critical_errors@.map_values(|m: String| m@).push(error_text(e))
                &&& final(metrics).errors.recoverable_errors@ == old(metrics).errors.recoverable_errors@
            }),
    {
        match outcome {
            Ok(w) => {
                let size = action_file_size(action);
                metrics.record_file_operation(w.operation, size, duration);
                if w.manual {
                    metrics.record_error("ManualResolutionRequired", action.rel_path().as_str(), false);
                }
                match action {
                    SyncAction::Conflict { conflict_type, .. } => {
                        let strategy = self.conflict_resolver.strategy_for_type(*conflict_type);
                        metrics.record_conflict_resolution(strategy.name(), !w.manual);
                    },
                    _ => {},
                }
                Control::Continue
            },
            Err(e) => {
                let message = e.to_string();
                metrics.record_failure();
                metrics.record_error("ActionExecution", message.as_str(), !self.options.continue_on_error);
                if self.options.continue_on_error {
                    Control::Continue
                } else {
                    Control::Abort(e)
                }
            },
        }
    }
}

/// The bytes an action moves, as metrics count them: a copy's or update's
/// size, a conflict's source size, otherwise zero.
pub open spec fn counted_size(a: ActionView) -> u64 {
    match a {
        ActionView::Conflict { source_info, .. } => source_info.size,
        _ => size_of(a),
    }
}

/// Computes `counted_size`.
pub fn action_file_size(action: &SyncAction) -> (r: u64)
    ensures
        r == counted_size(action@),
{
    match action {
        SyncAction::Conflict { source_info, .. } => source_info.size,
        _ => action.transfer_size(),
    }
}

fn plain_work_exec(a: &SyncAction, source_root: &str, dest_root: &str, preserve: bool) -> (r: ActionWork)
    ensures
        r.view_of() == plain_work(a@, source_root@, dest_root@, preserve),
{
    let (operation, steps, p) = match a {
        SyncAction::Copy { source, destination, .. } => (
            FileOperation::Copy,
            vec![FsStep::CopyFile {
                source: join_path_exec(source_root, source.as_str()),
                destination: join_path_exec(dest_root, destination.as_str()),
            }],
            preserve,
        ),
        SyncAction::Update { source, destination, .. } => (
            FileOperation::Update,
            vec![FsStep::CopyFile {
                source: join_path_exec(source_root, source.as_str()),
                destination: join_path_exec(dest_root, destination.as_str()),
            }],
            preserve,
        ),
        SyncAction::Delete { path } => (
            FileOperation::Delete,
            vec![FsStep::RemoveEntry { path: join_path_exec(dest_root, path.as_str()) }],
            false,
        ),
        SyncAction::CreateDirectory { path } => (
            FileOperation::CreateDirectory,
            vec![FsStep::MakeDirectory { path: join_path_exec(dest_root, path.as_str()) }],
            false,
        ),
        _ => (FileOperation::Skip, Vec::new(), false),
    };
    let r = ActionWork { operation, steps, preserve_attributes: p, manual: false };
    assert(r.view_of().steps =~= plain_work(a@, source_root@, dest_root@, preserve).steps);
    r
}

fn copy_scan_options(o: &ScanOptions) -> (r: ScanOptions)
    ensures
        r.include_hidden == o.include_hidden,
        r.collect_hashes == o.collect_hashes,
        r.hash_algorithm == o.hash_algorithm,
        r.filter_options is Some == o.filter_options is Some,
        r.filter_options matches Some(f) ==> f@ == o.filter_options->0@,
{
    ScanOptions {
        follow_links: o.follow_links,
        max_depth: o.max_depth,
        include_hidden: o.include_hidden,
        respect_ignore_files: o.respect_ignore_files,
        filter_options: match &o.filter_options {
            Some(f) => Some(copy_options(f)),
            None => None,
        },
        collect_hashes: o.collect_hashes,
        hash_algorithm: o.hash_algorithm,
    }
}

/// In a dry run no action needs filesystem work: whatever the action, the
/// resolver's verdict or the time stamp, the work to perform is empty, and
/// the outcome counted is the one a real run would count.
pub proof fn lemma_dry_run_mutates_nothing(w: WorkView)
    ensures
        dry(w, true).steps.len() == 0,
        dry(w, true).operation == w.operation,
        dry(w, true).manual == w.manual,
{
}

/// Whether an action's work can be given does not depend on the time
/// stamp: only the backup path does.
pub proof fn lemma_success_ignores_stamp(
    a: ActionView,
    strategy_of: spec_fn(crate::diff::ConflictType) -> ConflictStrategy,
    backup_dir: Option<Seq<char>>,
    stamp1: Seq<char>,
    stamp2: Seq<char>,
    src_root: Seq<char>,
    dst_root: Seq<char>,
    preserve: bool,
)
    ensures
        (action_work(a, strategy_of, backup_dir, stamp1, src_root, dst_root, preserve) is Some) == (action_work(
            a,
            strategy_of,
            backup_dir,
            stamp2,
            src_root,
            dst_root,
            preserve,
        ) is Some),
{
}

} // verus!
