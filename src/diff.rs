//! Plan generation: from two enumerations to an ordered list of actions.
//!
//! Entries are matched by relative path. A source entry without a
//! counterpart is created; a destination entry without one is deleted (or
//! kept, when extra entries are not to be deleted); a matched pair is
//! decided from its kinds and the comparator's verdict. The plan carries a
//! summary that counts the actions of each kind and the bytes to transfer.

use vstd::prelude::*;
use crate::comparator::{ComparisonMethod, FileComparator, Verdict, entry_verdict};
use crate::error::SyncError;
use crate::progress::FileOperation;
use crate::scanner::{FileEntry, copy_opt_string};

verus! {

/// Kinds of conflict between a source and a destination entry.
#[derive(Debug, Clone, Copy, PartialEq, Eq, Structural, Hash)]
pub enum ConflictType {
    /// Both sides changed; the destination is not older.
    BothModified,
    /// One side is a file, the other a directory.
    FileDirectoryConflict,
    /// One side is a symbolic link, the other is not.
    TypeMismatch,
    /// The permissions disagree.
    PermissionConflict,
    /// The sizes differ although the modification times are equal.
    SizeMismatch,
}

/// The attributes of an entry that conflict resolution looks at.
#[derive(Debug, Clone, PartialEq)]
pub struct FileInfo {
    /// Size in bytes.
    pub size: u64,
    /// Modification time, nanoseconds relative to the Unix epoch.
    pub modified: i128,
    /// Whether it is a directory.
    pub is_dir: bool,
    /// Whether it is a symbolic link.
    pub is_symlink: bool,
    /// POSIX permission bits.
    pub permissions: u32,
    /// Content digest, if known.
    pub hash: Option<String>,
}

/// The attributes of an entry.
pub open spec fn info_of(e: FileEntry) -> FileInfo {
    FileInfo {
        size: e.size,
        modified: e.modified,
        is_dir: e.is_dir,
        is_symlink: e.is_symlink,
        permissions: e.permissions,
        hash: e.hash,
    }
}

impl FileInfo {
    /// The attributes of an entry.
    pub fn from_entry(entry: &FileEntry) -> (r: FileInfo)
        ensures
            r == info_of(*entry),
    {
        FileInfo {
            size: entry.size,
            modified: entry.modified,
            is_dir: entry.is_dir,
            is_symlink: entry.is_symlink,
            permissions: entry.permissions,
            hash: copy_opt_string(&entry.hash),
        }
    }

    /// A copy of the attributes.
    pub fn duplicate(&self) -> (r: FileInfo)
        ensures
            r == *self,
    {
        FileInfo {
            size: self.size,
            modified: self.modified,
            is_dir: self.is_dir,
            is_symlink: self.is_symlink,
            permissions: self.permissions,
            hash: copy_opt_string(&self.hash),
        }
    }
}

/// One unit of work against the destination. Paths are relative to the
/// two roots.
#[derive(Debug, Clone, PartialEq)]
pub enum SyncAction {
    /// Create a new file at the destination.
    Copy { source: String, destination: String, file_size: u64 },
    /// Overwrite an existing destination file.
    Update { source: String, destination: String, file_size: u64 },
    /// Remove a destination entry.
    Delete { path: String },
    /// Create a directory at the destination.
    CreateDirectory { path: String },
    /// An unresolved conflict, to be passed through the resolver.
    Conflict {
        source: String,
        destination: String,
        conflict_type: ConflictType,
        source_info: FileInfo,
        destination_info: FileInfo,
    },
    /// Nothing to do, with the reason.
    Skip { path: String, reason: String },
}

/// A `SyncAction` with its strings seen as character sequences.
pub enum ActionView {
    Copy { source: Seq<char>, destination: Seq<char>, file_size: u64 },
    Update { source: Seq<char>, destination: Seq<char>, file_size: u64 },
    Delete { path: Seq<char> },
    CreateDirectory { path: Seq<char> },
    Conflict {
        source: Seq<char>,
        destination: Seq<char>,
        conflict_type: ConflictType,
        source_info: FileInfo,
        destination_info: FileInfo,
    },
    Skip { path: Seq<char>, reason: Seq<char> },
}

impl View for SyncAction {
    type V = ActionView;

    open spec fn view(&self) -> ActionView {
        match self {
            SyncAction::Copy { source, destination, file_size } => ActionView::Copy {
                source: source@,
                destination: destination@,
                file_size: *file_size,
            },
            SyncAction::Update { source, destination, file_size } => ActionView::Update {
                source: source@,
                destination: destination@,
                file_size: *file_size,
            },
            SyncAction::Delete { path } => ActionView::Delete { path: path@ },
            SyncAction::CreateDirectory { path } => ActionView::CreateDirectory { path: path@ },
            SyncAction::Conflict { source, destination, conflict_type, source_info, destination_info } =>
                ActionView::Conflict {
                source: source@,
                destination: destination@,
                conflict_type: *conflict_type,
                source_info: *source_info,
                destination_info: *destination_info,
            },
            SyncAction::Skip { path, reason } => ActionView::Skip { path: path@, reason: reason@ },
        }
    }
}

impl SyncAction {
    /// A copy of the action.
    pub fn duplicate(&self) -> (r: SyncAction)
        ensures
            r@ == self@,
    {
        match self {
            SyncAction::Copy { source, destination, file_size } => SyncAction::Copy {
                source: source.clone(),
                destination: destination.clone(),
                file_size: *file_size,
            },
            SyncAction::Update { source, destination, file_size } => SyncAction::Update {
                source: source.clone(),
                destination: destination.clone(),
                file_size: *file_size,
            },
            SyncAction::Delete { path } => SyncAction::Delete { path: path.clone() },
            SyncAction::CreateDirectory { path } => SyncAction::CreateDirectory { path: path.clone() },
            SyncAction::Conflict { source, destination, conflict_type, source_info, destination_info } =>
                SyncAction::Conflict {
                source: source.clone(),
                destination: destination.clone(),
                conflict_type: *conflict_type,
                source_info: source_info.duplicate(),
                destination_info: destination_info.duplicate(),
            },
            SyncAction::Skip { path, reason } => SyncAction::Skip { path: path.clone(), reason: reason.clone() },
        }
    }

    /// The kind of operation the action is.
    pub fn operation(&self) -> (r: FileOperation)
        ensures
            r == kind_of(self@),
    {
        match self {
            SyncAction::Copy { .. } => FileOperation::Copy,
            SyncAction::Update { .. } => FileOperation::Update,
            SyncAction::Delete { .. } => FileOperation::Delete,
            SyncAction::CreateDirectory { .. } => FileOperation::CreateDirectory,
            SyncAction::Conflict { .. } => FileOperation::Conflict,
            SyncAction::Skip { .. } => FileOperation::Skip,
        }
    }

    /// The number of bytes the action transfers.
    pub fn transfer_size(&self) -> (r: u64)
        ensures
            r == size_of(self@),
    {
        match self {
            SyncAction::Copy { file_size, .. } => *file_size,
            SyncAction::Update { file_size, .. } => *file_size,
            _ => 0,
        }
    }

    /// The relative path the action is about: the source path of a copy,
    /// update or conflict, the path of the others.
    pub fn rel_path(&self) -> (r: &String)
        ensures
            r@ == path_of(self@),
    {
        match self {
            SyncAction::Copy { source, .. } => source,
            SyncAction::Update { source, .. } => source,
            SyncAction::Delete { path } => path,
            SyncAction::CreateDirectory { path } => path,
            SyncAction::Conflict { source, .. } => source,
            SyncAction::Skip { path, .. } => path,
        }
    }
}

/// The kind of an action.
pub open spec fn kind_of(a: ActionView) -> FileOperation {
    match a {
        ActionView::Copy { .. } => FileOperation::Copy,
        ActionView::Update { .. } => FileOperation::Update,
        ActionView::Delete { .. } => FileOperation::Delete,
        ActionView::CreateDirectory { .. } => FileOperation::CreateDirectory,
        ActionView::Conflict { .. } => FileOperation::Conflict,
        ActionView::Skip { .. } => FileOperation::Skip,
    }
}

/// The bytes an action transfers: the size of a copy or update, else zero.
pub open spec fn size_of(a: ActionView) -> u64 {
    match a {
        ActionView::Copy { file_size, .. } => file_size,
        ActionView::Update { file_size, .. } => file_size,
        _ => 0,
    }
}

/// The relative path an action is about.
pub open spec fn path_of(a: ActionView) -> Seq<char> {
    match a {
        ActionView::Copy { source, .. } => source,
        ActionView::Update { source, .. } => source,
        ActionView::Delete { path } => path,
        ActionView::CreateDirectory { path } => path,
        ActionView::Conflict { source, .. } => source,
        ActionView::Skip { path, .. } => path,
    }
}

/// The views of a list of actions.
pub open spec fn views(s: Seq<SyncAction>) -> Seq<ActionView> {
    s.map_values(|a: SyncAction| a@)
}

/// How many actions of kind `k` the list holds.
pub open spec fn count_of(s: Seq<ActionView>, k: FileOperation) -> nat
    decreases s.len(),
{
    if s.len() == 0 {
        0
    } else {
        count_of(s.drop_last(), k) + if kind_of(s.last()) == k { 1nat } else { 0nat }
    }
}

/// The bytes the list transfers.
pub open spec fn bytes_of(s: Seq<ActionView>) -> nat
    decreases s.len(),
{
    if s.len() == 0 {
        0
    } else {
        bytes_of(s.drop_last()) + size_of(s.last()) as nat
    }
}

/// Counts per kind and bytes to transfer.
#[derive(Debug, Clone, Copy, PartialEq, Eq, Structural)]
pub struct PlanSummary {
    pub total_actions: usize,
    pub copies: usize,
    pub updates: usize,
    pub deletes: usize,
    pub directory_creates: usize,
    pub conflicts: usize,
    pub skips: usize,
    /// The bytes of all copies and updates (at most `u64::MAX`).
    pub total_bytes_to_transfer: u64,
}

impl Default for PlanSummary {
    fn default() -> (r: PlanSummary)
        ensures
            r == summary_of(Seq::empty()),
    {
        PlanSummary {
            total_actions: 0,
            copies: 0,
            updates: 0,
            deletes: 0,
            directory_creates: 0,
            conflicts: 0,
            skips: 0,
            total_bytes_to_transfer: 0,
        }
    }
}

/// The summary of a list of actions. The byte total saturates at
/// `u64::MAX`.
pub open spec fn summary_of(s: Seq<ActionView>) -> PlanSummary {
    PlanSummary {
        total_actions: s.len() as usize,
        copies: count_of(s, FileOperation::Copy) as usize,
        updates: count_of(s, FileOperation::Update) as usize,
        deletes: count_of(s, FileOperation::Delete) as usize,
        directory_creates: count_of(s, FileOperation::CreateDirectory) as usize,
        conflicts: count_of(s, FileOperation::Conflict) as usize,
        skips: count_of(s, FileOperation::Skip) as usize,
        total_bytes_to_transfer: if bytes_of(s) > u64::MAX { u64::MAX } else { bytes_of(s) as u64 },
    }
}

/// A count never exceeds the length of the list.
pub proof fn lemma_count_bounded(s: Seq<ActionView>, k: FileOperation)
    ensures
        count_of(s, k) <= s.len(),
    decreases s.len(),
{
    if s.len() > 0 {
        lemma_count_bounded(s.drop_last(), k);
    }
}

/// An ordered list of actions with its summary.
#[derive(Debug, Clone)]
pub struct SyncPlan {
    /// The actions, in execution order.
    pub actions: Vec<SyncAction>,
    /// Counts and bytes.
    pub summary: PlanSummary,
}

/// Which kinds of action a filtered view of a plan keeps.
#[derive(Debug, Clone, Copy, PartialEq, Eq, Structural)]
pub struct ActionFilter {
    pub include_copies: bool,
    pub include_updates: bool,
    pub include_deletes: bool,
    pub include_directory_creates: bool,
    pub include_conflicts: bool,
    pub include_skips: bool,
}

impl Default for ActionFilter {
    /// Every kind but skips.
    fn default() -> (r: ActionFilter)
        ensures
            r == (ActionFilter {
                include_copies: true,
                include_updates: true,
                include_deletes: true,
                include_directory_creates: true,
                include_conflicts: true,
                include_skips: false,
            }),
    {
        ActionFilter {
            include_copies: true,
            include_updates: true,
            include_deletes: true,
            include_directory_creates: true,
            include_conflicts: true,
            include_skips: false,
        }
    }
}

impl ActionFilter {
    /// Keeps every kind.
    pub fn all() -> (r: ActionFilter)
        ensures
            r == (ActionFilter {
                include_copies: true,
                include_updates: true,
                include_deletes: true,
                include_directory_creates: true,
                include_conflicts: true,
                include_skips: true,
            }),
    {
        ActionFilter {
            include_copies: true,
            include_updates: true,
            include_deletes: true,
            include_directory_creates: true,
            include_conflicts: true,
            include_skips: true,
        }
    }

    /// Keeps the kinds that change the destination.
    pub fn modifications_only() -> (r: ActionFilter)
        ensures
            r == (ActionFilter {
                include_copies: true,
                include_updates: true,
                include_deletes: true,
                include_directory_creates: true,
                include_conflicts: false,
                include_skips: false,
            }),
    {
        ActionFilter {
            include_copies: true,
            include_updates: true,
            include_deletes: true,
            include_directory_creates: true,
            include_conflicts: false,
            include_skips: false,
        }
    }

    /// Keeps conflicts only.
    pub fn conflicts_only() -> (r: ActionFilter)
        ensures
            r == (ActionFilter {
                include_copies: false,
                include_updates: false,
                include_deletes: false,
                include_directory_creates: false,
                include_conflicts: true,
                include_skips: false,
            }),
    {
        ActionFilter {
            include_copies: false,
            include_updates: false,
            include_deletes: false,
            include_directory_creates: false,
            include_conflicts: true,
            include_skips: false,
        }
    }
}

/// Whether the filter keeps actions of kind `k`.
pub open spec fn keeps(f: ActionFilter, k: FileOperation) -> bool {
    match k {
        FileOperation::Copy => f.include_copies,
        FileOperation::Update => f.include_updates,
        FileOperation::Delete => f.include_deletes,
        FileOperation::CreateDirectory => f.include_directory_creates,
        FileOperation::Conflict => f.include_conflicts,
        FileOperation::Skip => f.include_skips,
    }
}

/// The actions of `s` the filter keeps, in order.
pub open spec fn kept(s: Seq<ActionView>, f: ActionFilter) -> Seq<ActionView>
    decreases s.len(),
{
    if s.len() == 0 {
        Seq::empty()
    } else if keeps(f, kind_of(s.last())) {
        kept(s.drop_last(), f).push(s.last())
    } else {
        kept(s.drop_last(), f)
    }
}

/// Builds plans from scanned entries.
#[derive(Debug, Clone, Copy)]
pub struct DiffEngine {
    comparator: FileComparator,
}

impl Default for DiffEngine {
    fn default() -> (r: DiffEngine) {
        DiffEngine::new()
    }
}

impl DiffEngine {
    /// A diff engine.
    pub fn new() -> (r: DiffEngine) {
        DiffEngine { comparator: FileComparator::new() }
    }

    /// The summary of a list of actions.
    pub fn generate_summary(&self, actions: &Vec<SyncAction>) -> (r: PlanSummary)
        ensures
            r == summary_of(views(actions@)),
    {
        let mut sm = PlanSummary::default();
        let mut bytes: u64 = 0;
        let mut i: usize = 0;
        while i < actions.len()
            invariant
                i <= actions@.len(),
                ({
                    let s = views(actions@.subrange(0, i as int));
                    &&& sm.copies == count_of(s, FileOperation::Copy)
                    &&& sm.updates == count_of(s, FileOperation::Update)
                    &&& sm.deletes == count_of(s, FileOperation::Delete)
                    &&& sm.directory_creates == count_of(s, FileOperation::CreateDirectory)
                    &&& sm.conflicts == count_of(s, FileOperation::Conflict)
                    &&& sm.skips == count_of(s, FileOperation::Skip)
                    &&& bytes == (if bytes_of(s) > u64::MAX { u64::MAX as nat } else { bytes_of(s) })
                }),
            decreases actions@.len() - i,
        {
            let ghost before = views(actions@.subrange(0, i as int));
            let a = &actions[i];
            let ghost now = views(actions@.subrange(0, i + 1));
            assert(now.drop_last() =~= before);
            assert(now.last() == a@);
            proof {
                lemma_count_bounded(before, kind_of(a@));
            }
            match a {
                SyncAction::Copy { file_size, .. } => {
                    sm.copies = sm.copies + 1;
                    bytes = bytes.saturating_add(*file_size);
                },
                SyncAction::Update { file_size, .. } => {
                    sm.updates = sm.updates + 1;
                    bytes = bytes.saturating_add(*file_size);
                },
                SyncAction::Delete { .. } => {
                    sm.deletes = sm.deletes + 1;
                },
                SyncAction::CreateDirectory { .. } => {
                    sm.directory_creates = sm.directory_creates + 1;
                },
                SyncAction::Conflict { .. } => {
                    sm.conflicts = sm.conflicts + 1;
                },
                SyncAction::Skip { .. } => {
                    sm.skips = sm.skips + 1;
                },
            }
            i = i + 1;
        }
        assert(actions@.subrange(0, actions@.len() as int) =~= actions@);
        sm.total_actions = actions.len();
        sm.total_bytes_to_transfer = bytes;
        sm
    }

    /// Whether the filter keeps the action.
    pub fn matches_filter(&self, action: &SyncAction, filter: &ActionFilter) -> (r: bool)
        ensures
            r == keeps(*filter, kind_of(action@)),
    {
        match action {
            SyncAction::Copy { .. } => filter.include_copies,
            SyncAction::Update { .. } => filter.include_updates,
            SyncAction::Delete { .. } => filter.include_deletes,
            SyncAction::CreateDirectory { .. } => filter.include_directory_creates,
            SyncAction::Conflict { .. } => filter.include_conflicts,
            SyncAction::Skip { .. } => filter.include_skips,
        }
    }

    /// The plan restricted to the kinds the filter keeps, with its summary
    /// recomputed.
    pub fn filter_actions(&self, plan: &SyncPlan, filter: ActionFilter) -> (r: SyncPlan)
        ensures
            views(r.actions@) == kept(views(plan.actions@), filter),
            r.summary == summary_of(kept(views(plan.actions@), filter)),
    {
        let mut out: Vec<SyncAction> = Vec::new();
        let mut i: usize = 0;
        while i < plan.actions.len()
            invariant
                i <= plan.actions@.len(),
                views(out@) == kept(views(plan.actions@.subrange(0, i as int)), filter),
            decreases plan.actions@.len() - i,
        {
            let a = &plan.actions[i];
            let ghost now = views(plan.actions@.subrange(0, i + 1));
            assert(now.drop_last() =~= views(plan.actions@.subrange(0, i as int)));
            if self.matches_filter(a, &filter) {
                let c = a.duplicate();
                out.push(c);
                assert(views(out@) =~= kept(now, filter));
            }
            i = i + 1;
        }
        assert(plan.actions@.subrange(0, plan.actions@.len() as int) =~= plan.actions@);
        let summary = self.generate_summary(&out);
        SyncPlan { actions: out, summary }
    }
}

} // verus!

verus! {

/// The first entry of `es` with relative path `p`.
pub open spec fn lookup(es: Seq<FileEntry>, p: Seq<char>) -> Option<FileEntry>
    decreases es.len(),
{
    if es.len() == 0 {
        None
    } else {
        match lookup(es.drop_last(), p) {
            Some(e) => Some(e),
            None => if es.last().relative_path@ == p { Some(es.last()) } else { None },
        }
    }
}

/// A conflict between two entries.
pub open spec fn conflict_view(s: FileEntry, d: FileEntry, t: ConflictType) -> ActionView {
    ActionView::Conflict {
        source: s.relative_path@,
        destination: d.relative_path@,
        conflict_type: t,
        source_info: info_of(s),
        destination_info: info_of(d),
    }
}

/// An update of the destination entry from the source entry.
pub open spec fn update_view(s: FileEntry, d: FileEntry) -> ActionView {
    ActionView::Update { source: s.relative_path@, destination: d.relative_path@, file_size: s.size }
}

/// The action for two files once the comparator has given its verdict.
pub open spec fn verdict_action(s: FileEntry, d: FileEntry, v: Verdict) -> ActionView {
    match v {
        Verdict::Identical => ActionView::Skip { path: s.relative_path@, reason: "Files are identical"@ },
        Verdict::SourceNewer => update_view(s, d),
        Verdict::DestinationNewer => conflict_view(s, d, ConflictType::BothModified),
        Verdict::DifferentSize => if s.modified == d.modified {
            conflict_view(s, d, ConflictType::SizeMismatch)
        } else if s.modified > d.modified {
            update_view(s, d)
        } else {
            conflict_view(s, d, ConflictType::BothModified)
        },
        Verdict::DifferentContent => if s.modified > d.modified {
            update_view(s, d)
        } else {
            conflict_view(s, d, ConflictType::BothModified)
        },
    }
}

/// The action for an entry present on both sides, or `None` when the
/// method needs contents the entries do not carry.
pub open spec fn pair_action(s: FileEntry, d: FileEntry, m: ComparisonMethod) -> Option<ActionView> {
    if s.is_dir != d.is_dir {
        Some(conflict_view(s, d, ConflictType::FileDirectoryConflict))
    } else if s.is_symlink != d.is_symlink {
        Some(conflict_view(s, d, ConflictType::TypeMismatch))
    } else if s.is_dir {
        Some(ActionView::Skip { path: s.relative_path@, reason: "Directory already exists"@ })
    } else {
        match entry_verdict(m, s, d) {
            Some(v) => Some(verdict_action(s, d, v)),
            None => None,
        }
    }
}

/// The action for a source entry with no destination counterpart.
pub open spec fn creation_action(s: FileEntry) -> ActionView {
    if s.is_dir {
        ActionView::CreateDirectory { path: s.relative_path@ }
    } else {
        ActionView::Copy { source: s.relative_path@, destination: s.relative_path@, file_size: s.size }
    }
}

/// The action for one source entry.
pub open spec fn source_action(s: FileEntry, dst: Seq<FileEntry>, m: ComparisonMethod) -> Option<ActionView> {
    match lookup(dst, s.relative_path@) {
        None => Some(creation_action(s)),
        Some(d) => pair_action(s, d, m),
    }
}

/// The action for a destination entry with no source counterpart.
pub open spec fn extra_action(d: FileEntry, delete_extra: bool) -> ActionView {
    if delete_extra {
        ActionView::Delete { path: d.relative_path@ }
    } else {
        ActionView::Skip { path: d.relative_path@, reason: "Not in source; kept"@ }
    }
}

/// The actions for the destination entries without source counterpart.
pub open spec fn extra_actions(src: Seq<FileEntry>, dst: Seq<FileEntry>, delete_extra: bool) -> Seq<ActionView>
    decreases dst.len(),
{
    if dst.len() == 0 {
        Seq::empty()
    } else {
        let prev = extra_actions(src, dst.drop_last(), delete_extra);
        if lookup(src, dst.last().relative_path@) is None {
            prev.push(extra_action(dst.last(), delete_extra))
        } else {
            prev
        }
    }
}

/// Whether every source entry gets an action.
pub open spec fn plan_possible(src: Seq<FileEntry>, dst: Seq<FileEntry>, m: ComparisonMethod) -> bool {
    forall|i: int| 0 <= i < src.len() ==> (#[trigger] source_action(src[i], dst, m)) is Some
}

/// The actions of the plan, before ordering: one per source entry, in
/// source order, then one per destination-only entry, in destination order.
pub open spec fn planned(src: Seq<FileEntry>, dst: Seq<FileEntry>, m: ComparisonMethod, delete_extra: bool) -> Seq<ActionView> {
    Seq::new(src.len(), |i: int| source_action(src[i], dst, m)->0) + extra_actions(src, dst, delete_extra)
}

proof fn lemma_lookup_extends(es: Seq<FileEntry>, k: int, p: Seq<char>)
    requires
        0 <= k <= es.len(),
        lookup(es.subrange(0, k), p) is Some,
    ensures
        lookup(es, p) == lookup(es.subrange(0, k), p),
    decreases es.len() - k,
{
    if k == es.len() {
        assert(es.subrange(0, k) =~= es);
    } else {
        assert(es.drop_last().subrange(0, k) =~= es.subrange(0, k));
        lemma_lookup_extends(es.drop_last(), k, p);
    }
}

/// Finds the first entry with the relative path.
fn find_entry(es: &Vec<FileEntry>, p: &String) -> (r: Option<usize>)
    ensures
        r matches Some(j) ==> j < es@.len() && lookup(es@, p@) == Some(es@[j as int]),
        r is None ==> lookup(es@, p@) is None,
{
    let mut i: usize = 0;
    while i < es.len()
        invariant
            i <= es@.len(),
            lookup(es@.subrange(0, i as int), p@) is None,
        decreases es@.len() - i,
    {
        assert(es@.subrange(0, i + 1).drop_last() =~= es@.subrange(0, i as int));
        if es[i].relative_path == *p {
            proof {
                lemma_lookup_extends(es@, i + 1, p@);
            }
            return Some(i);
        }
        i = i + 1;
    }
    assert(es@.subrange(0, es@.len() as int) =~= es@);
    None
}

fn conflict_of(s: &FileEntry, d: &FileEntry, t: ConflictType) -> (r: SyncAction)
    ensures
        r@ == conflict_view(*s, *d, t),
{
    SyncAction::Conflict {
        source: s.relative_path.clone(),
        destination: d.relative_path.clone(),
        conflict_type: t,
        source_info: FileInfo::from_entry(s),
        destination_info: FileInfo::from_entry(d),
    }
}

fn update_of(s: &FileEntry, d: &FileEntry) -> (r: SyncAction)
    ensures
        r@ == update_view(*s, *d),
{
    SyncAction::Update {
        source: s.relative_path.clone(),
        destination: d.relative_path.clone(),
        file_size: s.size,
    }
}

fn skip_of(path: &String, reason: &str) -> (r: SyncAction)
    ensures
        r@ == (ActionView::Skip { path: path@, reason: reason@ }),
{
    SyncAction::Skip { path: path.clone(), reason: reason.to_owned() }
}

impl DiffEngine {
    /// Decides the action for an entry present on both sides, or `None`
    /// when the method needs contents the entries do not carry.
    pub fn compare_and_decide(&self, source: &FileEntry, destination: &FileEntry, method: ComparisonMethod) -> (r: Option<SyncAction>)
        ensures
            (r is Some) == pair_action(*source, *destination, method) is Some,
            r matches Some(a) ==> a@ == pair_action(*source, *destination, method)->0,
    {
        if source.is_dir != destination.is_dir {
            return Some(conflict_of(source, destination, ConflictType::FileDirectoryConflict));
        }
        if source.is_symlink != destination.is_symlink {
            return Some(conflict_of(source, destination, ConflictType::TypeMismatch));
        }
        if source.is_dir {
            return Some(skip_of(&source.relative_path, "Directory already exists"));
        }
        let v = match crate::comparator::entry_verdict_of(source, destination, method) {
            Some(v) => v,
            None => {
                return None;
            },
        };
        let a = match v {
            Verdict::Identical => skip_of(&source.relative_path, "Files are identical"),
            Verdict::SourceNewer => update_of(source, destination),
            Verdict::DestinationNewer => conflict_of(source, destination, ConflictType::BothModified),
            Verdict::DifferentSize => if source.modified == destination.modified {
                conflict_of(source, destination, ConflictType::SizeMismatch)
            } else if source.modified > destination.modified {
                update_of(source, destination)
            } else {
                conflict_of(source, destination, ConflictType::BothModified)
            },
            Verdict::DifferentContent => if source.modified > destination.modified {
                update_of(source, destination)
            } else {
                conflict_of(source, destination, ConflictType::BothModified)
            },
        };
        Some(a)
    }

    /// The action for a source entry with no destination counterpart.
    pub fn creation_for(&self, source: &FileEntry) -> (r: SyncAction)
        ensures
            r@ == creation_action(*source),
    {
        if source.is_dir {
            SyncAction::CreateDirectory { path: source.relative_path.clone() }
        } else {
            SyncAction::Copy {
                source: source.relative_path.clone(),
                destination: source.relative_path.clone(),
                file_size: source.size,
            }
        }
    }

    /// Builds the plan for two enumerations. It fails with a comparison
    /// error when a matched pair of files needs contents that the entries do
    /// not carry as digests.
    pub fn generate_plan(
        &self,
        source_entries: Vec<FileEntry>,
        dest_entries: Vec<FileEntry>,
        comparison_method: ComparisonMethod,
        delete_extra: bool,
    ) -> (r: Result<SyncPlan, SyncError>)
        ensures
            (r is Ok) == plan_possible(source_entries@, dest_entries@, comparison_method),
            r matches Ok(p) ==> views(p.actions@) == planned(source_entries@, dest_entries@, comparison_method, delete_extra)
                && p.summary == summary_of(planned(source_entries@, dest_entries@, comparison_method, delete_extra)),
            r matches Err(e) ==> e is Comparison,
    {
        let ghost src = source_entries@;
        let ghost dst = dest_entries@;
        let m = comparison_method;
        let mut actions: Vec<SyncAction> = Vec::new();
        let mut i: usize = 0;
        while i < source_entries.len()
            invariant
                src == source_entries@,
                dst == dest_entries@,
                m == comparison_method,
                i <= src.len(),
                forall|k: int| 0 <= k < i ==> (#[trigger] source_action(src[k], dst, m)) is Some,
                views(actions@) =~= Seq::new(i as nat, |k: int| source_action(src[k], dst, m)->0),
            decreases src.len() - i,
        {
            let s = &source_entries[i];
            assert(*s == src[i as int]);
            let a = match find_entry(&dest_entries, &s.relative_path) {
                None => self.creation_for(s),
                Some(j) => match self.compare_and_decide(s, &dest_entries[j], m) {
                    Some(a) => a,
                    None => {
                        proof {
                            assert(lookup(dst, src[i as int].relative_path@) == Some(dst[j as int]));
                            assert(pair_action(src[i as int], dst[j as int], m) is None);
                            assert(source_action(src[i as int], dst, m) is None);
                            assert(!plan_possible(src, dst, m));
                        }
                        let e = SyncError::comparison_error(
                            s.path.as_str(),
                            dest_entries[j].path.as_str(),
                            "file contents must be compared but the entries carry no digests",
                        );
                        return Err(e);
                    },
                },
            };
            assert(source_action(src[i as int], dst, m) == Some(a@));
            let ghost before = views(actions@);
            actions.push(a);
            assert(views(actions@) =~= before.push(a@));
            i = i + 1;
        }
        let ghost head = views(actions@);
        let mut j: usize = 0;
        while j < dest_entries.len()
            invariant
                src == source_entries@,
                dst == dest_entries@,
                j <= dst.len(),
                head == Seq::new(src.len(), |k: int| source_action(src[k], dst, m)->0),
                views(actions@) == head + extra_actions(src, dst.subrange(0, j as int), delete_extra),
            decreases dst.len() - j,
        {
            let d = &dest_entries[j];
            assert(dst.subrange(0, j + 1).drop_last() =~= dst.subrange(0, j as int));
            match find_entry(&source_entries, &d.relative_path) {
                Some(_) => {},
                None => {
                    let a = if delete_extra {
                        SyncAction::Delete { path: d.relative_path.clone() }
                    } else {
                        skip_of(&d.relative_path, "Not in source; kept")
                    };
                    let ghost before = views(actions@);
                    actions.push(a);
                    assert(views(actions@) =~= before.push(a@));
                    assert(a@ == extra_action(dst[j as int], delete_extra));
                    assert(views(actions@) =~= head + extra_actions(src, dst.subrange(0, j + 1), delete_extra));
                },
            }
            j = j + 1;
        }
        assert(dst.subrange(0, dst.len() as int) =~= dst);
        let summary = self.generate_summary(&actions);
        Ok(SyncPlan { actions, summary })
    }
}

} // verus!

verus! {

/// The execution order: directory creations first, shallower paths before
/// longer ones, then the other actions, larger transfers first.
pub open spec fn runs_before(a: ActionView, b: ActionView) -> bool {
    match (a, b) {
        (ActionView::CreateDirectory { path: p }, ActionView::CreateDirectory { path: q }) => p.len() <= q.len(),
        (ActionView::CreateDirectory { .. }, _) => true,
        (_, ActionView::CreateDirectory { .. }) => false,
        _ => size_of(a) >= size_of(b),
    }
}

/// Whether the list is in execution order.
pub open spec fn in_execution_order(s: Seq<ActionView>) -> bool {
    forall|i: int, j: int| 0 <= i < j < s.len() ==> runs_before(#[trigger] s[i], #[trigger] s[j])
}

fn runs_before_exec(a: &SyncAction, b: &SyncAction) -> (r: bool)
    ensures
        r == runs_before(a@, b@),
{
    match (a, b) {
        (SyncAction::CreateDirectory { path: p }, SyncAction::CreateDirectory { path: q }) => {
            crate::text::chars_of(p.as_str()).len() <= crate::text::chars_of(q.as_str()).len()
        },
        (SyncAction::CreateDirectory { .. }, _) => true,
        (_, SyncAction::CreateDirectory { .. }) => false,
        _ => a.transfer_size() >= b.transfer_size(),
    }
}

proof fn lemma_insert_ordered(s: Seq<ActionView>, k: int, x: ActionView)
    requires
        0 <= k <= s.len(),
        in_execution_order(s),
        forall|i: int| 0 <= i < k ==> runs_before(#[trigger] s[i], x),
        k < s.len() ==> !runs_before(s[k], x),
    ensures
        in_execution_order(s.insert(k, x)),
{
    let t = s.insert(k, x);
    assert forall|i: int, j: int| 0 <= i < j < t.len() implies runs_before(#[trigger] t[i], #[trigger] t[j]) by {
        if i < k && j == k {
        } else if i < k && j > k {
            assert(t[j] == s[j - 1]);
        } else if i == k && j > k {
            assert(t[j] == s[j - 1]);
            if j - 1 > k {
                assert(runs_before(s[k], s[j - 1]));
            }
        } else if i > k {
            assert(t[i] == s[i - 1] && t[j] == s[j - 1]);
        } else {
            assert(t[i] == s[i] && t[j] == s[j]);
        }
    }
}

impl DiffEngine {
    /// Puts the plan's actions in execution order: every directory creation
    /// comes before every other action, and before the creation of any
    /// longer path; the other actions come larger transfers first. The sort
    /// is stable: actions of equal rank keep their order.
    pub fn sort_actions(&self, plan: &mut SyncPlan)
        ensures
            views(final(plan).actions@).to_multiset() == views(old(plan).actions@).to_multiset(),
            in_execution_order(views(final(plan).actions@)),
            forall|x: ActionView| #[trigger] rank_class(views(final(plan).actions@), x) == rank_class(
                views(old(plan).actions@),
                x,
            ),
            final(plan).summary == old(plan).summary,
    {
        broadcast use vstd::seq_lib::group_to_multiset_ensures;
        let mut src: Vec<SyncAction> = Vec::new();
        std::mem::swap(&mut src, &mut plan.actions);
        let ghost all = views(src@);
        let mut sorted: Vec<SyncAction> = Vec::new();
        assert(views(sorted@).to_multiset() =~= vstd::multiset::Multiset::empty());
        assert(views(sorted@) =~= all.subrange(0, 0));
        let mut i: usize = 0;
        while i < src.len()
            invariant
                all == views(src@),
                i <= src@.len(),
                all == views(old(plan).actions@),
                in_execution_order(views(sorted@)),
                views(sorted@).to_multiset() == all.subrange(0, i as int).to_multiset(),
                forall|y: ActionView| #[trigger] rank_class(views(sorted@), y) == rank_class(all.subrange(0, i as int), y),
                plan.summary == old(plan).summary,
            decreases src@.len() - i,
        {
            let x = src[i].duplicate();
            proof {
                assert(all.subrange(0, i + 1) =~= all.subrange(0, i as int).push(x@));
                vstd::seq_lib::to_multiset_build(all.subrange(0, i as int), x@);
            }
            let mut k: usize = 0;
            let mut done = false;
            while !done && k < sorted.len()
                invariant
                    k <= sorted@.len(),
                    forall|j: int| 0 <= j < k ==> runs_before(#[trigger] views(sorted@)[j], x@),
                    done ==> k < sorted@.len() && !runs_before(views(sorted@)[k as int], x@),
                decreases sorted@.len() - k + (if done { 0int } else { 1int }),
            {
                if runs_before_exec(&sorted[k], &x) {
                    k = k + 1;
                } else {
                    done = true;
                }
            }
            let ghost before = views(sorted@);
            proof {
                lemma_insert_ordered(before, k as int, x@);
                vstd::seq_lib::to_multiset_insert(before, k as int, x@);
                assert forall|y: ActionView| #[trigger] rank_class(before.insert(k as int, x@), y) == rank_class(
                    all.subrange(0, i + 1),
                    y,
                ) by {
                    lemma_rank_class_insert(before, k as int, x@, y);
                    assert(all.subrange(0, i + 1).drop_last() =~= all.subrange(0, i as int));
                }
            }
            sorted.insert(k, x);
            assert(views(sorted@) =~= before.insert(k as int, x@));
            i = i + 1;
        }
        assert(all.subrange(0, all.len() as int) =~= all);
        plan.actions = sorted;
    }

    /// The bytes an action transfers.
    pub fn get_action_file_size(&self, action: &SyncAction) -> (r: u64)
        ensures
            r == size_of(action@),
    {
        action.transfer_size()
    }
}

/// Two actions of the same rank in the execution order.
pub open spec fn same_rank(a: ActionView, b: ActionView) -> bool {
    runs_before(a, b) && runs_before(b, a)
}

/// The actions of `s` with the rank of `x`, in their order in `s`.
pub open spec fn rank_class(s: Seq<ActionView>, x: ActionView) -> Seq<ActionView>
    decreases s.len(),
{
    if s.len() == 0 {
        Seq::empty()
    } else {
        let prev = rank_class(s.drop_last(), x);
        if same_rank(s.last(), x) { prev.push(s.last()) } else { prev }
    }
}

proof fn lemma_rank_class_concat(u: Seq<ActionView>, v: Seq<ActionView>, x: ActionView)
    ensures
        rank_class(u + v, x) == rank_class(u, x) + rank_class(v, x),
    decreases v.len(),
{
    if v.len() == 0 {
        assert(u + v =~= u);
        assert(rank_class(u, x) + rank_class(v, x) =~= rank_class(u, x));
    } else {
        assert((u + v).drop_last() =~= u + v.drop_last());
        lemma_rank_class_concat(u, v.drop_last(), x);
        assert((u + v).last() == v.last());
        if same_rank(v.last(), x) {
            assert(rank_class(u, x) + rank_class(v.drop_last(), x).push(v.last()) =~= (rank_class(u, x)
                + rank_class(v.drop_last(), x)).push(v.last()));
        }
    }
}

proof fn lemma_rank_class_none(v: Seq<ActionView>, x: ActionView)
    requires
        forall|i: int| 0 <= i < v.len() ==> !same_rank(#[trigger] v[i], x),
    ensures
        rank_class(v, x) == Seq::<ActionView>::empty(),
    decreases v.len(),
{
    if v.len() > 0 {
        lemma_rank_class_none(v.drop_last(), x);
    }
}

proof fn lemma_runs_before_transitive(a: ActionView, b: ActionView, c: ActionView)
    requires
        runs_before(a, b),
        runs_before(b, c),
    ensures
        runs_before(a, c),
{
}

proof fn lemma_rank_class_insert(t: Seq<ActionView>, k: int, a: ActionView, x: ActionView)
    requires
        0 <= k <= t.len(),
        in_execution_order(t),
        forall|i: int| 0 <= i < k ==> runs_before(#[trigger] t[i], a),
        k < t.len() ==> !runs_before(t[k], a),
    ensures
        rank_class(t.insert(k, a), x) == if same_rank(a, x) { rank_class(t, x).push(a) } else { rank_class(t, x) },
{
    let head = t.subrange(0, k);
    let tail = t.subrange(k, t.len() as int);
    assert(t.insert(k, a) =~= head + seq![a] + tail);
    assert(t =~= head + tail);
    lemma_rank_class_concat(head + seq![a], tail, x);
    lemma_rank_class_concat(head, seq![a], x);
    lemma_rank_class_concat(head, tail, x);
    assert(seq![a].drop_last() =~= Seq::<ActionView>::empty());
    assert(rank_class(Seq::<ActionView>::empty(), x) == Seq::<ActionView>::empty());
    assert(rank_class(seq![a], x) == if same_rank(a, x) { seq![a] } else { Seq::<ActionView>::empty() }) by {
        assert(rank_class(seq![a].drop_last(), x) == Seq::<ActionView>::empty());
        if same_rank(a, x) {
            assert(Seq::<ActionView>::empty().push(a) =~= seq![a]);
        }
    }
    assert(rank_class(t, x) == rank_class(head, x) + rank_class(tail, x));
    if same_rank(a, x) {
        assert forall|i: int| 0 <= i < tail.len() implies !same_rank(#[trigger] tail[i], x) by {
            if same_rank(tail[i], x) {
                lemma_runs_before_transitive(tail[i], x, a);
                if i > 0 {
                    assert(runs_before(t[k], t[k + i]));
                    lemma_runs_before_transitive(t[k], t[k + i], a);
                }
            }
        }
        lemma_rank_class_none(tail, x);
        assert(rank_class(head, x) + seq![a] + Seq::<ActionView>::empty() =~= (rank_class(head, x) + Seq::<
            ActionView,
        >::empty()).push(a));
        assert(rank_class(t, x) =~= rank_class(head, x) + Seq::<ActionView>::empty());
    } else {
        assert(rank_class(head, x) + Seq::<ActionView>::empty() =~= rank_class(head, x));
        assert(rank_class(head + seq![a], x) == rank_class(head, x));
    }
}

/// Whether `p` lies strictly inside the directory `dir`.
pub open spec fn is_under(p: Seq<char>, dir: Seq<char>) -> bool {
    p.len() > dir.len() && p.subrange(0, dir.len() as int) == dir && p[dir.len() as int] == '/'
}

/// In execution order, the creation of a directory comes before every
/// action on a path inside it.
pub proof fn lemma_directories_precede_contents(s: Seq<ActionView>, i: int, j: int)
    requires
        in_execution_order(s),
        0 <= i < s.len(),
        0 <= j < s.len(),
        s[i] is CreateDirectory,
        is_under(path_of(s[j]), path_of(s[i])),
    ensures
        i < j,
{
    if j < i {
        assert(runs_before(s[j], s[i]));
    }
}

} // verus!

verus! {

/// No two entries share a relative path.
pub open spec fn unique_paths(es: Seq<FileEntry>) -> bool {
    forall|i: int, j: int|
        0 <= i < es.len() && 0 <= j < es.len() && i != j ==> (#[trigger] es[i]).relative_path@
            != (#[trigger] es[j]).relative_path@
}

proof fn lemma_lookup_absent(es: Seq<FileEntry>, p: Seq<char>)
    requires
        forall|j: int| 0 <= j < es.len() ==> (#[trigger] es[j]).relative_path@ != p,
    ensures
        lookup(es, p) is None,
    decreases es.len(),
{
    if es.len() > 0 {
        lemma_lookup_absent(es.drop_last(), p);
    }
}

proof fn lemma_lookup_present(es: Seq<FileEntry>, i: int)
    requires
        0 <= i < es.len(),
    ensures
        lookup(es, es[i].relative_path@) is Some,
        lookup(es, es[i].relative_path@)->0.relative_path@ == es[i].relative_path@,
    decreases es.len(),
{
    let p = es[i].relative_path@;
    if i < es.len() - 1 {
        lemma_lookup_present(es.drop_last(), i);
    } else if lookup(es.drop_last(), p) is Some {
        lemma_lookup_result(es.drop_last(), p);
    }
}

proof fn lemma_lookup_result(es: Seq<FileEntry>, p: Seq<char>)
    requires
        lookup(es, p) is Some,
    ensures
        lookup(es, p)->0.relative_path@ == p,
    decreases es.len(),
{
    if es.len() > 0 && lookup(es.drop_last(), p) is Some {
        lemma_lookup_result(es.drop_last(), p);
    }
}

proof fn lemma_lookup_unique(es: Seq<FileEntry>, i: int)
    requires
        unique_paths(es),
        0 <= i < es.len(),
    ensures
        lookup(es, es[i].relative_path@) == Some(es[i]),
    decreases es.len(),
{
    let p = es[i].relative_path@;
    let d = es.drop_last();
    assert(unique_paths(d)) by {
        assert forall|a: int, b: int| 0 <= a < d.len() && 0 <= b < d.len() && a != b implies (#[trigger] d[a]).relative_path@
            != (#[trigger] d[b]).relative_path@ by {
            assert(d[a] == es[a] && d[b] == es[b]);
        }
    }
    if i < es.len() - 1 {
        lemma_lookup_unique(d, i);
    } else {
        assert forall|j: int| 0 <= j < d.len() implies (#[trigger] d[j]).relative_path@ != p by {
            assert(d[j] == es[j]);
        }
        lemma_lookup_absent(d, p);
    }
}

proof fn lemma_extra_actions(src: Seq<FileEntry>, dst: Seq<FileEntry>, de: bool)
    ensures
        forall|k: int| 0 <= k < extra_actions(src, dst, de).len() ==> {
            let a = #[trigger] extra_actions(src, dst, de)[k];
            &&& lookup(src, path_of(a)) is None
            &&& exists|j: int| 0 <= j < dst.len() && dst[j].relative_path@ == path_of(a)
            &&& (de ==> a is Delete)
            &&& (!de ==> a is Skip)
        },
        forall|j: int| 0 <= j < dst.len() && lookup(src, (#[trigger] dst[j]).relative_path@) is None ==> exists|k: int|
            0 <= k < extra_actions(src, dst, de).len() && path_of(#[trigger] extra_actions(src, dst, de)[k])
                == dst[j].relative_path@,
    decreases dst.len(),
{
    if dst.len() > 0 {
        let d = dst.drop_last();
        lemma_extra_actions(src, d, de);
        let prev = extra_actions(src, d, de);
        let cur = extra_actions(src, dst, de);
        assert forall|k: int| 0 <= k < cur.len() implies {
            let a = #[trigger] cur[k];
            &&& lookup(src, path_of(a)) is None
            &&& exists|j: int| 0 <= j < dst.len() && dst[j].relative_path@ == path_of(a)
            &&& (de ==> a is Delete)
            &&& (!de ==> a is Skip)
        } by {
            if k < prev.len() {
                assert(cur[k] == prev[k]);
                let a = prev[k];
                let j = choose|j: int| 0 <= j < d.len() && d[j].relative_path@ == path_of(a);
                assert(dst[j] == d[j]);
            } else {
                assert(dst[dst.len() - 1].relative_path@ == path_of(cur[k]));
            }
        }
        assert forall|j: int| 0 <= j < dst.len() && lookup(src, (#[trigger] dst[j]).relative_path@) is None implies exists|k: int|
            0 <= k < cur.len() && path_of(#[trigger] cur[k]) == dst[j].relative_path@ by {
            if j < d.len() {
                assert(d[j] == dst[j]);
                let k = choose|k: int| 0 <= k < prev.len() && path_of(#[trigger] prev[k]) == d[j].relative_path@;
                assert(cur[k] == prev[k]);
            } else {
                assert(path_of(cur[cur.len() - 1]) == dst[j].relative_path@);
            }
        }
    }
}

proof fn lemma_source_action_path(s: FileEntry, dst: Seq<FileEntry>, m: ComparisonMethod)
    requires
        source_action(s, dst, m) is Some,
    ensures
        path_of(source_action(s, dst, m)->0) == s.relative_path@,
        !(source_action(s, dst, m)->0 is Delete),
{
}

/// The plan for two enumerations covers each tree exactly once: the i-th
/// action is about the i-th source path and is no deletion; where source
/// paths are distinct, as a scan's are, no other action is about a source
/// path; every later action is about a destination-only
/// path, and every destination-only path has one. Those later actions are
/// deletions when extra entries are to be deleted, and skips otherwise, so
/// that without deletion the plan holds no deletion at all.
pub proof fn lemma_plan_covers_trees(src: Seq<FileEntry>, dst: Seq<FileEntry>, m: ComparisonMethod, delete_extra: bool)
    requires
        plan_possible(src, dst, m),
    ensures
        ({
            let p = planned(src, dst, m, delete_extra);
            &&& forall|i: int| 0 <= i < src.len() ==> path_of(#[trigger] p[i]) == src[i].relative_path@ && !(p[i] is Delete)
            &&& unique_paths(src) ==> forall|i: int, k: int| 0 <= i < src.len() && 0 <= k < p.len() && k != i ==> path_of(#[trigger] p[k])
                != (#[trigger] src[i]).relative_path@
            &&& forall|k: int| src.len() <= k < p.len() ==> {
                &&& lookup(src, path_of(#[trigger] p[k])) is None
                &&& exists|j: int| 0 <= j < dst.len() && dst[j].relative_path@ == path_of(p[k])
                &&& (delete_extra ==> p[k] is Delete)
                &&& (!delete_extra ==> p[k] is Skip)
            }
            &&& forall|j: int| 0 <= j < dst.len() && lookup(src, (#[trigger] dst[j]).relative_path@) is None ==> exists|k: int|
                src.len() <= k < p.len() && path_of(#[trigger] p[k]) == dst[j].relative_path@
        }),
{
    let p = planned(src, dst, m, delete_extra);
    let n = src.len() as int;
    let extra = extra_actions(src, dst, delete_extra);
    lemma_extra_actions(src, dst, delete_extra);
    assert forall|i: int| 0 <= i < src.len() implies path_of(#[trigger] p[i]) == src[i].relative_path@ && !(p[i] is Delete) by {
        assert(source_action(src[i], dst, m) is Some);
        lemma_source_action_path(src[i], dst, m);
    }
    assert forall|k: int| n <= k < p.len() implies {
        &&& lookup(src, path_of(#[trigger] p[k])) is None
        &&& exists|j: int| 0 <= j < dst.len() && dst[j].relative_path@ == path_of(p[k])
        &&& (delete_extra ==> p[k] is Delete)
        &&& (!delete_extra ==> p[k] is Skip)
    } by {
        assert(p[k] == extra[k - n]);
    }
    assert forall|i: int, k: int| unique_paths(src) && 0 <= i < src.len() && 0 <= k < p.len() && k != i implies path_of(#[trigger] p[k])
        != (#[trigger] src[i]).relative_path@ by {
        if k < n {
            assert(source_action(src[k], dst, m) is Some);
            lemma_source_action_path(src[k], dst, m);
        } else {
            assert(p[k] == extra[k - n]);
            lemma_lookup_present(src, i);
        }
    }
    assert forall|j: int| 0 <= j < dst.len() && lookup(src, (#[trigger] dst[j]).relative_path@) is None implies exists|k: int|
        n <= k < p.len() && path_of(#[trigger] p[k]) == dst[j].relative_path@ by {
        let k = choose|k: int| 0 <= k < extra.len() && path_of(#[trigger] extra[k]) == dst[j].relative_path@;
        assert(p[n + k] == extra[k]);
    }
}

/// The summary counts every action once and sums the bytes of copies and
/// updates, where the sum fits in 64 bits.
pub proof fn lemma_summary_totals(s: Seq<ActionView>)
    requires
        s.len() <= usize::MAX,
    ensures
        summary_of(s).total_actions == s.len(),
        count_of(s, FileOperation::Copy) + count_of(s, FileOperation::Update) + count_of(s, FileOperation::Delete)
            + count_of(s, FileOperation::CreateDirectory) + count_of(s, FileOperation::Conflict) + count_of(
            s,
            FileOperation::Skip,
        ) == s.len(),
        bytes_of(s) <= u64::MAX ==> summary_of(s).total_bytes_to_transfer == bytes_of(s),
    decreases s.len(),
{
    if s.len() > 0 {
        lemma_summary_totals(s.drop_last());
    }
}

/// Planning a tree against an identical copy of itself, as after a sync
/// that preserved modification times, produces skips only: nothing to copy,
/// update or delete.
pub proof fn lemma_resync_is_quiet(s: Seq<FileEntry>, m: ComparisonMethod, delete_extra: bool)
    requires
        unique_paths(s),
        plan_possible(s, s, m),
    ensures
        forall|k: int| 0 <= k < planned(s, s, m, delete_extra).len() ==> (#[trigger] planned(s, s, m, delete_extra)[k]) is Skip,
{
    let p = planned(s, s, m, delete_extra);
    let n = s.len() as int;
    lemma_extra_actions(s, s, delete_extra);
    assert forall|k: int| 0 <= k < p.len() implies (#[trigger] p[k]) is Skip by {
        if k < n {
            lemma_lookup_unique(s, k);
            assert(source_action(s[k], s, m) is Some);
        } else {
            let a = extra_actions(s, s, delete_extra)[k - n];
            assert(p[k] == a);
            let j = choose|j: int| 0 <= j < s.len() && s[j].relative_path@ == path_of(a);
            lemma_lookup_present(s, j);
        }
    }
}

/// Against an empty destination, every source entry is created: a
/// directory by a directory creation, a file by a copy of its size, in
/// source order, and nothing else is planned.
pub proof fn lemma_fresh_destination(src: Seq<FileEntry>, m: ComparisonMethod, delete_extra: bool)
    ensures
        plan_possible(src, Seq::empty(), m),
        planned(src, Seq::empty(), m, delete_extra) == src.map_values(|e: FileEntry| creation_action(e)),
{
    let p = planned(src, Seq::empty(), m, delete_extra);
    assert(extra_actions(src, Seq::empty(), delete_extra) =~= Seq::empty());
    assert(p =~= src.map_values(|e: FileEntry| creation_action(e)));
}

/// The plan for two enumerations, deleting destination-only entries.
pub fn generate_diff(
    source_entries: Vec<FileEntry>,
    dest_entries: Vec<FileEntry>,
    comparison_method: ComparisonMethod,
) -> (r: Result<SyncPlan, SyncError>)
    ensures
        (r is Ok) == plan_possible(source_entries@, dest_entries@, comparison_method),
        r matches Ok(p) ==> views(p.actions@) == planned(source_entries@, dest_entries@, comparison_method, true)
            && p.summary == summary_of(planned(source_entries@, dest_entries@, comparison_method, true)),
        r matches Err(e) ==> e is Comparison,
{
    DiffEngine::new().generate_plan(source_entries, dest_entries, comparison_method, true)
}

} // verus!
