//! Policy-driven conflict resolution.
//!
//! A resolver has a default strategy, an optional override per conflict
//! kind and an optional backup directory. Resolving a conflict picks the
//! strategy for its kind and applies it to the two files' attributes; the
//! resolution then maps to the action the executor performs.

use vstd::prelude::*;
use crate::diff::{ActionView, ConflictType, FileInfo, SyncAction};
use crate::error::SyncError;
use crate::text::{chars_of, concat_str, string_from_chars};

verus! {

/// How a conflict is resolved.
#[derive(Debug, Clone, Copy, PartialEq, Eq, Structural)]
pub enum ConflictStrategy {
    /// Use the source file.
    PreferSource,
    /// Keep the destination file.
    PreferDestination,
    /// Use the file modified later; the source on a tie.
    PreferNewer,
    /// Use the file modified earlier; the source on a tie.
    PreferOlder,
    /// Use the larger file; on a tie, the newer.
    PreferLarger,
    /// Use the smaller file; on a tie, the newer.
    PreferSmaller,
    /// Leave both alone.
    Skip,
    /// Back up the destination, then use the source.
    BackupAndUseSource,
    /// Back up the source, and keep the destination.
    BackupAndKeepDestination,
    /// Leave the decision to a person.
    Manual,
    /// Fail on the conflict.
    Fail,
}

impl Default for ConflictStrategy {
    fn default() -> (r: ConflictStrategy)
        ensures
            r == ConflictStrategy::Manual,
    {
        ConflictStrategy::Manual
    }
}

impl ConflictStrategy {
    /// The strategy's name, as used in metrics.
    pub fn name(&self) -> (r: &'static str)
        ensures
            r@ == strategy_name(*self),
    {
        match self {
            ConflictStrategy::PreferSource => "PreferSource",
            ConflictStrategy::PreferDestination => "PreferDestination",
            ConflictStrategy::PreferNewer => "PreferNewer",
            ConflictStrategy::PreferOlder => "PreferOlder",
            ConflictStrategy::PreferLarger => "PreferLarger",
            ConflictStrategy::PreferSmaller => "PreferSmaller",
            ConflictStrategy::Skip => "Skip",
            ConflictStrategy::BackupAndUseSource => "BackupAndUseSource",
            ConflictStrategy::BackupAndKeepDestination => "BackupAndKeepDestination",
            ConflictStrategy::Manual => "Manual",
            ConflictStrategy::Fail => "Fail",
        }
    }
}

/// The name of each strategy.
pub open spec fn strategy_name(s: ConflictStrategy) -> Seq<char> {
    match s {
        ConflictStrategy::PreferSource => "PreferSource"@,
        ConflictStrategy::PreferDestination => "PreferDestination"@,
        ConflictStrategy::PreferNewer => "PreferNewer"@,
        ConflictStrategy::PreferOlder => "PreferOlder"@,
        ConflictStrategy::PreferLarger => "PreferLarger"@,
        ConflictStrategy::PreferSmaller => "PreferSmaller"@,
        ConflictStrategy::Skip => "Skip"@,
        ConflictStrategy::BackupAndUseSource => "BackupAndUseSource"@,
        ConflictStrategy::BackupAndKeepDestination => "BackupAndKeepDestination"@,
        ConflictStrategy::Manual => "Manual"@,
        ConflictStrategy::Fail => "Fail"@,
    }
}

/// The verdict on a conflict.
#[derive(Debug, Clone, PartialEq)]
pub enum ConflictResolution {
    /// Use the source file.
    UseSource,
    /// Keep the destination file.
    UseDestination,
    /// Leave the conflict alone.
    Skip,
    /// Move the destination to the backup path, then use the source.
    BackupAndUseSource { backup_path: String },
    /// Move the source to the backup path, and keep the destination.
    BackupAndKeepDestination { backup_path: String },
    /// A person must decide.
    ManualRequired { source_info: FileInfo, destination_info: FileInfo, suggested_action: String },
    /// The policy refuses the conflict.
    Failed { reason: String },
}

/// A `ConflictResolution` with its strings seen as character sequences.
pub enum ResolutionView {
    UseSource,
    UseDestination,
    Skip,
    BackupAndUseSource { backup_path: Seq<char> },
    BackupAndKeepDestination { backup_path: Seq<char> },
    ManualRequired { source_info: FileInfo, destination_info: FileInfo, suggested_action: Seq<char> },
    Failed { reason: Seq<char> },
}

impl View for ConflictResolution {
    type V = ResolutionView;

    open spec fn view(&self) -> ResolutionView {
        match self {
            ConflictResolution::UseSource => ResolutionView::UseSource,
            ConflictResolution::UseDestination => ResolutionView::UseDestination,
            ConflictResolution::Skip => ResolutionView::Skip,
            ConflictResolution::BackupAndUseSource { backup_path } => ResolutionView::BackupAndUseSource {
                backup_path: backup_path@,
            },
            ConflictResolution::BackupAndKeepDestination { backup_path } =>
                ResolutionView::BackupAndKeepDestination { backup_path: backup_path@ },
            ConflictResolution::ManualRequired { source_info, destination_info, suggested_action } =>
                ResolutionView::ManualRequired {
                source_info: *source_info,
                destination_info: *destination_info,
                suggested_action: suggested_action@,
            },
            ConflictResolution::Failed { reason } => ResolutionView::Failed { reason: reason@ },
        }
    }
}

/// Ready-made resolver configurations.
#[derive(Debug, Clone, Copy, PartialEq, Eq, Structural)]
pub enum ConflictPreset {
    /// Manual by default; file/directory conflicts fail; type mismatches manual.
    SafeSync,
    /// Always the source.
    ForceSource,
    /// Always the destination.
    ForceDestination,
    /// The newer file.
    PreferNewer,
    /// Leave conflicts alone.
    SkipConflicts,
}

/// The name of a conflict kind.
pub open spec fn conflict_type_name(t: ConflictType) -> Seq<char> {
    match t {
        ConflictType::BothModified => "BothModified"@,
        ConflictType::FileDirectoryConflict => "FileDirectoryConflict"@,
        ConflictType::TypeMismatch => "TypeMismatch"@,
        ConflictType::PermissionConflict => "PermissionConflict"@,
        ConflictType::SizeMismatch => "SizeMismatch"@,
    }
}

fn conflict_type_str(t: ConflictType) -> (r: &'static str)
    ensures
        r@ == conflict_type_name(t),
{
    match t {
        ConflictType::BothModified => "BothModified",
        ConflictType::FileDirectoryConflict => "FileDirectoryConflict",
        ConflictType::TypeMismatch => "TypeMismatch",
        ConflictType::PermissionConflict => "PermissionConflict",
        ConflictType::SizeMismatch => "SizeMismatch",
    }
}

/// The side a strategy that compares attributes picks, as a resolution.
pub open spec fn by_time(newer_wins: bool, s: FileInfo, d: FileInfo) -> ResolutionView {
    if newer_wins {
        if s.modified >= d.modified { ResolutionView::UseSource } else { ResolutionView::UseDestination }
    } else {
        if s.modified <= d.modified { ResolutionView::UseSource } else { ResolutionView::UseDestination }
    }
}

/// The side a size-comparing strategy picks; ties fall back to the newer.
pub open spec fn by_size(larger_wins: bool, s: FileInfo, d: FileInfo) -> ResolutionView {
    if s.size == d.size {
        by_time(true, s, d)
    } else if (s.size > d.size) == larger_wins {
        ResolutionView::UseSource
    } else {
        ResolutionView::UseDestination
    }
}

/// The suggestion offered with a manual resolution.
pub open spec fn suggestion(s: FileInfo, d: FileInfo, t: ConflictType) -> Seq<char> {
    match t {
        ConflictType::BothModified => if s.modified > d.modified {
            "Source file is newer, consider using source"@
        } else if d.modified > s.modified {
            "Destination file is newer, consider keeping destination"@
        } else {
            "Files have same modification time, consider comparing content"@
        },
        ConflictType::FileDirectoryConflict => "File/directory conflict: consider renaming one of them"@,
        ConflictType::TypeMismatch => "File type mismatch: check if both files are needed"@,
        ConflictType::PermissionConflict => "Permission conflict: verify which permissions are correct"@,
        ConflictType::SizeMismatch => if s.size > d.size {
            "Source file is larger, may contain more data"@
        } else {
            "Destination file is larger, may contain more data"@
        },
    }
}

/// `p` without its trailing separators.
pub open spec fn trim_separators(p: Seq<char>) -> Seq<char>
    decreases p.len(),
{
    if p.len() > 0 && p.last() == '/' { trim_separators(p.drop_last()) } else { p }
}

/// The characters after the last separator.
pub open spec fn last_segment(p: Seq<char>) -> Seq<char>
    decreases p.len(),
{
    if p.len() == 0 || p.last() == '/' { Seq::empty() } else { last_segment(p.drop_last()).push(p.last()) }
}

/// The final component of a path, if it names an entry: not empty, `.` or
/// `..`.
pub open spec fn file_name(p: Seq<char>) -> Option<Seq<char>> {
    let n = last_segment(trim_separators(p));
    if n.len() == 0 || n == "."@ || n == ".."@ { None } else { Some(n) }
}

/// `name` placed inside `dir`.
pub open spec fn join_path(dir: Seq<char>, name: Seq<char>) -> Seq<char> {
    if dir.len() == 0 {
        name
    } else if dir.last() == '/' {
        dir + name
    } else {
        dir + "/"@ + name
    }
}

/// The backup path of a file: `<dir>/<name>_<suffix>.<stamp>`.
pub open spec fn backup_path_of(dir: Seq<char>, name: Seq<char>, suffix: Seq<char>, stamp: Seq<char>) -> Seq<char> {
    join_path(dir, name + "_"@ + suffix + "."@ + stamp)
}

/// The resolution a strategy gives, or `None` when it cannot be given:
/// a backup strategy without backup directory, or a path without file name.
/// `stamp` is the time stamp a backup name carries.
pub open spec fn resolution_for(
    strategy: ConflictStrategy,
    source: Seq<char>,
    destination: Seq<char>,
    t: ConflictType,
    s: FileInfo,
    d: FileInfo,
    backup_dir: Option<Seq<char>>,
    stamp: Seq<char>,
) -> Option<ResolutionView> {
    match strategy {
        ConflictStrategy::PreferSource => Some(ResolutionView::UseSource),
        ConflictStrategy::PreferDestination => Some(ResolutionView::UseDestination),
        ConflictStrategy::PreferNewer => Some(by_time(true, s, d)),
        ConflictStrategy::PreferOlder => Some(by_time(false, s, d)),
        ConflictStrategy::PreferLarger => Some(by_size(true, s, d)),
        ConflictStrategy::PreferSmaller => Some(by_size(false, s, d)),
        ConflictStrategy::Skip => Some(ResolutionView::Skip),
        ConflictStrategy::BackupAndUseSource => match (backup_dir, file_name(destination)) {
            (Some(dir), Some(n)) => Some(
                ResolutionView::BackupAndUseSource { backup_path: backup_path_of(dir, n, "dst"@, stamp) },
            ),
            _ => None,
        },
        ConflictStrategy::BackupAndKeepDestination => match (backup_dir, file_name(source)) {
            (Some(dir), Some(n)) => Some(
                ResolutionView::BackupAndKeepDestination { backup_path: backup_path_of(dir, n, "src"@, stamp) },
            ),
            _ => None,
        },
        ConflictStrategy::Manual => Some(
            ResolutionView::ManualRequired { source_info: s, destination_info: d, suggested_action: suggestion(s, d, t) },
        ),
        ConflictStrategy::Fail => Some(
            ResolutionView::Failed {
                reason: "Conflict resolution strategy is set to fail on conflict type: "@ + conflict_type_name(t),
            },
        ),
    }
}

/// Whether a result is the expected resolution, or a conflict-resolution
/// error where none is expected.
pub open spec fn outcome_matches(r: Result<ConflictResolution, SyncError>, expected: Option<ResolutionView>) -> bool {
    &&& (r is Ok) == (expected is Some)
    &&& r matches Ok(v) ==> v@ == expected->0
    &&& r matches Err(e) ==> e is ConflictResolution
}

/// Whether a strategy needs a time stamp for a backup name.
pub open spec fn uses_backup(strategy: ConflictStrategy) -> bool {
    strategy is BackupAndUseSource || strategy is BackupAndKeepDestination
}

/// Relies on `chrono::Utc::now` formatted with `%Y%m%d_%H%M%S`: the current
/// UTC time as a stamp. Nothing is assumed about its value.
#[verifier::external_body]
pub(crate) fn utc_stamp() -> (r: String) {
    chrono::Utc::now().format("%Y%m%d_%H%M%S").to_string()
}

fn trim_separators_exec(p: &Vec<char>) -> (r: usize)
    ensures
        r <= p@.len(),
        p@.subrange(0, r as int) == trim_separators(p@),
{
    let mut n = p.len();
    assert(p@.subrange(0, n as int) =~= p@);
    while n > 0 && p[n - 1] == '/'
        invariant
            n <= p@.len(),
            trim_separators(p@.subrange(0, n as int)) == trim_separators(p@),
        decreases n,
    {
        assert(p@.subrange(0, n as int).drop_last() =~= p@.subrange(0, n - 1));
        n = n - 1;
    }
    n
}

fn file_name_exec(path: &str) -> (r: Option<String>)
    ensures
        r matches Some(s) ==> file_name(path@) == Some(s@),
        r is None ==> file_name(path@) is None,
{
    let cs = chars_of(path);
    let end = trim_separators_exec(&cs);
    let ghost t = cs@.subrange(0, end as int);
    let mut start = end;
    while start > 0 && cs[start - 1] != '/'
        invariant
            start <= end,
            end <= cs@.len(),
            t == cs@.subrange(0, end as int),
            last_segment(t) == last_segment(cs@.subrange(0, start as int)) + cs@.subrange(start as int, end as int),
        decreases start,
    {
        assert(cs@.subrange(0, start as int).drop_last() =~= cs@.subrange(0, start - 1));
        assert(cs@.subrange(start - 1, end as int) =~= seq![cs@[start - 1]] + cs@.subrange(start as int, end as int));
        assert(last_segment(cs@.subrange(0, start as int)) == last_segment(cs@.subrange(0, start - 1)).push(cs@[start - 1]));
        start = start - 1;
        assert(last_segment(t) =~= last_segment(cs@.subrange(0, start as int)) + cs@.subrange(start as int, end as int));
    }
    assert(last_segment(cs@.subrange(0, start as int)) =~= Seq::<char>::empty());
    let mut name: Vec<char> = Vec::new();
    let mut i = start;
    while i < end
        invariant
            start <= i <= end,
            end <= cs@.len(),
            name@ == cs@.subrange(start as int, i as int),
        decreases end - i,
    {
        name.push(cs[i]);
        i = i + 1;
        assert(name@ =~= cs@.subrange(start as int, i as int));
    }
    assert(name@ =~= last_segment(t));
    let len = name.len();
    proof {
        reveal_strlit(".");
        reveal_strlit("..");
    }
    if len == 0 || (len == 1 && name[0] == '.') || (len == 2 && name[0] == '.' && name[1] == '.') {
        if len == 1 {
            assert(name@ =~= "."@);
        }
        if len == 2 {
            assert(name@ =~= ".."@);
        }
        assert(file_name(path@) is None);
        None
    } else {
        assert(name@ != "."@ && name@ != ".."@) by {
            if name@ == "."@ {
                assert(name@[0] == '.');
            }
            if name@ == ".."@ {
                assert(name@[0] == '.' && name@[1] == '.');
            }
        }
        Some(string_from_chars(&name))
    }
}

pub(crate) fn join_path_exec(dir: &str, name: &str) -> (r: String)
    ensures
        r@ == join_path(dir@, name@),
{
    let cs = chars_of(dir);
    if cs.len() == 0 {
        name.to_owned()
    } else if cs[cs.len() - 1] == '/' {
        concat_str(dir, name)
    } else {
        let with_sep = concat_str(dir, "/");
        concat_str(with_sep.as_str(), name)
    }
}

/// Resolves conflicts by strategy.
pub struct ConflictResolver {
    default_strategy: ConflictStrategy,
    both_modified: Option<ConflictStrategy>,
    file_directory: Option<ConflictStrategy>,
    type_mismatch: Option<ConflictStrategy>,
    permission: Option<ConflictStrategy>,
    size_mismatch: Option<ConflictStrategy>,
    backup_directory: Option<String>,
}

impl ConflictResolver {
    /// The strategy used where no override is set.
    pub closed spec fn fallback(&self) -> ConflictStrategy {
        self.default_strategy
    }

    /// The override set for a conflict kind.
    pub closed spec fn override_for(&self, t: ConflictType) -> Option<ConflictStrategy> {
        match t {
            ConflictType::BothModified => self.both_modified,
            ConflictType::FileDirectoryConflict => self.file_directory,
            ConflictType::TypeMismatch => self.type_mismatch,
            ConflictType::PermissionConflict => self.permission,
            ConflictType::SizeMismatch => self.size_mismatch,
        }
    }

    /// The strategy applied to conflicts of kind `t`.
    pub open spec fn strategy_for(&self, t: ConflictType) -> ConflictStrategy {
        match self.override_for(t) {
            Some(s) => s,
            None => self.fallback(),
        }
    }

    /// The backup directory, if configured.
    pub closed spec fn backup_dir(&self) -> Option<Seq<char>> {
        match self.backup_directory {
            Some(d) => Some(d@),
            None => None,
        }
    }

    /// A resolver with a default strategy and no overrides.
    pub fn new(default_strategy: ConflictStrategy) -> (r: ConflictResolver)
        ensures
            r.fallback() == default_strategy,
            forall|t: ConflictType| r.override_for(t) is None,
            r.backup_dir() is None,
    {
        ConflictResolver {
            default_strategy,
            both_modified: None,
            file_directory: None,
            type_mismatch: None,
            permission: None,
            size_mismatch: None,
            backup_directory: None,
        }
    }

    /// The default strategy.
    pub fn default_strategy(&self) -> (r: ConflictStrategy)
        ensures
            r == self.fallback(),
    {
        self.default_strategy
    }

    /// The strategy applied to conflicts of one kind.
    pub fn strategy_for_type(&self, conflict_type: ConflictType) -> (r: ConflictStrategy)
        ensures
            r == self.strategy_for(conflict_type),
    {
        let o = match conflict_type {
            ConflictType::BothModified => self.both_modified,
            ConflictType::FileDirectoryConflict => self.file_directory,
            ConflictType::TypeMismatch => self.type_mismatch,
            ConflictType::PermissionConflict => self.permission,
            ConflictType::SizeMismatch => self.size_mismatch,
        };
        match o {
            Some(s) => s,
            None => self.default_strategy,
        }
    }

    /// Overrides the strategy for one conflict kind.
    pub fn set_strategy_for_type(&mut self, conflict_type: ConflictType, strategy: ConflictStrategy)
        ensures
            final(self).fallback() == old(self).fallback(),
            final(self).backup_dir() == old(self).backup_dir(),
            final(self).override_for(conflict_type) == Some(strategy),
            forall|t: ConflictType| t != conflict_type ==> final(self).override_for(t) == old(self).override_for(t),
    {
        match conflict_type {
            ConflictType::BothModified => self.both_modified = Some(strategy),
            ConflictType::FileDirectoryConflict => self.file_directory = Some(strategy),
            ConflictType::TypeMismatch => self.type_mismatch = Some(strategy),
            ConflictType::PermissionConflict => self.permission = Some(strategy),
            ConflictType::SizeMismatch => self.size_mismatch = Some(strategy),
        }
    }

    /// Sets the directory backups are placed in.
    pub fn set_backup_directory(&mut self, path: String)
        ensures
            final(self).fallback() == old(self).fallback(),
            final(self).backup_dir() == Some(path@),
            forall|t: ConflictType| final(self).override_for(t) == old(self).override_for(t),
    {
        self.backup_directory = Some(path);
    }

    /// Applies the strategy for the conflict's kind, with `stamp` as the
    /// time stamp of a backup name.
    pub fn resolve_conflict_at(
        &self,
        source: &str,
        destination: &str,
        conflict_type: ConflictType,
        source_info: &FileInfo,
        destination_info: &FileInfo,
        stamp: &str,
    ) -> (r: Result<ConflictResolution, SyncError>)
        ensures
            ({
                let expected = resolution_for(
                    self.strategy_for(conflict_type),
                    source@,
                    destination@,
                    conflict_type,
                    *source_info,
                    *destination_info,
                    self.backup_dir(),
                    stamp@,
                );
                &&& (r is Ok) == (expected is Some)
                &&& r matches Ok(v) ==> v@ == expected->0
                &&& r matches Err(e) ==> e is ConflictResolution
            }),
    {
        let strategy = self.strategy_for_type(conflict_type);
        self.apply_strategy(strategy, source, destination, conflict_type, source_info, destination_info, stamp)
    }

    /// Applies the strategy for the conflict's kind. Backup strategies name
    /// the backup with the current UTC time, whatever it is.
    pub fn resolve_conflict(
        &self,
        source: &str,
        destination: &str,
        conflict_type: ConflictType,
        source_info: &FileInfo,
        destination_info: &FileInfo,
    ) -> (r: Result<ConflictResolution, SyncError>)
        ensures
            exists|stamp: Seq<char>|
                outcome_matches(
                    r,
                    #[trigger] resolution_for(
                        self.strategy_for(conflict_type),
                        source@,
                        destination@,
                        conflict_type,
                        *source_info,
                        *destination_info,
                        self.backup_dir(),
                        stamp,
                    ),
                ),
            !uses_backup(self.strategy_for(conflict_type)) ==> {
                let expected = resolution_for(
                    self.strategy_for(conflict_type),
                    source@,
                    destination@,
                    conflict_type,
                    *source_info,
                    *destination_info,
                    self.backup_dir(),
                    Seq::empty(),
                );
                &&& r is Ok
                &&& r->Ok_0@ == expected->0
            },
    {
        let strategy = self.strategy_for_type(conflict_type);
        let stamp = match strategy {
            ConflictStrategy::BackupAndUseSource | ConflictStrategy::BackupAndKeepDestination => utc_stamp(),
            _ => String::new(),
        };
        let r = self.apply_strategy(strategy, source, destination, conflict_type, source_info, destination_info, stamp.as_str());
        assert(outcome_matches(
            r,
            resolution_for(strategy, source@, destination@, conflict_type, *source_info, *destination_info, self.backup_dir(), stamp@),
        ));
        r
    }

    /// Applies one strategy.
    pub fn apply_strategy(
        &self,
        strategy: ConflictStrategy,
        source: &str,
        destination: &str,
        conflict_type: ConflictType,
        source_info: &FileInfo,
        destination_info: &FileInfo,
        stamp: &str,
    ) -> (r: Result<ConflictResolution, SyncError>)
        ensures
            ({
                let expected = resolution_for(
                    strategy,
                    source@,
                    destination@,
                    conflict_type,
                    *source_info,
                    *destination_info,
                    self.backup_dir(),
                    stamp@,
                );
                &&& (r is Ok) == (expected is Some)
                &&& r matches Ok(v) ==> v@ == expected->0
                &&& r matches Err(e) ==> e is ConflictResolution
            }),
    {
        let s = source_info;
        let d = destination_info;
        match strategy {
            ConflictStrategy::PreferSource => Ok(ConflictResolution::UseSource),
            ConflictStrategy::PreferDestination => Ok(ConflictResolution::UseDestination),
            ConflictStrategy::PreferNewer => Ok(
                if s.modified >= d.modified { ConflictResolution::UseSource } else { ConflictResolution::UseDestination },
            ),
            ConflictStrategy::PreferOlder => Ok(
                if s.modified <= d.modified { ConflictResolution::UseSource } else { ConflictResolution::UseDestination },
            ),
            ConflictStrategy::PreferLarger | ConflictStrategy::PreferSmaller => {
                let larger_wins = strategy == ConflictStrategy::PreferLarger;
                if s.size == d.size {
                    Ok(if s.modified >= d.modified { ConflictResolution::UseSource } else { ConflictResolution::UseDestination })
                } else if (s.size > d.size) == larger_wins {
                    Ok(ConflictResolution::UseSource)
                } else {
                    Ok(ConflictResolution::UseDestination)
                }
            },
            ConflictStrategy::Skip => Ok(ConflictResolution::Skip),
            ConflictStrategy::BackupAndUseSource => {
                let p = self.generate_backup_path(destination, "dst", stamp)?;
                Ok(ConflictResolution::BackupAndUseSource { backup_path: p })
            },
            ConflictStrategy::BackupAndKeepDestination => {
                let p = self.generate_backup_path(source, "src", stamp)?;
                Ok(ConflictResolution::BackupAndKeepDestination { backup_path: p })
            },
            ConflictStrategy::Manual => Ok(
                ConflictResolution::ManualRequired {
                    source_info: s.duplicate(),
                    destination_info: d.duplicate(),
                    suggested_action: self.suggest_resolution(s, d, conflict_type),
                },
            ),
            ConflictStrategy::Fail => Ok(
                ConflictResolution::Failed {
                    reason: concat_str(
                        "Conflict resolution strategy is set to fail on conflict type: ",
                        conflict_type_str(conflict_type),
                    ),
                },
            ),
        }
    }

    /// The backup path for a file: `<dir>/<name>_<suffix>.<stamp>`.
    pub fn generate_backup_path(&self, path: &str, suffix: &str, stamp: &str) -> (r: Result<String, SyncError>)
        ensures
            (r is Ok) == (self.backup_dir() is Some && file_name(path@) is Some),
            r matches Ok(p) ==> p@ == backup_path_of(self.backup_dir()->0, file_name(path@)->0, suffix@, stamp@),
            r matches Err(e) ==> e is ConflictResolution,
            self.backup_dir() is None ==> r == Err::<String, SyncError>(SyncError::ConflictResolution(
                r->Err_0->ConflictResolution_0,
            )) && r->Err_0->ConflictResolution_0@ == "No backup directory configured"@,
    {
        let dir = match &self.backup_directory {
            Some(d) => d,
            None => {
                return Err(SyncError::ConflictResolution("No backup directory configured".to_owned()));
            },
        };
        let name = match file_name_exec(path) {
            Some(n) => n,
            None => {
                let m = concat_str("Invalid file name: ", path);
                return Err(SyncError::ConflictResolution(m));
            },
        };
        let a = concat_str(name.as_str(), "_");
        let b = concat_str(a.as_str(), suffix);
        let c = concat_str(b.as_str(), ".");
        let backup_name = concat_str(c.as_str(), stamp);
        assert(backup_name@ =~= name@ + "_"@ + suffix@ + "."@ + stamp@);
        Ok(join_path_exec(dir.as_str(), backup_name.as_str()))
    }

    /// The suggestion offered with a manual resolution.
    pub fn suggest_resolution(&self, source_info: &FileInfo, destination_info: &FileInfo, conflict_type: ConflictType) -> (r: String)
        ensures
            r@ == suggestion(*source_info, *destination_info, conflict_type),
    {
        let s = source_info;
        let d = destination_info;
        let text = match conflict_type {
            ConflictType::BothModified => if s.modified > d.modified {
                "Source file is newer, consider using source"
            } else if d.modified > s.modified {
                "Destination file is newer, consider keeping destination"
            } else {
                "Files have same modification time, consider comparing content"
            },
            ConflictType::FileDirectoryConflict => "File/directory conflict: consider renaming one of them",
            ConflictType::TypeMismatch => "File type mismatch: check if both files are needed",
            ConflictType::PermissionConflict => "Permission conflict: verify which permissions are correct",
            ConflictType::SizeMismatch => if s.size > d.size {
                "Source file is larger, may contain more data"
            } else {
                "Destination file is larger, may contain more data"
            },
        };
        text.to_owned()
    }
}

/// The action a resolution maps to: `Ok(None)` when a person must decide,
/// `Err` with the reason when the policy refused the conflict.
pub open spec fn resolution_action(
    res: ResolutionView,
    source: Seq<char>,
    destination: Seq<char>,
    s: FileInfo,
) -> Result<Option<ActionView>, Seq<char>> {
    match res {
        ResolutionView::UseSource | ResolutionView::BackupAndUseSource { .. } => Ok(
            Some(ActionView::Update { source, destination, file_size: s.size }),
        ),
        ResolutionView::UseDestination => Ok(
            Some(ActionView::Skip { path: destination, reason: "Keeping destination file due to conflict resolution"@ }),
        ),
        ResolutionView::Skip => Ok(Some(ActionView::Skip { path: destination, reason: "Skipped due to conflict"@ })),
        ResolutionView::BackupAndKeepDestination { .. } => Ok(
            Some(ActionView::Skip { path: destination, reason: "Keeping destination file with backup of source"@ }),
        ),
        ResolutionView::ManualRequired { .. } => Ok(None),
        ResolutionView::Failed { reason } => Err(reason),
    }
}

impl Default for ConflictResolver {
    fn default() -> (r: ConflictResolver)
        ensures
            r.fallback() == ConflictStrategy::Manual,
            forall|t: ConflictType| r.override_for(t) is None,
            r.backup_dir() is None,
    {
        ConflictResolver::new(ConflictStrategy::Manual)
    }
}

impl ConflictResolver {
    /// The action a resolution maps to.
    pub fn resolution_to_action(
        &self,
        resolution: ConflictResolution,
        source: String,
        destination: String,
        source_info: &FileInfo,
    ) -> (r: Result<Option<SyncAction>, SyncError>)
        ensures
            match resolution_action(resolution@, source@, destination@, *source_info) {
                Ok(None) => r matches Ok(None),
                Ok(Some(a)) => r matches Ok(Some(x)) && x@ == a,
                Err(reason) => r matches Err(SyncError::ConflictResolution(m)) && m@ == reason,
            },
    {
        match resolution {
            ConflictResolution::UseSource | ConflictResolution::BackupAndUseSource { .. } => Ok(
                Some(SyncAction::Update { source, destination, file_size: source_info.size }),
            ),
            ConflictResolution::UseDestination => Ok(
                Some(SyncAction::Skip {
                    path: destination,
                    reason: "Keeping destination file due to conflict resolution".to_owned(),
                }),
            ),
            ConflictResolution::Skip => Ok(
                Some(SyncAction::Skip { path: destination, reason: "Skipped due to conflict".to_owned() }),
            ),
            ConflictResolution::BackupAndKeepDestination { .. } => Ok(
                Some(SyncAction::Skip {
                    path: destination,
                    reason: "Keeping destination file with backup of source".to_owned(),
                }),
            ),
            ConflictResolution::ManualRequired { .. } => Ok(None),
            ConflictResolution::Failed { reason } => Err(SyncError::ConflictResolution(reason)),
        }
    }

    /// A resolver configured by a preset.
    pub fn with_preset(preset: ConflictPreset) -> (r: ConflictResolver)
        ensures
            r.fallback() == preset_default(preset),
            forall|t: ConflictType| r.override_for(t) == preset_override(preset, t),
            r.backup_dir() is None,
    {
        let mut resolver = match preset {
            ConflictPreset::SafeSync => ConflictResolver::new(ConflictStrategy::Manual),
            ConflictPreset::ForceSource => ConflictResolver::new(ConflictStrategy::PreferSource),
            ConflictPreset::ForceDestination => ConflictResolver::new(ConflictStrategy::PreferDestination),
            ConflictPreset::PreferNewer => ConflictResolver::new(ConflictStrategy::PreferNewer),
            ConflictPreset::SkipConflicts => ConflictResolver::new(ConflictStrategy::Skip),
        };
        if preset == ConflictPreset::SafeSync {
            resolver.set_strategy_for_type(ConflictType::FileDirectoryConflict, ConflictStrategy::Fail);
            resolver.set_strategy_for_type(ConflictType::TypeMismatch, ConflictStrategy::Manual);
        }
        resolver
    }
}

/// The default strategy of each preset.
pub open spec fn preset_default(p: ConflictPreset) -> ConflictStrategy {
    match p {
        ConflictPreset::SafeSync => ConflictStrategy::Manual,
        ConflictPreset::ForceSource => ConflictStrategy::PreferSource,
        ConflictPreset::ForceDestination => ConflictStrategy::PreferDestination,
        ConflictPreset::PreferNewer => ConflictStrategy::PreferNewer,
        ConflictPreset::SkipConflicts => ConflictStrategy::Skip,
    }
}

/// The per-kind overrides of each preset.
pub open spec fn preset_override(p: ConflictPreset, t: ConflictType) -> Option<ConflictStrategy> {
    if p is SafeSync && t is FileDirectoryConflict {
        Some(ConflictStrategy::Fail)
    } else if p is SafeSync && t is TypeMismatch {
        Some(ConflictStrategy::Manual)
    } else {
        None
    }
}

/// Every strategy but the two backup strategies resolves a conflict from
/// the two files' attributes and the conflict kind alone: the paths, the
/// backup directory and the time stamp make no difference. Those that take
/// no attribute into account (prefer source, prefer destination, skip)
/// resolve every conflict alike.
pub proof fn lemma_resolution_depends_on_files_only(
    strategy: ConflictStrategy,
    t: ConflictType,
    s: FileInfo,
    d: FileInfo,
    source1: Seq<char>,
    destination1: Seq<char>,
    backup1: Option<Seq<char>>,
    stamp1: Seq<char>,
    source2: Seq<char>,
    destination2: Seq<char>,
    backup2: Option<Seq<char>>,
    stamp2: Seq<char>,
)
    requires
        !uses_backup(strategy),
    ensures
        resolution_for(strategy, source1, destination1, t, s, d, backup1, stamp1) == resolution_for(
            strategy,
            source2,
            destination2,
            t,
            s,
            d,
            backup2,
            stamp2,
        ),
        resolution_for(strategy, source1, destination1, t, s, d, backup1, stamp1) is Some,
        strategy is PreferSource ==> resolution_for(strategy, source1, destination1, t, s, d, backup1, stamp1)
            == Some(ResolutionView::UseSource),
        strategy is PreferDestination ==> resolution_for(strategy, source1, destination1, t, s, d, backup1, stamp1)
            == Some(ResolutionView::UseDestination),
        strategy is Skip ==> resolution_for(strategy, source1, destination1, t, s, d, backup1, stamp1) == Some(
            ResolutionView::Skip,
        ),
        strategy is Manual ==> resolution_for(strategy, source1, destination1, t, s, d, backup1, stamp1) is Some
            && resolution_for(strategy, source1, destination1, t, s, d, backup1, stamp1)->0 is ManualRequired,
        strategy is Fail ==> resolution_for(strategy, source1, destination1, t, s, d, backup1, stamp1) is Some
            && resolution_for(strategy, source1, destination1, t, s, d, backup1, stamp1)->0 is Failed,
{
}

/// The attribute strategies decide by modification time or size alone:
/// newer and older by time, with the source winning a tie; larger and
/// smaller by size, falling back to the newer on equal sizes.
pub proof fn lemma_attribute_strategies(
    t: ConflictType,
    s: FileInfo,
    d: FileInfo,
    source: Seq<char>,
    destination: Seq<char>,
    backup: Option<Seq<char>>,
    stamp: Seq<char>,
)
    ensures
        resolution_for(ConflictStrategy::PreferNewer, source, destination, t, s, d, backup, stamp) == Some(
            if s.modified >= d.modified { ResolutionView::UseSource } else { ResolutionView::UseDestination },
        ),
        resolution_for(ConflictStrategy::PreferOlder, source, destination, t, s, d, backup, stamp) == Some(
            if s.modified <= d.modified { ResolutionView::UseSource } else { ResolutionView::UseDestination },
        ),
        resolution_for(ConflictStrategy::PreferLarger, source, destination, t, s, d, backup, stamp) == Some(
            if s.size > d.size || (s.size == d.size && s.modified >= d.modified) {
                ResolutionView::UseSource
            } else {
                ResolutionView::UseDestination
            },
        ),
        resolution_for(ConflictStrategy::PreferSmaller, source, destination, t, s, d, backup, stamp) == Some(
            if s.size < d.size || (s.size == d.size && s.modified >= d.modified) {
                ResolutionView::UseSource
            } else {
                ResolutionView::UseDestination
            },
        ),
{
}

} // verus!
