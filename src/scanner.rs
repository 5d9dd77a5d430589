//! Scan results and the rules that decide which walked entries are kept.
//!
//! Walking the directory tree and reading metadata is done by the
//! application with the `walkdir` and `ignore` crates. Each visited entry
//! becomes a `FileEntry`; the scanner decides which of them are emitted,
//! which need a content digest, and how permission bits are synthesized on
//! hosts without POSIX modes.

use vstd::prelude::*;
use crate::filter::{FileFilter, FilterOptions, all_admit_path, all_admit_size, ClauseView, copy_options};
use crate::text::{is_hidden, is_hidden_path};
use crate::error::SyncError;
pub use crate::digest::HashAlgorithm;

verus! {

/// Whether an optional filter's patterns compile.
pub open spec fn filter_compiles(o: Option<FilterOptions>) -> bool {
    o matches Some(f) ==> crate::filter::options_compile(f)
}

/// Options for directory scanning.
#[derive(Debug, Clone)]
pub struct ScanOptions {
    /// Follow symbolic links.
    pub follow_links: bool,
    /// Maximum recursion depth (`None`: unlimited).
    pub max_depth: Option<usize>,
    /// Emit hidden entries.
    pub include_hidden: bool,
    /// Honour `.gitignore`-style files found along the walk.
    pub respect_ignore_files: bool,
    /// Path and size filter applied to emitted entries.
    pub filter_options: Option<FilterOptions>,
    /// Compute a content digest for each file.
    pub collect_hashes: bool,
    /// Digest algorithm used when `collect_hashes` is set.
    pub hash_algorithm: HashAlgorithm,
}

impl Default for ScanOptions {
    fn default() -> (r: ScanOptions)
        ensures
            !r.follow_links,
            r.max_depth is None,
            !r.include_hidden,
            r.respect_ignore_files,
            r.filter_options is None,
            !r.collect_hashes,
            r.hash_algorithm == HashAlgorithm::Blake3,
    {
        ScanOptions {
            follow_links: false,
            max_depth: None,
            include_hidden: false,
            respect_ignore_files: true,
            filter_options: None,
            collect_hashes: false,
            hash_algorithm: HashAlgorithm::Blake3,
        }
    }
}

/// One visited file or directory.
///
/// Times are nanoseconds relative to the Unix epoch.
#[derive(Debug, Clone)]
pub struct FileEntry {
    /// Path including the scan root.
    pub path: String,
    /// Path relative to the scan root, components separated by `/`.
    pub relative_path: String,
    /// Size in bytes.
    pub size: u64,
    /// Last modification time.
    pub modified: i128,
    /// Creation time, where the host records it.
    pub created: Option<i128>,
    /// Whether the entry is a directory.
    pub is_dir: bool,
    /// Whether the entry is a symbolic link.
    pub is_symlink: bool,
    /// Content digest, when the scan computed one.
    pub hash: Option<String>,
    /// POSIX permission bits.
    pub permissions: u32,
}

/// Permission bits for hosts without POSIX modes: read-only entries read as
/// `0o444`, writable ones as `0o666`.
pub open spec fn synthesized_mode(readonly: bool) -> u32 {
    if readonly { 0o444 } else { 0o666 }
}

/// Computes `synthesized_mode`.
pub fn synthesize_permissions(readonly: bool) -> (r: u32)
    ensures
        r == synthesized_mode(readonly),
{
    if readonly { 0o444 } else { 0o666 }
}

/// Whether a scanner with these settings emits an entry.
///
/// Hidden entries are dropped unless allowed; with a filter, the path must
/// pass every clause and a file's size must lie within every clause's bounds.
pub open spec fn entry_emitted(
    include_hidden: bool,
    clauses: Option<Seq<ClauseView>>,
    rel: Seq<char>,
    is_dir: bool,
    size: u64,
) -> bool {
    &&& include_hidden || !is_hidden_path(rel)
    &&& clauses matches Some(cs) ==> {
        &&& all_admit_path(cs, rel)
        &&& (!is_dir ==> all_admit_size(cs, size))
    }
}

/// Scanner settings together with the compiled filter.
pub struct DirectoryScanner {
    options: ScanOptions,
    filter: Option<FileFilter>,
}

impl DirectoryScanner {
    /// The clauses of the scanner's filter, if it has one.
    pub closed spec fn clauses(&self) -> Option<Seq<ClauseView>> {
        match self.filter {
            Some(f) => Some(f.clauses()),
            None => None,
        }
    }

    /// Whether hidden entries are emitted.
    pub closed spec fn includes_hidden(&self) -> bool {
        self.options.include_hidden
    }

    /// Whether files get a digest, and with which algorithm.
    pub closed spec fn digest_setting(&self) -> (bool, HashAlgorithm) {
        (self.options.collect_hashes, self.options.hash_algorithm)
    }

    /// Makes a scanner, or fails when the filter's patterns do not compile.
    pub fn new(options: ScanOptions) -> (res: Result<DirectoryScanner, SyncError>)
        ensures
            (res is Ok) == filter_compiles(options.filter_options),
            res matches Ok(r) ==> {
                &&& r.includes_hidden() == options.include_hidden
                &&& r.digest_setting() == (options.collect_hashes, options.hash_algorithm)
                &&& options.filter_options is None ==> r.clauses() is None
                &&& options.filter_options matches Some(o) ==> r.clauses() == Some(seq![o@])
            },
            res matches Err(e) ==> e is FilterPattern,
    {
        let filter = match &options.filter_options {
            Some(o) => match FileFilter::new(copy_options(o)) {
                Ok(f) => Some(f),
                Err(e) => {
                    return Err(e);
                },
            },
            None => None,
        };
        Ok(DirectoryScanner { options, filter })
    }

    /// The options the scanner was made with.
    pub fn options(&self) -> (r: &ScanOptions)
        ensures
            r.include_hidden == self.includes_hidden(),
            (r.collect_hashes, r.hash_algorithm) == self.digest_setting(),
    {
        &self.options
    }

    /// Whether a walked entry is emitted.
    pub fn admits(&self, relative_path: &str, is_dir: bool, size: u64) -> (r: bool)
        ensures
            r == entry_emitted(self.includes_hidden(), self.clauses(), relative_path@, is_dir, size),
    {
        if !self.options.include_hidden && is_hidden(relative_path) {
            return false;
        }
        match &self.filter {
            Some(f) => f.should_include(relative_path) && (is_dir || f.should_include_size(size)),
            None => true,
        }
    }

    /// Whether a walked entry gets a content digest: files do, when the
    /// options ask for digests.
    pub fn wants_digest(&self, is_dir: bool) -> (r: bool)
        ensures
            r == (self.digest_setting().0 && !is_dir),
    {
        self.options.collect_hashes && !is_dir
    }

    /// Keeps the entries the scanner emits, in their order.
    pub fn select(&self, entries: &Vec<FileEntry>) -> (r: Vec<FileEntry>)
        ensures
            r@ == emitted(self.includes_hidden(), self.clauses(), entries@),
    {
        let mut out: Vec<FileEntry> = Vec::new();
        let mut i: usize = 0;
        while i < entries.len()
            invariant
                i <= entries@.len(),
                out@ == emitted(self.includes_hidden(), self.clauses(), entries@.subrange(0, i as int)),
            decreases entries@.len() - i,
        {
            let e = &entries[i];
            let keep = self.admits(e.relative_path.as_str(), e.is_dir, e.size);
            assert(entries@.subrange(0, i + 1).drop_last() =~= entries@.subrange(0, i as int));
            if keep {
                out.push(e.duplicate());
            }
            i = i + 1;
        }
        assert(entries@.subrange(0, entries@.len() as int) =~= entries@);
        out
    }
}

/// The entries of `es` that are emitted, in order.
pub open spec fn emitted(include_hidden: bool, clauses: Option<Seq<ClauseView>>, es: Seq<FileEntry>) -> Seq<FileEntry>
    decreases es.len(),
{
    if es.len() == 0 {
        Seq::empty()
    } else {
        let prev = emitted(include_hidden, clauses, es.drop_last());
        let e = es.last();
        if entry_emitted(include_hidden, clauses, e.relative_path@, e.is_dir, e.size) {
            prev.push(e)
        } else {
            prev
        }
    }
}

/// A copy of an optional string.
pub fn copy_opt_string(s: &Option<String>) -> (r: Option<String>)
    ensures
        r == *s,
{
    match s {
        Some(x) => Some(x.clone()),
        None => None,
    }
}

impl FileEntry {
    /// A copy of the entry.
    pub fn duplicate(&self) -> (r: FileEntry)
        ensures
            r == *self,
    {
        FileEntry {
            path: self.path.clone(),
            relative_path: self.relative_path.clone(),
            size: self.size,
            modified: self.modified,
            created: self.created,
            is_dir: self.is_dir,
            is_symlink: self.is_symlink,
            hash: copy_opt_string(&self.hash),
            permissions: self.permissions,
        }
    }
}

/// The total size of the entries.
pub open spec fn total_size(es: Seq<FileEntry>) -> nat
    decreases es.len(),
{
    if es.len() == 0 { 0 } else { total_size(es.drop_last()) + es.last().size as nat }
}

/// The total size of the entries, capped at the largest `u64`.
pub fn total_bytes(entries: &Vec<FileEntry>) -> (r: u64)
    ensures
        r as nat == if total_size(entries@) > u64::MAX { u64::MAX as nat } else { total_size(entries@) },
{
    let mut sum: u64 = 0;
    let mut i: usize = 0;
    while i < entries.len()
        invariant
            i <= entries@.len(),
            sum as nat == if total_size(entries@.subrange(0, i as int)) > u64::MAX {
                u64::MAX as nat
            } else {
                total_size(entries@.subrange(0, i as int))
            },
        decreases entries@.len() - i,
    {
        assert(entries@.subrange(0, i + 1).drop_last() =~= entries@.subrange(0, i as int));
        sum = sum.saturating_add(entries[i].size);
        i = i + 1;
    }
    assert(entries@.subrange(0, entries@.len() as int) =~= entries@);
    sum
}

} // verus!
