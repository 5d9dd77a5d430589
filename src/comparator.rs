//! The per-pair equivalence decision.
//!
//! Reading metadata and file contents is the application's part. It hands
//! the comparator what it read: a `FileProbe` for each side and, for the
//! methods that look at contents, whether the contents agree (established
//! with `digests_match` or block by block with `compare_blocks`). The
//! comparator decides the verdict.

use vstd::prelude::*;
use crate::error::SyncError;
use crate::scanner::FileEntry;

verus! {

/// How two files are compared.
#[derive(Debug, Clone, Copy, PartialEq, Eq, Structural)]
pub enum ComparisonMethod {
    /// Sizes only.
    Size,
    /// Modification times only.
    Timestamp,
    /// Sizes, then modification times.
    SizeAndTimestamp,
    /// SHA-256 digests of the contents.
    Sha256,
    /// BLAKE3 digests of the contents.
    Blake3,
    /// The contents, block by block.
    ByteByByte,
    /// Sizes, then times, then BLAKE3 digests, then times for the direction.
    Comprehensive,
}

impl Default for ComparisonMethod {
    fn default() -> (r: ComparisonMethod)
        ensures
            r == ComparisonMethod::SizeAndTimestamp,
    {
        ComparisonMethod::SizeAndTimestamp
    }
}

/// The outcome of comparing two files.
#[derive(Debug, Clone, PartialEq)]
pub enum ComparisonResult {
    /// The files are equivalent under the method.
    Identical,
    /// The files differ, in no particular way.
    Different,
    /// The source was modified later.
    SourceNewer,
    /// The destination was modified later.
    DestinationNewer,
    /// The sizes differ.
    DifferentSize,
    /// The contents differ.
    DifferentContent,
    /// Only the source exists.
    SourceOnly,
    /// Only the destination exists.
    DestinationOnly,
    /// The comparison could not be made.
    Error(String),
}

/// What the application read about one side of a comparison.
#[derive(Debug, Clone, Copy, PartialEq, Eq, Structural)]
pub struct FileProbe {
    /// Whether the path exists.
    pub exists: bool,
    /// Whether it is a directory.
    pub is_dir: bool,
    /// Size in bytes.
    pub size: u64,
    /// Modification time, nanoseconds relative to the Unix epoch.
    pub modified: i128,
}

/// A verdict without the error case, for the laws about verdicts.
#[derive(Debug, Clone, Copy, PartialEq, Eq, Structural)]
pub enum Verdict {
    Identical,
    SourceNewer,
    DestinationNewer,
    DifferentSize,
    DifferentContent,
}

impl Verdict {
    /// The same verdict as a `ComparisonResult`.
    pub open spec fn result(self) -> ComparisonResult {
        match self {
            Verdict::Identical => ComparisonResult::Identical,
            Verdict::SourceNewer => ComparisonResult::SourceNewer,
            Verdict::DestinationNewer => ComparisonResult::DestinationNewer,
            Verdict::DifferentSize => ComparisonResult::DifferentSize,
            Verdict::DifferentContent => ComparisonResult::DifferentContent,
        }
    }

    fn to_result(self) -> (r: ComparisonResult)
        ensures
            r == self.result(),
    {
        match self {
            Verdict::Identical => ComparisonResult::Identical,
            Verdict::SourceNewer => ComparisonResult::SourceNewer,
            Verdict::DestinationNewer => ComparisonResult::DestinationNewer,
            Verdict::DifferentSize => ComparisonResult::DifferentSize,
            Verdict::DifferentContent => ComparisonResult::DifferentContent,
        }
    }
}

/// Order of two modification times.
pub open spec fn time_verdict(src: i128, dst: i128) -> Verdict {
    if src > dst {
        Verdict::SourceNewer
    } else if src < dst {
        Verdict::DestinationNewer
    } else {
        Verdict::Identical
    }
}

/// Whether the method needs to know if the contents agree, for two existing
/// files with these sizes and times.
pub open spec fn needs_contents(m: ComparisonMethod, s_size: u64, s_time: i128, d_size: u64, d_time: i128) -> bool {
    match m {
        ComparisonMethod::Sha256 | ComparisonMethod::Blake3 | ComparisonMethod::ByteByByte => true,
        ComparisonMethod::Comprehensive => s_size == d_size && s_time != d_time,
        _ => false,
    }
}

/// The verdict of method `m` on two existing files; `same` says whether
/// their contents agree, and is consulted only when `needs_contents` holds.
pub open spec fn method_verdict(
    m: ComparisonMethod,
    s_size: u64,
    s_time: i128,
    d_size: u64,
    d_time: i128,
    same: bool,
) -> Verdict {
    match m {
        ComparisonMethod::Size => if s_size == d_size { Verdict::Identical } else { Verdict::DifferentSize },
        ComparisonMethod::Timestamp => time_verdict(s_time, d_time),
        ComparisonMethod::SizeAndTimestamp => if s_size != d_size {
            Verdict::DifferentSize
        } else {
            time_verdict(s_time, d_time)
        },
        ComparisonMethod::Sha256 | ComparisonMethod::Blake3 | ComparisonMethod::ByteByByte => if same {
            Verdict::Identical
        } else {
            Verdict::DifferentContent
        },
        ComparisonMethod::Comprehensive => if s_size != d_size {
            Verdict::DifferentSize
        } else if s_time == d_time || same {
            Verdict::Identical
        } else {
            time_verdict(s_time, d_time)
        },
    }
}

/// The comparison of two probed paths: a missing side gives `SourceOnly` or
/// `DestinationOnly`; both missing, or a directory on either side, is an
/// error; otherwise the method decides.
pub open spec fn probe_outcome(m: ComparisonMethod, s: FileProbe, d: FileProbe, same: bool) -> Option<ComparisonResult> {
    if s.exists && !d.exists {
        Some(ComparisonResult::SourceOnly)
    } else if !s.exists && d.exists {
        Some(ComparisonResult::DestinationOnly)
    } else if !s.exists && !d.exists {
        None
    } else if s.is_dir || d.is_dir {
        None
    } else {
        Some(method_verdict(m, s.size, s.modified, d.size, d.modified, same).result())
    }
}

/// The verdict of a method on two scanned entries without reading any file,
/// or `None` when the contents would have to be read. Digests carried by
/// both entries stand for the contents of the content-based methods: of the
/// digest methods and of the comprehensive one, and also of the
/// block-by-block method, whose entries the engine's scans digest so that
/// plans are made without reading files. Equal digests there mean equal
/// contents up to a digest collision.
pub open spec fn entry_verdict(m: ComparisonMethod, s: FileEntry, d: FileEntry) -> Option<Verdict> {
    if s.hash is Some && d.hash is Some && (m is Sha256 || m is Blake3 || m is Comprehensive || m is ByteByByte) {
        Some(if s.hash->0@ == d.hash->0@ { Verdict::Identical } else { Verdict::DifferentContent })
    } else if needs_contents(m, s.size, s.modified, d.size, d.modified) {
        None
    } else {
        Some(method_verdict(m, s.size, s.modified, d.size, d.modified, false))
    }
}

/// The verdict on one pair of blocks read from the two files: `Some` when
/// the comparison is decided, `None` to read on.
pub open spec fn block_outcome(a: Seq<u8>, b: Seq<u8>) -> Option<Verdict> {
    if a.len() == 0 && b.len() == 0 {
        Some(Verdict::Identical)
    } else if a != b {
        Some(Verdict::DifferentContent)
    } else {
        None
    }
}

fn time_order(src: i128, dst: i128) -> (r: Verdict)
    ensures
        r == time_verdict(src, dst),
{
    if src > dst {
        Verdict::SourceNewer
    } else if src < dst {
        Verdict::DestinationNewer
    } else {
        Verdict::Identical
    }
}

fn verdict_of(m: ComparisonMethod, s_size: u64, s_time: i128, d_size: u64, d_time: i128, same: bool) -> (r: Verdict)
    ensures
        r == method_verdict(m, s_size, s_time, d_size, d_time, same),
{
    match m {
        ComparisonMethod::Size => if s_size == d_size { Verdict::Identical } else { Verdict::DifferentSize },
        ComparisonMethod::Timestamp => time_order(s_time, d_time),
        ComparisonMethod::SizeAndTimestamp => if s_size != d_size {
            Verdict::DifferentSize
        } else {
            time_order(s_time, d_time)
        },
        ComparisonMethod::Sha256 | ComparisonMethod::Blake3 | ComparisonMethod::ByteByByte => if same {
            Verdict::Identical
        } else {
            Verdict::DifferentContent
        },
        ComparisonMethod::Comprehensive => if s_size != d_size {
            Verdict::DifferentSize
        } else if s_time == d_time || same {
            Verdict::Identical
        } else {
            time_order(s_time, d_time)
        },
    }
}

/// Computes `entry_verdict`.
pub fn entry_verdict_of(source: &FileEntry, destination: &FileEntry, method: ComparisonMethod) -> (r: Option<Verdict>)
    ensures
        r == entry_verdict(method, *source, *destination),
{
    let content_method = match method {
        ComparisonMethod::Sha256 | ComparisonMethod::Blake3 | ComparisonMethod::Comprehensive | ComparisonMethod::ByteByByte => true,
        _ => false,
    };
    match (&source.hash, &destination.hash) {
        (Some(a), Some(b)) => {
            if content_method {
                return Some(if crate::digest::same_text(a.as_str(), b.as_str()) { Verdict::Identical } else { Verdict::DifferentContent });
            }
        },
        _ => {},
    }
    let needs = match method {
        ComparisonMethod::Sha256 | ComparisonMethod::Blake3 | ComparisonMethod::ByteByByte => true,
        ComparisonMethod::Comprehensive => source.size == destination.size && source.modified != destination.modified,
        _ => false,
    };
    if needs {
        return None;
    }
    Some(verdict_of(method, source.size, source.modified, destination.size, destination.modified, false))
}

/// Compares files with a configurable block size for content reads.
#[derive(Debug, Clone, Copy)]
pub struct FileComparator {
    buffer_size: usize,
}

impl FileComparator {
    /// A comparator with 64 KiB blocks.
    pub fn new() -> (r: FileComparator)
        ensures
            r.block_size() == 65536,
    {
        FileComparator { buffer_size: 64 * 1024 }
    }

    /// A comparator with the given block size.
    pub fn with_buffer_size(buffer_size: usize) -> (r: FileComparator)
        ensures
            r.block_size() == buffer_size,
    {
        FileComparator { buffer_size }
    }

    /// The size of the blocks read for content comparison.
    pub closed spec fn block_size(&self) -> usize {
        self.buffer_size
    }

    /// The block size.
    pub fn buffer_size(&self) -> (r: usize)
        ensures
            r == self.block_size(),
    {
        self.buffer_size
    }

    /// Whether comparing these two probed files with `method` needs to know
    /// whether their contents agree.
    pub fn needs_contents(method: ComparisonMethod, source: &FileProbe, destination: &FileProbe) -> (r: bool)
        ensures
            r == (source.exists && destination.exists && !source.is_dir && !destination.is_dir
                && needs_contents(method, source.size, source.modified, destination.size, destination.modified)),
    {
        if !(source.exists && destination.exists && !source.is_dir && !destination.is_dir) {
            return false;
        }
        match method {
            ComparisonMethod::Sha256 | ComparisonMethod::Blake3 | ComparisonMethod::ByteByByte => true,
            ComparisonMethod::Comprehensive => source.size == destination.size && source.modified
                != destination.modified,
            _ => false,
        }
    }

    /// Compares two probed paths. `same_contents` says whether the contents
    /// agree; it is read only when `needs_contents` holds.
    pub fn compare(
        &self,
        source_path: &str,
        destination_path: &str,
        source: &FileProbe,
        destination: &FileProbe,
        method: ComparisonMethod,
        same_contents: bool,
    ) -> (r: Result<ComparisonResult, SyncError>)
        ensures
            probe_outcome(method, *source, *destination, same_contents) matches Some(v) ==> r == Ok::<
                ComparisonResult,
                SyncError,
            >(v),
            (!source.exists && !destination.exists) ==> (r matches Err(SyncError::Comparison { message: m })
                && m@ == "Comparison error between '"@ + source_path@ + "' and '"@ + destination_path@
                + "': "@ + "Neither file exists"@),
            (source.exists && destination.exists && (source.is_dir || destination.is_dir)) ==> (r matches Err(
                SyncError::Comparison { message: m },
            ) && m@ == "Comparison error between '"@ + source_path@ + "' and '"@ + destination_path@
                + "': "@ + "Cannot compare directories"@),
    {
        if source.exists && !destination.exists {
            return Ok(ComparisonResult::SourceOnly);
        }
        if !source.exists && destination.exists {
            return Ok(ComparisonResult::DestinationOnly);
        }
        if !source.exists && !destination.exists {
            return Err(SyncError::comparison_error(source_path, destination_path, "Neither file exists"));
        }
        if source.is_dir || destination.is_dir {
            return Err(SyncError::comparison_error(source_path, destination_path, "Cannot compare directories"));
        }
        let v = verdict_of(
            method,
            source.size,
            source.modified,
            destination.size,
            destination.modified,
            same_contents,
        );
        Ok(v.to_result())
    }

    /// Compares two scanned entries without reading files, using the digests
    /// they carry for content-based methods. `None` means the contents must
    /// be read.
    pub fn compare_entries(source: &FileEntry, destination: &FileEntry, method: ComparisonMethod) -> (r: Option<ComparisonResult>)
        ensures
            r == (match entry_verdict(method, *source, *destination) {
                Some(v) => Some(v.result()),
                None => None,
            }),
    {
        match entry_verdict_of(source, destination, method) {
            Some(v) => Some(v.to_result()),
            None => None,
        }
    }

    /// The size-then-time verdict on two entries, without any I/O.
    pub fn quick_compare(source: &FileEntry, destination: &FileEntry) -> (r: ComparisonResult)
        ensures
            r == method_verdict(
                ComparisonMethod::SizeAndTimestamp,
                source.size,
                source.modified,
                destination.size,
                destination.modified,
                false,
            ).result(),
    {
        if source.size != destination.size {
            return ComparisonResult::DifferentSize;
        }
        time_order(source.modified, destination.modified).to_result()
    }

    /// Compares one pair of blocks read at the same offset of the two files:
    /// both empty means both files ended together; blocks that differ in
    /// length or bytes decide a difference; otherwise reading goes on.
    pub fn compare_blocks(a: &[u8], b: &[u8]) -> (r: Option<ComparisonResult>)
        ensures
            r == (match block_outcome(a@, b@) {
                Some(v) => Some(v.result()),
                None => None,
            }),
    {
        if a.len() == 0 && b.len() == 0 {
            return Some(ComparisonResult::Identical);
        }
        if a.len() != b.len() {
            return Some(ComparisonResult::DifferentContent);
        }
        let mut i: usize = 0;
        while i < a.len()
            invariant
                a@.len() == b@.len(),
                i <= a@.len(),
                forall|k: int| 0 <= k < i ==> a@[k] == b@[k],
            decreases a@.len() - i,
        {
            if a[i] != b[i] {
                return Some(ComparisonResult::DifferentContent);
            }
            i = i + 1;
        }
        assert(a@ =~= b@);
        None
    }
}

/// The verdict with source and destination exchanged.
pub open spec fn swapped(v: Verdict) -> Verdict {
    match v {
        Verdict::SourceNewer => Verdict::DestinationNewer,
        Verdict::DestinationNewer => Verdict::SourceNewer,
        other => other,
    }
}

/// Exchanging the two files keeps every verdict but the direction of
/// `SourceNewer` and `DestinationNewer`, which inverts; in particular a
/// pair is identical exactly when the exchanged pair is.
pub proof fn lemma_compare_symmetric(
    m: ComparisonMethod,
    a_size: u64,
    a_time: i128,
    b_size: u64,
    b_time: i128,
    same: bool,
)
    ensures
        method_verdict(m, b_size, b_time, a_size, a_time, same) == swapped(
            method_verdict(m, a_size, a_time, b_size, b_time, same),
        ),
        (method_verdict(m, a_size, a_time, b_size, b_time, same) == Verdict::Identical) == (
        method_verdict(m, b_size, b_time, a_size, a_time, same) == Verdict::Identical),
{
}

/// Exchanging two probed paths exchanges `SourceOnly` and `DestinationOnly`,
/// keeps errors errors, and otherwise swaps the verdict.
pub proof fn lemma_probe_symmetric(m: ComparisonMethod, a: FileProbe, b: FileProbe, same: bool)
    ensures
        (probe_outcome(m, a, b, same) is None) == (probe_outcome(m, b, a, same) is None),
        probe_outcome(m, a, b, same) == Some(ComparisonResult::SourceOnly) <==> probe_outcome(m, b, a, same)
            == Some(ComparisonResult::DestinationOnly),
        probe_outcome(m, a, b, same) == Some(ComparisonResult::Identical) <==> probe_outcome(m, b, a, same)
            == Some(ComparisonResult::Identical),
        probe_outcome(m, a, b, same) == Some(ComparisonResult::SourceNewer) <==> probe_outcome(m, b, a, same)
            == Some(ComparisonResult::DestinationNewer),
{
    lemma_compare_symmetric(m, a.size, a.modified, b.size, b.modified, same);
}

/// Two files whose contents are the same bytes are identical under the
/// digest methods: equal contents give equal digests, and equal digests
/// give `Identical`.
pub proof fn lemma_equal_contents_identical(
    alg: crate::digest::HashAlgorithm,
    a: Seq<u8>,
    b: Seq<u8>,
    a_size: u64,
    a_time: i128,
    b_size: u64,
    b_time: i128,
)
    requires
        a == b,
    ensures
        ({
            let same = crate::digest::digest_of(alg, a) == crate::digest::digest_of(alg, b);
            &&& same
            &&& method_verdict(ComparisonMethod::Sha256, a_size, a_time, b_size, b_time, same) == Verdict::Identical
            &&& method_verdict(ComparisonMethod::Blake3, a_size, a_time, b_size, b_time, same) == Verdict::Identical
        }),
{
}

} // verus!
