use sync_engine::digest::digests_match;
use sync_engine::{ComparisonMethod, ComparisonResult, FileComparator, FileProbe, HashAlgorithm};

fn probe_of(content: &[u8], modified: i128) -> FileProbe {
    FileProbe { exists: true, is_dir: false, size: content.len() as u64, modified }
}

fn compare_contents(a: &[u8], b: &[u8], method: ComparisonMethod) -> ComparisonResult {
    let c = FileComparator::new();
    let pa = probe_of(a, 0);
    let pb = probe_of(b, 0);
    let same = match method {
        ComparisonMethod::Sha256 => digests_match(HashAlgorithm::Sha256, a, b),
        ComparisonMethod::Blake3 | ComparisonMethod::Comprehensive => digests_match(HashAlgorithm::Blake3, a, b),
        ComparisonMethod::ByteByByte => {
            let block = 4;
            let mut offset = 0;
            loop {
                let ea = (offset + block).min(a.len());
                let eb = (offset + block).min(b.len());
                let sa = if offset < a.len() { &a[offset..ea] } else { &a[0..0] };
                let sb = if offset < b.len() { &b[offset..eb] } else { &b[0..0] };
                if let Some(v) = FileComparator::compare_blocks(sa, sb) {
                    break v == ComparisonResult::Identical;
                }
                offset += block;
            }
        }
        _ => false,
    };
    c.compare("file1.txt", "file2.txt", &pa, &pb, method, same).unwrap()
}

#[test]
fn test_size_comparison() {
    assert_eq!(compare_contents(b"hello", b"hello", ComparisonMethod::Size), ComparisonResult::Identical);
    assert_eq!(compare_contents(b"hello", b"hello world", ComparisonMethod::Size), ComparisonResult::DifferentSize);
}

#[test]
fn test_hash_comparison() {
    assert_eq!(compare_contents(b"hello world", b"hello world", ComparisonMethod::Sha256), ComparisonResult::Identical);
    assert_eq!(compare_contents(b"hello world", b"hello rust", ComparisonMethod::Sha256), ComparisonResult::DifferentContent);
}

#[test]
fn test_byte_by_byte_comparison() {
    assert_eq!(compare_contents(b"hello world", b"hello world", ComparisonMethod::ByteByByte), ComparisonResult::Identical);
    assert_eq!(compare_contents(b"hello world", b"hello rust", ComparisonMethod::ByteByByte), ComparisonResult::DifferentContent);
}

#[test]
fn test_nonexistent_files() {
    let c = FileComparator::new();
    let present = probe_of(b"hello", 0);
    let missing = FileProbe { exists: false, is_dir: false, size: 0, modified: 0 };
    assert_eq!(c.compare("file1.txt", "file2.txt", &present, &missing, ComparisonMethod::Size, false).unwrap(), ComparisonResult::SourceOnly);
    assert_eq!(c.compare("file2.txt", "file1.txt", &missing, &present, ComparisonMethod::Size, false).unwrap(), ComparisonResult::DestinationOnly);
}

#[test]
fn test_timestamp_comparison() {
    let c = FileComparator::new();
    let first = probe_of(b"hello", 1_000_000_000);
    let second = probe_of(b"hello", 1_100_000_000);
    assert_eq!(c.compare("file1.txt", "file2.txt", &first, &second, ComparisonMethod::Timestamp, false).unwrap(), ComparisonResult::DestinationNewer);
}

#[test]
fn swapping_inverts_direction_only() {
    let c = FileComparator::new();
    let a = probe_of(b"abc", 5);
    let b = probe_of(b"abcd", 9);
    for method in [ComparisonMethod::Size, ComparisonMethod::Timestamp, ComparisonMethod::SizeAndTimestamp, ComparisonMethod::Comprehensive] {
        let ab = c.compare("a", "b", &a, &b, method, false).unwrap();
        let ba = c.compare("b", "a", &b, &a, method, false).unwrap();
        let expected = match ab {
            ComparisonResult::SourceNewer => ComparisonResult::DestinationNewer,
            ComparisonResult::DestinationNewer => ComparisonResult::SourceNewer,
            ref other => other.clone(),
        };
        assert_eq!(ba, expected);
    }
}
