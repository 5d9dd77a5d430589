//! Operation kinds and human-readable sizes for progress reporting.
//!
//! The event transport lives with the application; what is decided here is
//! how an operation is classified and how byte counts are rendered.

use vstd::prelude::*;
use crate::text::{push_char, push_decimal, decimal, concat_str};

verus! {

/// The kinds of file operation the executor performs.
#[derive(Debug, Clone, Copy, PartialEq, Eq, Structural, Hash)]
pub enum FileOperation {
    /// A new file was written.
    Copy,
    /// An existing file was overwritten.
    Update,
    /// A destination entry was removed.
    Delete,
    /// A directory was created.
    CreateDirectory,
    /// A conflict was met.
    Conflict,
    /// Nothing was done.
    Skip,
}

impl FileOperation {
    /// The operation's name, as used in metrics and events.
    pub fn name(&self) -> (r: &'static str)
        ensures
            r@ == operation_name(*self),
    {
        match self {
            FileOperation::Copy => "Copy",
            FileOperation::Update => "Update",
            FileOperation::Delete => "Delete",
            FileOperation::CreateDirectory => "CreateDirectory",
            FileOperation::Conflict => "Conflict",
            FileOperation::Skip => "Skip",
        }
    }
}

/// The name of each operation kind.
pub open spec fn operation_name(op: FileOperation) -> Seq<char> {
    match op {
        FileOperation::Copy => "Copy"@,
        FileOperation::Update => "Update"@,
        FileOperation::Delete => "Delete"@,
        FileOperation::CreateDirectory => "CreateDirectory"@,
        FileOperation::Conflict => "Conflict"@,
        FileOperation::Skip => "Skip"@,
    }
}

/// The power of 1024 that `format_bytes` scales by: the largest unit, up to
/// terabytes, that leaves a value of at least one.
pub open spec fn unit_index(bytes: nat) -> nat {
    if bytes < 1024 {
        0
    } else if bytes < 1024 * 1024 {
        1
    } else if bytes < 1024 * 1024 * 1024 {
        2
    } else if bytes < 1024 * 1024 * 1024 * 1024 {
        3
    } else {
        4
    }
}

/// 1024 to the power `k`.
pub open spec fn unit_size(k: nat) -> nat
    decreases k,
{
    if k == 0 { 1 } else { 1024 * unit_size((k - 1) as nat) }
}

/// The unit suffix for a power of 1024.
pub open spec fn unit_name(k: nat) -> Seq<char> {
    if k == 0 { "B"@ } else if k == 1 { "KB"@ } else if k == 2 { "MB"@ } else if k == 3 { "GB"@ } else { "TB"@ }
}

/// `n / d` rounded to the nearest integer, ties to the even neighbour.
pub open spec fn round_half_even(n: nat, d: nat) -> nat
    recommends
        d > 0,
{
    let q = n / d;
    let r = n % d;
    if 2 * r > d || (2 * r == d && q % 2 == 1) { q + 1 } else { q }
}

/// Hundredths rendered as `whole.ff`.
pub open spec fn two_decimals(hundredths: nat) -> Seq<char> {
    decimal(hundredths / 100) + seq!['.', crate::text::digit_char(((hundredths % 100) / 10) as int),
        crate::text::digit_char((hundredths % 10) as int)]
}

/// How a byte count is shown: plain bytes below one kilobyte, otherwise the
/// value in the largest unit up to terabytes, with two decimals.
pub open spec fn bytes_text(bytes: nat) -> Seq<char> {
    let k = unit_index(bytes);
    if k == 0 {
        decimal(bytes) + " B"@
    } else {
        two_decimals(round_half_even(bytes * 100, unit_size(k))) + seq![' '] + unit_name(k)
    }
}

fn unit_of(bytes: u64) -> (r: (u64, &'static str))
    ensures
        r.0 == unit_size(unit_index(bytes as nat)),
        r.1@ == unit_name(unit_index(bytes as nat)),
        bytes >= 1024 ==> r.0 >= 1024,
{
    proof {
        reveal_with_fuel(unit_size, 5);
    }
    if bytes < 1024 {
        (1, "B")
    } else if bytes < 1024 * 1024 {
        (1024, "KB")
    } else if bytes < 1024 * 1024 * 1024 {
        (1024 * 1024, "MB")
    } else if bytes < 1024 * 1024 * 1024 * 1024 {
        (1024 * 1024 * 1024, "GB")
    } else {
        (1024 * 1024 * 1024 * 1024, "TB")
    }
}

/// Renders a byte count, for example `512 B`, `1.50 KB` or `1.00 GB`.
pub fn format_bytes(bytes: u64) -> (r: String)
    ensures
        r@ == bytes_text(bytes as nat),
{
    if bytes < 1024 {
        let mut s = String::new();
        push_decimal(&mut s, bytes);
        let r = concat_str(s.as_str(), " B");
        assert(r@ =~= bytes_text(bytes as nat));
        return r;
    }
    let (d, unit) = unit_of(bytes);
    let n: u128 = bytes as u128 * 100;
    let d128: u128 = d as u128;
    let q: u128 = n / d128;
    let rem: u128 = n % d128;
    proof {
        vstd::arithmetic::div_mod::lemma_fundamental_div_mod(n as int, d128 as int);
        assert(q * 1024 <= n) by (nonlinear_arith)
            requires
                n == d128 * q + rem,
                rem >= 0,
                d128 >= 1024,
                q >= 0,
        ;
    }
    let h: u128 = if 2 * rem > d128 || (2 * rem == d128 && q % 2 == 1) { q + 1 } else { q };
    assert(h == round_half_even(bytes as nat * 100, d as nat));
    let hs: u64 = h as u64;
    let mut s = String::new();
    push_decimal(&mut s, hs / 100);
    push_char(&mut s, '.');
    push_char(&mut s, crate::text::digit_of((hs % 100) / 10));
    push_char(&mut s, crate::text::digit_of(hs % 10));
    push_char(&mut s, ' ');
    let r = concat_str(s.as_str(), unit);
    assert(r@ =~= bytes_text(bytes as nat));
    r
}

/// A transfer rate as text: `format_bytes` of the rate, then `/s`.
pub fn format_bytes_per_second(bytes_per_second: u64) -> (r: String)
    ensures
        r@ == bytes_text(bytes_per_second as nat) + "/s"@,
{
    let b = format_bytes(bytes_per_second);
    concat_str(b.as_str(), "/s")
}

/// The state of a running sync at one moment. Times are nanoseconds.
#[derive(Debug, Clone, PartialEq, Eq)]
pub struct ProgressSnapshot {
    pub session_id: String,
    pub files_processed: usize,
    pub bytes_processed: u64,
    pub files_total: usize,
    pub bytes_total: u64,
    pub current_file: Option<String>,
    pub elapsed_time: u64,
    pub error_count: usize,
}

/// `n` capped at the largest `u64`.
pub open spec fn capped(n: nat) -> nat {
    if n > u64::MAX { u64::MAX as nat } else { n }
}

/// Bytes per second over `nanos` nanoseconds, rounded down; zero over no
/// time.
pub open spec fn rate_of(bytes: nat, nanos: nat) -> nat {
    if nanos == 0 { 0 } else { bytes * 1_000_000_000 / nanos }
}

impl ProgressSnapshot {
    /// The share of files processed, in whole percent (rounded down); a
    /// sync with no files is complete.
    pub fn completion_percent(&self) -> (r: u64)
        ensures
            self.files_total == 0 ==> r == 100,
            self.files_total > 0 ==> r as nat == capped((self.files_processed as nat * 100) / (self.files_total as nat)),
    {
        if self.files_total == 0 {
            return 100;
        }
        let scaled: u128 = self.files_processed as u128 * 100;
        let q: u128 = scaled / (self.files_total as u128);
        if q > u64::MAX as u128 { u64::MAX } else { q as u64 }
    }

    /// Bytes processed per second of elapsed time, rounded down.
    pub fn transfer_rate(&self) -> (r: u64)
        ensures
            r as nat == capped(rate_of(self.bytes_processed as nat, self.elapsed_time as nat)),
    {
        if self.elapsed_time == 0 {
            return 0;
        }
        let scaled: u128 = self.bytes_processed as u128 * 1_000_000_000;
        let q: u128 = scaled / (self.elapsed_time as u128);
        if q > u64::MAX as u128 { u64::MAX } else { q as u64 }
    }

    /// The transfer rate as text.
    pub fn transfer_rate_human(&self) -> (r: String)
        ensures
            r@ == bytes_text(capped(rate_of(self.bytes_processed as nat, self.elapsed_time as nat))) + "/s"@,
    {
        format_bytes_per_second(self.transfer_rate())
    }

    /// The bytes processed as text.
    pub fn bytes_processed_human(&self) -> (r: String)
        ensures
            r@ == bytes_text(self.bytes_processed as nat),
    {
        format_bytes(self.bytes_processed)
    }

    /// The total bytes as text.
    pub fn bytes_total_human(&self) -> (r: String)
        ensures
            r@ == bytes_text(self.bytes_total as nat),
    {
        format_bytes(self.bytes_total)
    }

    /// The time still needed at the file rate so far, rounded down: the
    /// remaining files times the elapsed time per processed file. `None`
    /// before any file is processed or once all are.
    pub fn estimated_remaining(&self) -> (r: Option<u64>)
        ensures
            (r is Some) == (self.files_processed > 0 && self.files_total > self.files_processed),
            r matches Some(t) ==> t as nat == capped(
                ((self.files_total - self.files_processed) as nat * self.elapsed_time as nat) / (self.files_processed as nat),
            ),
    {
        if self.files_processed == 0 || self.files_total <= self.files_processed {
            return None;
        }
        let remaining: u128 = (self.files_total - self.files_processed) as u128;
        let elapsed: u128 = self.elapsed_time as u128;
        assert(remaining * elapsed <= u128::MAX) by (nonlinear_arith)
            requires
                remaining <= u64::MAX,
                elapsed <= u64::MAX,
        ;
        let scaled: u128 = remaining * elapsed;
        let q: u128 = scaled / (self.files_processed as u128);
        Some(if q > u64::MAX as u128 { u64::MAX } else { q as u64 })
    }
}

} // verus!
