//! Which file attributes are carried from source to destination.
//!
//! Reading and writing metadata is the application's part. The preserver
//! decides which attributes to take from a source file and which changes to
//! apply to the destination, and handles the conversions between POSIX
//! mode bits, read-only flags and octal text.

use vstd::prelude::*;
use crate::text::{chars_of, push_char};

verus! {

/// Which attributes are preserved.
#[derive(Debug, Clone, Copy, PartialEq, Eq, Structural)]
pub struct PreservationOptions {
    pub preserve_mtime: bool,
    pub preserve_atime: bool,
    pub preserve_permissions: bool,
    pub preserve_ownership: bool,
    pub preserve_extended_attributes: bool,
    pub preserve_symlinks: bool,
}

impl Default for PreservationOptions {
    /// Modification times, permissions and symbolic links.
    fn default() -> (r: PreservationOptions)
        ensures
            r == (PreservationOptions {
                preserve_mtime: true,
                preserve_atime: false,
                preserve_permissions: true,
                preserve_ownership: false,
                preserve_extended_attributes: false,
                preserve_symlinks: true,
            }),
    {
        PreservationOptions {
            preserve_mtime: true,
            preserve_atime: false,
            preserve_permissions: true,
            preserve_ownership: false,
            preserve_extended_attributes: false,
            preserve_symlinks: true,
        }
    }
}

/// What the application read from a file's metadata. Times are nanoseconds
/// relative to the Unix epoch.
#[derive(Debug, Clone, Copy, PartialEq, Eq, Structural)]
pub struct RawMetadata {
    pub modified: Option<i128>,
    pub accessed: Option<i128>,
    pub mode: u32,
    pub uid: Option<u32>,
    pub gid: Option<u32>,
}

/// The attributes taken from a source file.
#[derive(Debug, Clone)]
pub struct FileAttributes {
    pub modified: Option<i128>,
    pub accessed: Option<i128>,
    pub permissions: Option<u32>,
    pub uid: Option<u32>,
    pub gid: Option<u32>,
    /// Extended attributes by name.
    pub extended_attributes: Vec<(String, Vec<u8>)>,
}

/// The changes to apply to a destination file.
#[derive(Debug, Clone, Copy, PartialEq, Eq)]
pub struct AttributeChanges {
    /// Access and modification time to set.
    pub times: Option<(i128, i128)>,
    /// Mode bits to set.
    pub permissions: Option<u32>,
    /// Owner and group to set.
    pub ownership: Option<(u32, u32)>,
    /// Whether extended attributes are to be written.
    pub extended_attributes: bool,
}

/// The time pair to set: both times where both are known and either is
/// preserved; otherwise the modification time twice where only it is known
/// and preserved.
pub open spec fn times_to_set(o: PreservationOptions, a: Option<i128>, m: Option<i128>) -> Option<(i128, i128)> {
    match (a, m) {
        (Some(at), Some(mt)) => if o.preserve_mtime || o.preserve_atime { Some((at, mt)) } else { None },
        (None, Some(mt)) => if o.preserve_mtime { Some((mt, mt)) } else { None },
        _ => None,
    }
}

/// Carries file attributes according to its options.
#[derive(Debug, Clone, Copy)]
pub struct AttributePreserver {
    options: PreservationOptions,
}

impl AttributePreserver {
    /// The options in force.
    pub closed spec fn settings(&self) -> PreservationOptions {
        self.options
    }

    /// A preserver with the given options.
    pub fn new(options: PreservationOptions) -> (r: AttributePreserver)
        ensures
            r.settings() == options,
    {
        AttributePreserver { options }
    }

    /// A preserver with the default options.
    pub fn default() -> (r: AttributePreserver)
        ensures
            r.settings() == (PreservationOptions {
                preserve_mtime: true,
                preserve_atime: false,
                preserve_permissions: true,
                preserve_ownership: false,
                preserve_extended_attributes: false,
                preserve_symlinks: true,
            }),
    {
        AttributePreserver::new(PreservationOptions::default())
    }

    /// The options in force.
    pub fn options(&self) -> (r: PreservationOptions)
        ensures
            r == self.settings(),
    {
        self.options
    }

    /// Whether a copied file gets its attributes carried over at all.
    pub fn wants_attributes(&self) -> (r: bool)
        ensures
            r == (self.settings().preserve_mtime || self.settings().preserve_permissions),
    {
        self.options.preserve_mtime || self.options.preserve_permissions
    }

    /// The attributes to take from a source file: each enabled one that the
    /// metadata has.
    pub fn extract_attributes(&self, meta: &RawMetadata) -> (r: FileAttributes)
        ensures
            r.modified == if self.settings().preserve_mtime { meta.modified } else { None },
            r.accessed == if self.settings().preserve_atime { meta.accessed } else { None },
            r.permissions == if self.settings().preserve_permissions { Some(meta.mode) } else { None },
            r.uid == if self.settings().preserve_ownership { meta.uid } else { None },
            r.gid == if self.settings().preserve_ownership { meta.gid } else { None },
            r.extended_attributes@.len() == 0,
    {
        let o = &self.options;
        FileAttributes {
            modified: if o.preserve_mtime { meta.modified } else { None },
            accessed: if o.preserve_atime { meta.accessed } else { None },
            permissions: if o.preserve_permissions { Some(meta.mode) } else { None },
            uid: if o.preserve_ownership { meta.uid } else { None },
            gid: if o.preserve_ownership { meta.gid } else { None },
            extended_attributes: Vec::new(),
        }
    }

    /// The changes to apply to a destination file for these attributes.
    pub fn apply_attributes(&self, attributes: &FileAttributes) -> (r: AttributeChanges)
        ensures
            r.times == times_to_set(self.settings(), attributes.accessed, attributes.modified),
            r.permissions == if self.settings().preserve_permissions { attributes.permissions } else { None },
            r.ownership == match (attributes.uid, attributes.gid) {
                (Some(u), Some(g)) => if self.settings().preserve_ownership { Some((u, g)) } else { None },
                _ => None,
            },
            r.extended_attributes == (self.settings().preserve_extended_attributes
                && attributes.extended_attributes@.len() > 0),
    {
        let o = &self.options;
        let times = match (attributes.accessed, attributes.modified) {
            (Some(at), Some(mt)) => if o.preserve_mtime || o.preserve_atime { Some((at, mt)) } else { None },
            (None, Some(mt)) => if o.preserve_mtime { Some((mt, mt)) } else { None },
            _ => None,
        };
        let ownership = match (attributes.uid, attributes.gid) {
            (Some(u), Some(g)) => if o.preserve_ownership { Some((u, g)) } else { None },
            _ => None,
        };
        AttributeChanges {
            times,
            permissions: if o.preserve_permissions { attributes.permissions } else { None },
            ownership,
            extended_attributes: o.preserve_extended_attributes && attributes.extended_attributes.len() > 0,
        }
    }
}

/// The value of a string of octal digits, or `None` when a character is
/// not an octal digit.
pub open spec fn octal_value(s: Seq<char>) -> Option<nat>
    decreases s.len(),
{
    if s.len() == 0 {
        Some(0)
    } else {
        match octal_value(s.drop_last()) {
            Some(v) => if '0' <= s.last() <= '7' { Some((v * 8 + (s.last() as nat - '0' as nat)) as nat) } else { None },
            None => None,
        }
    }
}

/// What `u32::from_str_radix(s, 8)` accepts: an optional `+`, then at least
/// one octal digit, with a value that fits 32 bits.
pub open spec fn parsed_mode(s: Seq<char>) -> Option<u32> {
    let digits = if s.len() > 0 && s[0] == '+' { s.subrange(1, s.len() as int) } else { s };
    if digits.len() == 0 {
        None
    } else {
        match octal_value(digits) {
            Some(v) => if v <= u32::MAX { Some(v as u32) } else { None },
            None => None,
        }
    }
}

/// Helpers for permission bits alone.
pub struct PermissionPreserver;

impl PermissionPreserver {
    /// Parses permission bits written in octal.
    pub fn parse_octal(text: &str) -> (r: Option<u32>)
        ensures
            r == parsed_mode(text@),
    {
        let cs = chars_of(text);
        let start: usize = if cs.len() > 0 && cs[0] == '+' { 1 } else { 0 };
        let ghost digits = if text@.len() > 0 && text@[0] == '+' { text@.subrange(1, text@.len() as int) } else { text@ };
        assert(digits =~= cs@.subrange(start as int, cs@.len() as int));
        if start == cs.len() {
            return None;
        }
        let mut v: u64 = 0;
        let mut i = start;
        while i < cs.len()
            invariant
                cs@ == text@,
                digits == (if text@.len() > 0 && text@[0] == '+' { text@.subrange(1, text@.len() as int) } else { text@ }),
                start < cs@.len(),
                start <= i <= cs@.len(),
                digits == cs@.subrange(start as int, cs@.len() as int),
                octal_value(cs@.subrange(start as int, i as int)) == Some(v as nat),
                v <= u32::MAX,
            decreases cs@.len() - i,
        {
            let c = cs[i];
            assert(cs@.subrange(start as int, i + 1).drop_last() =~= cs@.subrange(start as int, i as int));
            if !('0' <= c && c <= '7') {
                proof {
                    assert(cs@.subrange(start as int, cs@.len() as int).subrange(0, (i + 1 - start) as int)
                        =~= cs@.subrange(start as int, i + 1));
                    assert(octal_value(cs@.subrange(start as int, i + 1)) is None);
                    lemma_octal_none_extends(cs@.subrange(start as int, cs@.len() as int), (i + 1 - start) as int);
                }
                return None;
            }
            let nv: u64 = v * 8 + (c as u64 - '0' as u64);
            assert(octal_value(cs@.subrange(start as int, i + 1)) == Some(nv as nat));
            if nv > u32::MAX as u64 {
                proof {
                    assert(cs@.subrange(start as int, cs@.len() as int).subrange(0, (i + 1 - start) as int)
                        =~= cs@.subrange(start as int, i + 1));
                    lemma_octal_big_extends(cs@.subrange(start as int, cs@.len() as int), (i + 1 - start) as int);
                }
                return None;
            }
            v = nv;
            i = i + 1;
        }
        assert(cs@.subrange(start as int, cs@.len() as int) == digits);
        Some(v as u32)
    }

    /// Permission bits as octal digits, without leading zeros.
    pub fn octal_text(mode: u32) -> (r: String)
        ensures
            r@ == octal(mode as nat),
            octal_value(r@) == Some(mode as nat),
    {
        let mut s = String::new();
        push_octal(&mut s, mode);
        proof {
            assert(s@ =~= octal(mode as nat));
            lemma_octal_round_trip(mode as nat);
        }
        s
    }

    /// Whether mode bits make a file read-only on hosts with a single
    /// read-only flag: the owner's write bit is clear.
    pub fn readonly_from_mode(mode: u32) -> (r: bool)
        ensures
            r == (mode & 0o200 == 0),
    {
        mode & 0o200 == 0
    }
}

proof fn lemma_octal_none_extends(s: Seq<char>, n: int)
    requires
        0 < n <= s.len(),
        octal_value(s.subrange(0, n)) is None,
    ensures
        octal_value(s) is None,
    decreases s.len() - n,
{
    if n == s.len() {
        assert(s.subrange(0, n) =~= s);
    } else {
        assert(s.drop_last().subrange(0, n) =~= s.subrange(0, n));
        lemma_octal_none_extends(s.drop_last(), n);
    }
}

proof fn lemma_octal_big_extends(s: Seq<char>, n: int)
    requires
        0 < n <= s.len(),
        octal_value(s.subrange(0, n)) matches Some(v) && v > u32::MAX,
    ensures
        octal_value(s) is None || octal_value(s)->0 > u32::MAX,
    decreases s.len() - n,
{
    if n == s.len() {
        assert(s.subrange(0, n) =~= s);
    } else {
        assert(s.drop_last().subrange(0, n) =~= s.subrange(0, n));
        lemma_octal_big_extends(s.drop_last(), n);
    }
}

/// The octal digits of `n`, without leading zeros.
pub open spec fn octal(n: nat) -> Seq<char>
    decreases n,
{
    if n < 8 {
        seq![crate::text::digit_char(n as int)]
    } else {
        octal(n / 8).push(crate::text::digit_char((n % 8) as int))
    }
}

/// Reading back the octal digits of a number gives the number.
pub proof fn lemma_octal_round_trip(n: nat)
    ensures
        octal_value(octal(n)) == Some(n),
    decreases n,
{
    if n < 8 {
        assert(octal(n).drop_last() =~= Seq::<char>::empty());
        let c = crate::text::digit_char(n as int);
        assert('0' <= c <= '7' && c as nat - '0' as nat == n);
        assert(octal_value(Seq::<char>::empty()) == Some(0nat));
        assert(octal_value(octal(n).drop_last()) == Some(0nat));
    } else {
        lemma_octal_round_trip(n / 8);
        assert(octal(n).drop_last() =~= octal(n / 8));
        let d = n % 8;
        assert(n == (n / 8) * 8 + d);
        let c = crate::text::digit_char(d as int);
        assert('0' <= c <= '7' && c as nat - '0' as nat == d);
        assert(octal_value(octal(n).drop_last()) == Some(n / 8));
        assert(octal(n).last() == c);
    }
}

fn push_octal(s: &mut String, n: u32)
    ensures
        final(s)@ == old(s)@ + octal(n as nat),
    decreases n,
{
    if n < 8 {
        push_char(s, crate::text::digit_of(n as u64));
    } else {
        push_octal(s, n / 8);
        push_char(s, crate::text::digit_of((n % 8) as u64));
    }
    assert(final(s)@ =~= old(s)@ + octal(n as nat));
}

} // verus!
