//! Character-level helpers for paths and for rendering numbers as text.
//!
//! Relative paths are handled as strings whose components are separated by
//! `/`. The spec functions here state what a path's components are, which of
//! them mark a hidden entry, and what a path's final component is.

use vstd::prelude::*;

verus! {

/// Relies on `str::chars` collected into a `Vec`: the characters of `s`, in order.
#[verifier::external_body]
pub(crate) fn chars_of(s: &str) -> (r: Vec<char>)
    ensures
        r@ == s@,
{
    s.chars().collect()
}

/// Relies on `String::push`: appends one character.
#[verifier::external_body]
pub(crate) fn push_char(s: &mut String, c: char)
    ensures
        final(s)@ == old(s)@.push(c),
{
    s.push(c)
}

/// A string holding exactly the characters of `cs`.
pub fn string_from_chars(cs: &Vec<char>) -> (r: String)
    ensures
        r@ == cs@,
{
    let mut r = String::new();
    let mut i: usize = 0;
    while i < cs.len()
        invariant
            i <= cs@.len(),
            r@ == cs@.subrange(0, i as int),
        decreases cs@.len() - i,
    {
        push_char(&mut r, cs[i]);
        i = i + 1;
        assert(r@ =~= cs@.subrange(0, i as int));
    }
    assert(r@ =~= cs@);
    r
}

/// The concatenation of `a` and `b`.
pub fn concat_str(a: &str, b: &str) -> (r: String)
    ensures
        r@ == a@ + b@,
{
    let mut s = a.to_owned();
    s.append(b);
    s
}

/// True when position `i` of `p` starts a path component.
pub open spec fn starts_component(p: Seq<char>, i: int) -> bool {
    0 <= i < p.len() && (i == 0 || p[i - 1] == '/')
}

/// True when position `i` of `p` ends a component (a separator or the end).
pub open spec fn ends_component(p: Seq<char>, i: int) -> bool {
    i == p.len() || (0 <= i < p.len() && p[i] == '/')
}

/// The component of `p` that starts at `i` is hidden: it begins with a dot
/// and is neither `.` nor `..`.
pub open spec fn hidden_component_at(p: Seq<char>, i: int) -> bool {
    &&& starts_component(p, i)
    &&& p[i] == '.'
    &&& !ends_component(p, i + 1)
    &&& !(i + 1 < p.len() && p[i + 1] == '.' && ends_component(p, i + 2))
}

/// A path is hidden when any of its components is hidden.
pub open spec fn is_hidden_path(p: Seq<char>) -> bool {
    exists|i: int| #[trigger] hidden_component_at(p, i)
}

/// Decides `is_hidden_path` for a path given as characters.
pub fn is_hidden_chars(p: &Vec<char>) -> (r: bool)
    ensures
        r == is_hidden_path(p@),
{
    let n = p.len();
    let mut i: usize = 0;
    while i < n
        invariant
            n == p@.len(),
            i <= n,
            forall|k: int| 0 <= k < i ==> !hidden_component_at(p@, k),
        decreases n - i,
    {
        if p[i] == '.' && (i == 0 || p[i - 1] == '/') {
            let single = i + 1 == n || p[i + 1] == '/';
            let double = i + 1 < n && p[i + 1] == '.' && (i + 2 == n || p[i + 2] == '/');
            if !single && !double {
                assert(hidden_component_at(p@, i as int));
                return true;
            }
        }
        i = i + 1;
    }
    assert forall|k: int| !hidden_component_at(p@, k) by {
        if 0 <= k < n {
        }
    }
    false
}

/// Decides `is_hidden_path` for a path given as a string.
pub fn is_hidden(path: &str) -> (r: bool)
    ensures
        r == is_hidden_path(path@),
{
    let cs = chars_of(path);
    is_hidden_chars(&cs)
}

/// The decimal digit for `d`.
pub open spec fn digit_char(d: int) -> char {
    if d == 0 { '0' } else if d == 1 { '1' } else if d == 2 { '2' } else if d == 3 { '3' }
    else if d == 4 { '4' } else if d == 5 { '5' } else if d == 6 { '6' } else if d == 7 { '7' }
    else if d == 8 { '8' } else { '9' }
}

/// The decimal representation of `n`, without leading zeros.
pub open spec fn decimal(n: nat) -> Seq<char>
    decreases n,
{
    if n < 10 {
        seq![digit_char(n as int)]
    } else {
        decimal(n / 10).push(digit_char((n % 10) as int))
    }
}

pub(crate) fn digit_of(d: u64) -> (c: char)
    requires
        d < 10,
    ensures
        c == digit_char(d as int),
{
    if d == 0 { '0' } else if d == 1 { '1' } else if d == 2 { '2' } else if d == 3 { '3' }
    else if d == 4 { '4' } else if d == 5 { '5' } else if d == 6 { '6' } else if d == 7 { '7' }
    else if d == 8 { '8' } else { '9' }
}

/// Appends the decimal representation of `n` to `s`.
pub fn push_decimal(s: &mut String, n: u64)
    ensures
        final(s)@ == old(s)@ + decimal(n as nat),
    decreases n,
{
    if n < 10 {
        push_char(s, digit_of(n));
        assert(final(s)@ =~= old(s)@ + decimal(n as nat));
    } else {
        push_decimal(s, n / 10);
        push_char(s, digit_of(n % 10));
        assert(final(s)@ =~= old(s)@ + decimal(n as nat));
    }
}

/// The decimal representation of `n` as a string.
pub fn decimal_string(n: u64) -> (r: String)
    ensures
        r@ == decimal(n as nat),
{
    let mut s = String::new();
    push_decimal(&mut s, n);
    assert(s@ =~= decimal(n as nat));
    s
}

} // verus!

verus! {

/// The character sequences held by a list of strings.
pub open spec fn views_of(v: Seq<String>) -> Seq<Seq<char>> {
    v.map_values(|s: String| s@)
}

/// A copy of a list of strings.
pub fn copy_strings(v: &Vec<String>) -> (r: Vec<String>)
    ensures
        r@ == v@,
{
    let mut r: Vec<String> = Vec::new();
    let mut i: usize = 0;
    while i < v.len()
        invariant
            i <= v@.len(),
            r@ == v@.subrange(0, i as int),
        decreases v@.len() - i,
    {
        r.push(v[i].clone());
        i = i + 1;
        assert(r@ =~= v@.subrange(0, i as int));
    }
    assert(r@ =~= v@);
    r
}

/// The strings of `a` followed by those of `b`.
pub fn concat_strings(a: &Vec<String>, b: &Vec<String>) -> (r: Vec<String>)
    ensures
        r@ == a@ + b@,
{
    let mut r = copy_strings(a);
    let mut i: usize = 0;
    while i < b.len()
        invariant
            i <= b@.len(),
            r@ == a@ + b@.subrange(0, i as int),
        decreases b@.len() - i,
    {
        r.push(b[i].clone());
        i = i + 1;
        assert(r@ =~= a@ + b@.subrange(0, i as int));
    }
    assert(b@.subrange(0, b@.len() as int) =~= b@);
    r
}

} // verus!
