//! Small helpers on counters and on text cut to a byte budget.
use vstd::prelude::*;
use vstd::string::StringSliceAdditionalSpecFns;
use vstd::utf8::is_char_boundary;

verus! {

broadcast use vstd::utf8::group_utf8_lib;

/// Increments the counter and returns the value it had before.
pub fn post_inc(value: &mut u64) -> (r: u64)
    requires
        *old(value) < u64::MAX,
    ensures
        r == *old(value),
        *final(value) == *old(value) + 1,
{
    let prev = *value;
    *value = *value + 1;
    prev
}

/// The largest char boundary of `b` below `i`, or 0 when there is none.
pub open spec fn boundary_below(b: Seq<u8>, i: int) -> int
    decreases i,
{
    if i <= 0 {
        0
    } else if is_char_boundary(b, i - 1) {
        i - 1
    } else {
        boundary_below(b, i - 1)
    }
}

/// The byte length that `truncate_to_byte_limit` keeps.
pub open spec fn byte_cut(b: Seq<u8>, max_bytes: int) -> int {
    if b.len() < max_bytes {
        b.len() as int
    } else {
        boundary_below(b, max_bytes)
    }
}

/// The largest `i` below `k` where a line ends: a char boundary holding a
/// newline, followed by a char boundary; -1 when there is none.
pub open spec fn line_end_below(b: Seq<u8>, k: int) -> int
    decreases k,
{
    if k <= 0 {
        -1
    } else if is_char_boundary(b, k - 1) && b[k - 1] == 10u8 && is_char_boundary(b, k) {
        k - 1
    } else {
        line_end_below(b, k - 1)
    }
}

/// The byte length that `truncate_lines_to_byte_limit` keeps.
pub open spec fn line_cut(b: Seq<u8>, max_bytes: int) -> int {
    if b.len() < max_bytes {
        b.len() as int
    } else if line_end_below(b, max_bytes) >= 0 {
        line_end_below(b, max_bytes) + 1
    } else {
        boundary_below(b, max_bytes)
    }
}

/// Cuts `s` at a char boundary so that it is shorter than `max_bytes`
/// bytes; a string that is already shorter is kept whole.
pub fn truncate_to_byte_limit(s: &str, max_bytes: usize) -> (r: &str)
    ensures
        r.spec_bytes() == s.spec_bytes().subrange(0, byte_cut(s.spec_bytes(), max_bytes as int)),
{
    let ghost b = s.spec_bytes();
    if s.as_bytes().len() < max_bytes {
        assert(b.subrange(0, b.len() as int) == b);
        return s;
    }
    let mut i: usize = max_bytes;
    while i > 0
        invariant
            i <= max_bytes <= b.len(),
            b == s.spec_bytes(),
            boundary_below(b, max_bytes as int) == boundary_below(b, i as int),
        decreases i,
    {
        if s.is_char_boundary(i - 1) {
            return s.split_at(i - 1).0;
        }
        i = i - 1;
    }
    assert(is_char_boundary(b, 0));
    s.split_at(0).0
}

/// Cuts `s` after the last newline that keeps it within `max_bytes` bytes,
/// or as `truncate_to_byte_limit` does when no line ends there; a string
/// shorter than `max_bytes` is kept whole.
pub fn truncate_lines_to_byte_limit(s: &str, max_bytes: usize) -> (r: &str)
    ensures
        r.spec_bytes() == s.spec_bytes().subrange(0, line_cut(s.spec_bytes(), max_bytes as int)),
{
    let ghost b = s.spec_bytes();
    let bytes = s.as_bytes();
    if bytes.len() < max_bytes {
        assert(b.subrange(0, b.len() as int) == b);
        return s;
    }
    let mut i: usize = max_bytes;
    while i > 0
        invariant
            i <= max_bytes <= b.len(),
            b == s.spec_bytes(),
            bytes@ == b,
            line_end_below(b, max_bytes as int) == line_end_below(b, i as int),
        decreases i,
    {
        if s.is_char_boundary(i - 1) && bytes[i - 1] == 10u8 && s.is_char_boundary(i) {
            return s.split_at(i).0;
        }
        i = i - 1;
    }
    truncate_to_byte_limit(s, max_bytes)
}

} // verus!
