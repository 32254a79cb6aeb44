//! Whitespace as `char::is_whitespace` defines it, and trimming.
use vstd::prelude::*;

verus! {

/// The characters with the Unicode `White_Space` property, which is what
/// `char::is_whitespace` tests.
pub open spec fn is_ws(c: char) -> bool {
    let u = c as u32;
    (0x09 <= u && u <= 0x0D) || u == 0x20 || u == 0x85 || u == 0xA0 || u == 0x1680 || (0x2000
        <= u && u <= 0x200A) || u == 0x2028 || u == 0x2029 || u == 0x202F || u == 0x205F || u
        == 0x3000
}

/// `s` with its trailing whitespace removed.
pub open spec fn trim_end_seq(s: Seq<char>) -> Seq<char>
    decreases s.len(),
{
    if s.len() > 0 && is_ws(s.last()) {
        trim_end_seq(s.drop_last())
    } else {
        s
    }
}

/// `s` with its leading whitespace removed.
pub open spec fn trim_start_seq(s: Seq<char>) -> Seq<char>
    decreases s.len(),
{
    if s.len() > 0 && is_ws(s[0]) {
        trim_start_seq(s.drop_first())
    } else {
        s
    }
}

/// `s` with whitespace removed at both ends.
pub open spec fn trim_seq(s: Seq<char>) -> Seq<char> {
    trim_start_seq(trim_end_seq(s))
}

/// Every character of `s` is whitespace.
pub open spec fn all_ws(s: Seq<char>) -> bool {
    forall|i: int| 0 <= i < s.len() ==> is_ws(#[trigger] s[i])
}

/// Relies on `str::trim_end`: drops the trailing characters with the
/// `White_Space` property.
#[verifier::external_body]
pub(crate) fn trim_end_str(s: &str) -> (r: &str)
    ensures
        r@ == trim_end_seq(s@),
{
    s.trim_end()
}

/// Relies on `str::trim`: drops the leading and trailing characters with the
/// `White_Space` property.
#[verifier::external_body]
pub(crate) fn trim_str(s: &str) -> (r: &str)
    ensures
        r@ == trim_seq(s@),
{
    s.trim()
}

/// What `trim_end_seq` keeps is a prefix, and it ends in no whitespace.
pub proof fn lemma_trim_end_shape(s: Seq<char>)
    ensures
        trim_end_seq(s).len() <= s.len(),
        trim_end_seq(s) == s.subrange(0, trim_end_seq(s).len() as int),
        trim_end_seq(s).len() > 0 ==> !is_ws(trim_end_seq(s).last()),
        all_ws(s.subrange(trim_end_seq(s).len() as int, s.len() as int)),
    decreases s.len(),
{
    if s.len() > 0 && is_ws(s.last()) {
        lemma_trim_end_shape(s.drop_last());
        let t = trim_end_seq(s.drop_last());
        assert(s.drop_last().subrange(0, t.len() as int) == s.subrange(0, t.len() as int));
        let tail = s.subrange(t.len() as int, s.len() as int);
        let tail0 = s.drop_last().subrange(t.len() as int, s.len() - 1);
        assert forall|i: int| 0 <= i < tail.len() implies is_ws(#[trigger] tail[i]) by {
            if i < tail0.len() {
                assert(tail[i] == tail0[i]);
            }
        }
    } else {
        assert(s.subrange(0, s.len() as int) == s);
        assert(s.subrange(s.len() as int, s.len() as int).len() == 0);
    }
}

/// Trimming trailing whitespace a second time changes nothing.
pub proof fn lemma_trim_end_idempotent(s: Seq<char>)
    ensures
        trim_end_seq(trim_end_seq(s)) == trim_end_seq(s),
{
    lemma_trim_end_shape(s);
}

/// A text is all whitespace exactly when trimming its end leaves nothing.
pub proof fn lemma_all_ws_iff_trim_end_empty(s: Seq<char>)
    ensures
        all_ws(s) <==> trim_end_seq(s).len() == 0,
    decreases s.len(),
{
    lemma_trim_end_shape(s);
    if trim_end_seq(s).len() == 0 {
        assert(s.subrange(0, s.len() as int) == s);
    } else if all_ws(s) {
        let t = trim_end_seq(s);
        assert(t.last() == s[t.len() - 1]);
    }
}

} // verus!
