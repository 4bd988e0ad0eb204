//! Searching and substituting in text, by characters.

use vstd::prelude::*;
use vstd::string::{StrSliceExecFns, StringExecFns};

verus! {

/// The texts of a list of strings.
pub open spec fn texts(strings: Seq<String>) -> Seq<Seq<char>> {
    strings.map_values(|s: String| s@)
}

/// Whether `pattern` stands in `text` at character position `at`.
pub open spec fn occurs_at(text: Seq<char>, pattern: Seq<char>, at: int) -> bool {
    0 <= at && at + pattern.len() <= text.len() && text.subrange(at, at + pattern.len())
        == pattern
}

/// Whether `pattern` stands somewhere in `text`.
pub open spec fn contains_text(text: Seq<char>, pattern: Seq<char>) -> bool {
    exists|at: int| occurs_at(text, pattern, at)
}

/// `text` with every occurrence of `pattern` replaced by `with`, found from
/// left to right and without overlap. An empty pattern replaces nothing.
pub open spec fn replace_all(text: Seq<char>, pattern: Seq<char>, with: Seq<char>) -> Seq<char>
    decreases text.len(),
{
    if pattern.len() == 0 || text.len() == 0 {
        text
    } else if occurs_at(text, pattern, 0) {
        with + replace_all(text.skip(pattern.len() as int), pattern, with)
    } else {
        seq![text[0]] + replace_all(text.skip(1), pattern, with)
    }
}

/// Whether `pattern` stands in `text` at character position `at`.
pub fn text_occurs_at(text: &str, pattern: &str, at: usize) -> (r: bool)
    ensures
        r == occurs_at(text@, pattern@, at as int),
{
    let n: usize = text.unicode_len();
    let m: usize = pattern.unicode_len();
    if at > n || m > n - at {
        return false;
    }
    let window = String::from_str(text.substring_char(at, at + m));
    let wanted = String::from_str(pattern);
    window == wanted
}

/// Whether `pattern` stands somewhere in `text`.
pub fn text_contains(text: &str, pattern: &str) -> (r: bool)
    ensures
        r == contains_text(text@, pattern@),
{
    let n: usize = text.unicode_len();
    let mut at: usize = 0;
    while at <= n
        invariant
            n == text@.len(),
            at <= n + 1,
            forall|k: int| 0 <= k < at ==> !occurs_at(text@, pattern@, k),
        decreases n + 1 - at,
    {
        if text_occurs_at(text, pattern, at) {
            return true;
        }
        if at == n {
            assert forall|k: int| !occurs_at(text@, pattern@, k) by {}
            return false;
        }
        at += 1;
    }
    false
}

/// `text` with every occurrence of `pattern` replaced by `with`.
pub fn text_replace(text: &str, pattern: &str, with: &str) -> (out: String)
    ensures
        out@ == replace_all(text@, pattern@, with@),
{
    let n: usize = text.unicode_len();
    let m: usize = pattern.unicode_len();
    if m == 0 {
        return String::from_str(text);
    }
    let mut out = String::new();
    let mut at: usize = 0;
    assert(text@.skip(0) =~= text@);
    while at < n
        invariant
            n == text@.len(),
            m == pattern@.len(),
            m > 0,
            at <= n,
            out@ + replace_all(text@.skip(at as int), pattern@, with@) == replace_all(
                text@,
                pattern@,
                with@,
            ),
        decreases n - at,
    {
        let ghost rest = text@.skip(at as int);
        let ghost before = out@;
        let here = text_occurs_at(text, pattern, at);
        proof {
            assert(rest.len() > 0);
            if at + m <= n {
                assert(rest.subrange(0, m as int) =~= text@.subrange(at as int, at + m));
            }
            assert(occurs_at(rest, pattern@, 0) == here);
        }
        if here {
            out.append(with);
            proof {
                let tail = replace_all(rest.skip(m as int), pattern@, with@);
                assert(rest.skip(m as int) =~= text@.skip(at + m));
                assert((before + with@) + tail =~= before + (with@ + tail));
            }
            at += m;
        } else {
            out.append(text.substring_char(at, at + 1));
            proof {
                let tail = replace_all(rest.skip(1), pattern@, with@);
                assert(text@.subrange(at as int, at + 1) =~= seq![rest[0]]);
                assert(rest.skip(1) =~= text@.skip(at + 1));
                assert((before + seq![rest[0]]) + tail =~= before + (seq![rest[0]] + tail));
            }
            at += 1;
        }
    }
    assert(text@.skip(n as int) =~= Seq::<char>::empty());
    assert(out@ + Seq::<char>::empty() =~= out@);
    out
}

} // verus!
