//! Classification of the way an HTTP/3 connection ended.
//!
//! The transport's error types are non-exhaustive, so the classification
//! reads the text that each error of the cause chain renders to and looks
//! for the markers of a cooperative close. An error whose chain shows none
//! of them is not graceful.

use vstd::prelude::*;

verus! {

/// `needle` occurs in `hay` as a contiguous run.
pub open spec fn contains(hay: Seq<char>, needle: Seq<char>) -> bool {
    exists|i: int|
        0 <= i && i + needle.len() <= hay.len() && #[trigger] hay.subrange(i, i + needle.len())
            == needle
}

/// The markers looked for in the rendering of the error itself: the "no
/// error" close code, a zero application-close code in either of its two
/// renderings, and an explicit closed connection.
pub open spec fn shows_close_marker(text: Seq<char>) -> bool {
    ||| contains(text, "NO_ERROR"@)
    ||| contains(text, "ApplicationClose: 0x0"@)
    ||| contains(text, "ApplicationClose(0x0)"@)
    ||| contains(text, "ConnectionClosed"@)
}

/// The markers looked for in the rendering of each underlying cause.
pub open spec fn shows_cause_marker(text: Seq<char>) -> bool {
    ||| contains(text, "NO_ERROR"@)
    ||| contains(text, "ApplicationClose"@)
}

/// A cause chain, rendered: the error itself first, then each cause in turn.
/// It ended gracefully iff the error shows a close marker or some cause
/// shows a cause marker.
pub open spec fn graceful_chain(chain: Seq<Seq<char>>) -> bool {
    &&& chain.len() > 0
    &&& {
        ||| shows_close_marker(chain[0])
        ||| exists|i: int| 1 <= i < chain.len() && #[trigger] shows_cause_marker(chain[i])
    }
}

/// The characters of `s`, one per element.
fn chars_of(s: &str) -> (r: Vec<char>)
    ensures
        r@ == s@,
{
    let n = s.unicode_len();
    let mut r: Vec<char> = Vec::new();
    let mut i: usize = 0;
    while i < n
        invariant
            n == s@.len(),
            i <= n,
            r@ == s@.subrange(0, i as int),
        decreases n - i,
    {
        r.push(s.get_char(i));
        i = i + 1;
    }
    assert(r@ =~= s@);
    r
}

/// Whether `needle` occurs in `hay`.
fn occurs_in(hay: &Vec<char>, needle: &Vec<char>) -> (r: bool)
    ensures
        r == contains(hay@, needle@),
{
    let n = hay.len();
    let m = needle.len();
    if m > n {
        return false;
    }
    let mut i: usize = 0;
    while i <= n - m
        invariant
            n == hay@.len(),
            m == needle@.len(),
            m <= n,
            i <= n - m + 1,
            forall|k: int| 0 <= k < i ==> #[trigger] hay@.subrange(k, k + m) != needle@,
        decreases n - m + 1 - i,
    {
        let mut j: usize = 0;
        let mut same = true;
        while j < m && same
            invariant
                n == hay@.len(),
                m == needle@.len(),
                i + m <= n,
                j <= m,
                same ==> forall|t: int| 0 <= t < j ==> hay@[i + t] == needle@[t],
                !same ==> hay@[i + j - 1] != needle@[j - 1] && j >= 1,
            decreases m - j + (if same { 1int } else { 0 }),
        {
            if hay[i + j] != needle[j] {
                same = false;
            }
            j = j + 1;
        }
        if same {
            assert(hay@.subrange(i as int, i + m) =~= needle@);
            return true;
        }
        assert(hay@.subrange(i as int, i + m)[j - 1] != needle@[j - 1]);
        i = i + 1;
    }
    proof {
        assert forall|k: int| 0 <= k && k + needle@.len() <= hay@.len() implies #[trigger] hay@.subrange(
            k,
            k + needle@.len(),
        ) != needle@ by {
            assert(0 <= k < i);
        }
    }
    false
}

/// Whether `text` contains `marker`.
fn mentions(text: &Vec<char>, marker: &str) -> (r: bool)
    ensures
        r == contains(text@, marker@),
{
    let m = chars_of(marker);
    occurs_in(text, &m)
}

/// Whether the rendering of the error itself shows a close marker.
fn has_close_marker(text: &Vec<char>) -> (r: bool)
    ensures
        r == shows_close_marker(text@),
{
    mentions(text, "NO_ERROR") || mentions(text, "ApplicationClose: 0x0") || mentions(
        text,
        "ApplicationClose(0x0)",
    ) || mentions(text, "ConnectionClosed")
}

/// Whether the rendering of a cause shows a cause marker.
fn has_cause_marker(text: &Vec<char>) -> (r: bool)
    ensures
        r == shows_cause_marker(text@),
{
    mentions(text, "NO_ERROR") || mentions(text, "ApplicationClose")
}

/// Classifies a rendered cause chain: the rendering of the error itself
/// first, then that of each cause, nearest first.
pub fn is_graceful_close_chain(chain: &Vec<String>) -> (r: bool)
    ensures
        r == graceful_chain(chain@.map_values(|s: String| s@)),
{
    let ghost texts = chain@.map_values(|s: String| s@);
    if chain.len() == 0 {
        return false;
    }
    let top = chars_of(chain[0].as_str());
    if has_close_marker(&top) {
        return true;
    }
    let mut i: usize = 1;
    while i < chain.len()
        invariant
            1 <= i <= chain@.len(),
            texts == chain@.map_values(|s: String| s@),
            forall|k: int| 1 <= k < i ==> !#[trigger] shows_cause_marker(texts[k]),
        decreases chain@.len() - i,
    {
        let cause = chars_of(chain[i].as_str());
        if has_cause_marker(&cause) {
            assert(shows_cause_marker(texts[i as int]));
            return true;
        }
        i = i + 1;
    }
    false
}

} // verus!
