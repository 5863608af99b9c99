//! The transcript files of a session's output directory, newest first.
//!
//! The caller lists the directory; this module picks the transcripts,
//! splits originals from English translations (a `_EN` suffix before the
//! extension) and orders each list by modification time, newest first,
//! keeping directory order between files of equal time.

use vstd::prelude::*;

verus! {

/// One directory entry as the caller found it.
#[derive(Debug, PartialEq, Eq)]
pub struct DirEntryInfo {
    /// The entry's full path.
    pub path: String,
    /// The last component of the path.
    pub file_name: String,
    /// Whether the entry is a regular file.
    pub is_file: bool,
    /// Modification time in nanoseconds from the Unix epoch (negative
    /// before it); `None` when it could not be read.
    pub modified: Option<i128>,
}

/// The transcripts of the output directory, each list newest first.
#[derive(Debug, PartialEq, Eq)]
pub struct TranscriptionFiles {
    pub original: Vec<String>,
    pub english: Vec<String>,
}

pub open spec fn ends_with(s: Seq<char>, suffix: Seq<char>) -> bool {
    s.len() >= suffix.len() && s.subrange(s.len() - suffix.len(), s.len() as int) == suffix
}

/// A regular file with a known modification time whose extension is
/// `txt` (a file named just `.txt` has none).
pub open spec fn is_transcript(e: DirEntryInfo) -> bool {
    &&& e.is_file
    &&& e.modified is Some
    &&& e.file_name@.len() > 4
    &&& ends_with(e.file_name@, ".txt"@)
}

/// The file name without its `.txt` extension.
pub open spec fn stem(e: DirEntryInfo) -> Seq<char> {
    e.file_name@.subrange(0, e.file_name@.len() - 4)
}

/// The transcript belongs to the English list (`true`) or the original one.
pub open spec fn in_list(e: DirEntryInfo, english: bool) -> bool {
    is_transcript(e) && ends_with(stem(e), "_EN"@) == english
}

pub open spec fn mtime(e: DirEntryInfo) -> i128 {
    e.modified->Some_0
}

/// Entry `p` comes before entry `q`: newer, or as new and listed earlier.
pub open spec fn before(entries: Seq<DirEntryInfo>, p: int, q: int) -> bool {
    mtime(entries[p]) > mtime(entries[q]) || (mtime(entries[p]) == mtime(entries[q]) && p < q)
}

pub open spec fn has(s: Seq<usize>, p: int) -> bool {
    exists|i: int| 0 <= i < s.len() && s[i] == p
}

/// `order` lists the positions of every entry of one list, each once, in
/// the order of `before`.
pub open spec fn listed(entries: Seq<DirEntryInfo>, english: bool, order: Seq<usize>) -> bool {
    &&& forall|i: int|
        0 <= i < order.len() ==> #[trigger] order[i] < entries.len() && in_list(
            entries[order[i] as int],
            english,
        )
    &&& forall|p: int| 0 <= p < entries.len() && in_list(#[trigger] entries[p], english) ==> has(order, p)
    &&& forall|i: int, j: int| 0 <= i < j < order.len() ==> before(entries, #[trigger] order[i] as int, #[trigger] order[j] as int)
}

/// `paths` are the paths of the entries at `order`.
pub open spec fn paths_at(entries: Seq<DirEntryInfo>, order: Seq<usize>, paths: Seq<String>) -> bool {
    &&& paths.len() == order.len()
    &&& forall|i: int| 0 <= i < order.len() ==> (#[trigger] paths[i])@ == entries[order[i] as int].path@
}

fn ends_with_text(s: &str, suffix: &str) -> (r: bool)
    ensures
        r == ends_with(s@, suffix@),
{
    let n = s.unicode_len();
    let m = suffix.unicode_len();
    if n < m {
        return false;
    }
    let mut k: usize = 0;
    while k < m
        invariant
            n == s@.len(),
            m == suffix@.len(),
            m <= n,
            k <= m,
            forall|j: int| 0 <= j < k ==> s@[n - m + j] == suffix@[j],
        decreases m - k,
    {
        if s.get_char(n - m + k) != suffix.get_char(k) {
            assert(s@.subrange(n - m, n as int)[k as int] != suffix@[k as int]);
            return false;
        }
        k = k + 1;
    }
    assert(s@.subrange(n - m, n as int) =~= suffix@);
    true
}

fn classify(e: &DirEntryInfo) -> (r: Option<bool>)
    ensures
        r == (if is_transcript(*e) {
            Some(in_list(*e, true))
        } else {
            None::<bool>
        }),
{
    if !e.is_file || e.modified.is_none() {
        return None;
    }
    let name = e.file_name.as_str();
    let n = name.unicode_len();
    if n <= 4 || !ends_with_text(name, ".txt") {
        return None;
    }
    let s = name.substring_char(0, n - 4);
    Some(ends_with_text(s, "_EN"))
}

/// Positions of one list's entries, in directory order.
fn candidates(entries: &Vec<DirEntryInfo>, english: bool) -> (r: Vec<usize>)
    ensures
        forall|i: int|
            0 <= i < r@.len() ==> #[trigger] r@[i] < entries@.len() && in_list(
                entries@[r@[i] as int],
                english,
            ),
        forall|p: int| 0 <= p < entries@.len() && in_list(#[trigger] entries@[p], english) ==> has(r@, p),
        forall|i: int, j: int| 0 <= i < j < r@.len() ==> #[trigger] r@[i] < #[trigger] r@[j],
{
    let mut r: Vec<usize> = Vec::new();
    let mut p: usize = 0;
    while p < entries.len()
        invariant
            p <= entries@.len(),
            forall|i: int|
                0 <= i < r@.len() ==> #[trigger] r@[i] < p && in_list(entries@[r@[i] as int], english),
            forall|q: int| 0 <= q < p && in_list(#[trigger] entries@[q], english) ==> has(r@, q),
            forall|i: int, j: int| 0 <= i < j < r@.len() ==> #[trigger] r@[i] < #[trigger] r@[j],
        decreases entries@.len() - p,
    {
        let c = classify(&entries[p]);
        let ghost before_push = r@;
        if c == Some(english) {
            r.push(p);
            assert forall|q: int| 0 <= q < p + 1 && in_list(#[trigger] entries@[q], english) implies has(r@, q) by {
                if q < p {
                    let i = choose|i: int| 0 <= i < before_push.len() && before_push[i] == q;
                    assert(r@[i] == q);
                } else {
                    assert(r@[r@.len() - 1] == q);
                }
            }
        }
        p = p + 1;
    }
    r
}

fn mtime_of(e: &DirEntryInfo) -> (r: i128)
    requires
        e.modified is Some,
    ensures
        r == mtime(*e),
{
    match e.modified {
        Some(t) => t,
        None => 0,
    }
}

/// Orders the positions of one list by `before`.
fn order_newest_first(entries: &Vec<DirEntryInfo>, english: bool, cand: Vec<usize>) -> (r: Vec<usize>)
    requires
        forall|i: int|
            0 <= i < cand@.len() ==> #[trigger] cand@[i] < entries@.len() && in_list(
                entries@[cand@[i] as int],
                english,
            ),
        forall|p: int| 0 <= p < entries@.len() && in_list(#[trigger] entries@[p], english) ==> has(cand@, p),
        forall|i: int, j: int| 0 <= i < j < cand@.len() ==> #[trigger] cand@[i] < #[trigger] cand@[j],
    ensures
        listed(entries@, english, r@),
{
    let ghost es = entries@;
    let mut rem = cand;
    let mut out: Vec<usize> = Vec::new();
    while rem.len() > 0
        invariant
            es == entries@,
            forall|i: int|
                0 <= i < rem@.len() ==> #[trigger] rem@[i] < es.len() && in_list(
                    es[rem@[i] as int],
                    english,
                ),
            forall|i: int|
                0 <= i < out@.len() ==> #[trigger] out@[i] < es.len() && in_list(
                    es[out@[i] as int],
                    english,
                ),
            forall|i: int, j: int| 0 <= i < j < rem@.len() ==> #[trigger] rem@[i] != #[trigger] rem@[j],
            forall|p: int| 0 <= p < es.len() && in_list(#[trigger] es[p], english) ==> has(out@, p) || has(rem@, p),
            forall|i: int, j: int| 0 <= i < j < out@.len() ==> before(es, #[trigger] out@[i] as int, #[trigger] out@[j] as int),
            forall|i: int, k: int|
                0 <= i < out@.len() && 0 <= k < rem@.len() ==> before(es, #[trigger] out@[i] as int, #[trigger] rem@[k] as int),
        decreases rem@.len(),
    {
        let mut b: usize = 0;
        let mut j: usize = 1;
        while j < rem.len()
            invariant
                es == entries@,
                1 <= j <= rem@.len(),
                b < j,
                forall|i: int|
                    0 <= i < rem@.len() ==> #[trigger] rem@[i] < es.len() && in_list(
                        es[rem@[i] as int],
                        english,
                    ),
                forall|i: int, k: int| 0 <= i < k < rem@.len() ==> #[trigger] rem@[i] != #[trigger] rem@[k],
                forall|k: int| 0 <= k < j && k != b ==> before(es, rem@[b as int] as int, #[trigger] rem@[k] as int),
            decreases rem@.len() - j,
        {
            let tj = mtime_of(&entries[rem[j]]);
            let tb = mtime_of(&entries[rem[b]]);
            if tj > tb || (tj == tb && rem[j] < rem[b]) {
                assert forall|k: int| 0 <= k < j + 1 && k != j implies before(es, rem@[j as int] as int, #[trigger] rem@[k] as int) by {
                    if k != b as int {
                        assert(before(es, rem@[b as int] as int, rem@[k] as int));
                        assert(rem@[k] != rem@[j as int]);
                    }
                }
                b = j;
            }
            j = j + 1;
        }
        let ghost rem0 = rem@;
        let ghost out0 = out@;
        let pick = rem.remove(b);
        out.push(pick);
        assert forall|p: int| 0 <= p < es.len() && in_list(#[trigger] es[p], english) implies has(out@, p) || has(rem@, p) by {
            if has(out0, p) {
                let i = choose|i: int| 0 <= i < out0.len() && out0[i] == p;
                assert(out@[i] == p);
            } else {
                let k = choose|k: int| 0 <= k < rem0.len() && rem0[k] == p;
                if k == b as int {
                    assert(out@[out0.len() as int] == p);
                } else if k < b as int {
                    assert(rem@[k] == p);
                } else {
                    assert(rem@[k - 1] == p);
                }
            }
        }
        assert forall|i: int, k: int|
            0 <= i < out@.len() && 0 <= k < rem@.len() implies before(es, #[trigger] out@[i] as int, #[trigger] rem@[k] as int) by {
            let k0 = if k < b as int {
                k
            } else {
                k + 1
            };
            assert(rem@[k] == rem0[k0]);
            if i < out0.len() {
                assert(out@[i] == out0[i]);
            } else {
                assert(out@[i] == rem0[b as int]);
            }
        }
        assert forall|i: int, j2: int| 0 <= i < j2 < out@.len() implies before(es, #[trigger] out@[i] as int, #[trigger] out@[j2] as int) by {
            if j2 == out0.len() {
                assert(out@[j2] == rem0[b as int]);
                assert(out@[i] == out0[i]);
            }
        }
        assert forall|i: int, k: int| 0 <= i < k < rem@.len() implies #[trigger] rem@[i] != #[trigger] rem@[k] by {
            let i0 = if i < b as int {
                i
            } else {
                i + 1
            };
            let k0 = if k < b as int {
                k
            } else {
                k + 1
            };
            assert(rem@[i] == rem0[i0]);
            assert(rem@[k] == rem0[k0]);
        }
    }
    assert forall|p: int| 0 <= p < es.len() && in_list(#[trigger] es[p], english) implies has(out@, p) by {
        if has(rem@, p) {
            let k = choose|k: int| 0 <= k < rem@.len() && rem@[k] == p;
        }
    }
    out
}

fn paths_of(entries: &Vec<DirEntryInfo>, order: &Vec<usize>) -> (r: Vec<String>)
    requires
        forall|i: int| 0 <= i < order@.len() ==> #[trigger] order@[i] < entries@.len(),
    ensures
        paths_at(entries@, order@, r@),
{
    let mut r: Vec<String> = Vec::new();
    let mut i: usize = 0;
    while i < order.len()
        invariant
            i <= order@.len(),
            forall|k: int| 0 <= k < order@.len() ==> #[trigger] order@[k] < entries@.len(),
            r@.len() == i,
            forall|k: int| 0 <= k < i ==> (#[trigger] r@[k])@ == entries@[order@[k] as int].path@,
        decreases order@.len() - i,
    {
        r.push(entries[order[i]].path.clone());
        i = i + 1;
    }
    r
}

impl TranscriptionFiles {
    /// The transcripts among `entries`: regular `.txt` files whose
    /// modification time is known, originals and English translations
    /// apart, each list newest first and in directory order between files
    /// of equal time.
    pub fn from_entries(entries: &Vec<DirEntryInfo>) -> (r: TranscriptionFiles)
        ensures
            exists|order: Seq<usize>|
                listed(entries@, false, order) && paths_at(entries@, order, r.original@),
            exists|order: Seq<usize>|
                listed(entries@, true, order) && paths_at(entries@, order, r.english@),
    {
        let orig = order_newest_first(entries, false, candidates(entries, false));
        let eng = order_newest_first(entries, true, candidates(entries, true));
        let original = paths_of(entries, &orig);
        let english = paths_of(entries, &eng);
        TranscriptionFiles { original, english }
    }
}

} // verus!
