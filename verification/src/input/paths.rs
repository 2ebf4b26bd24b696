//! Lists of paths in which no path occurs twice.
//!
//! The lists are vectors of strings; what they hold is spoken of by the texts
//! of the strings.

use vstd::prelude::*;
use crate::text::str_equal;

verus! {

/// Whether `path` is among `paths`.
pub open spec fn path_listed(paths: Seq<String>, path: Seq<char>) -> bool {
    exists|i: int| 0 <= i < paths.len() && (#[trigger] paths[i])@ == path
}

/// Whether `paths` holds the texts `texts`, in order.
pub open spec fn holds_texts(paths: Seq<String>, texts: Seq<Seq<char>>) -> bool {
    &&& paths.len() == texts.len()
    &&& forall|i: int| 0 <= i < paths.len() ==> (#[trigger] paths[i])@ == texts[i]
}

/// No path occurs twice among `paths`.
pub open spec fn distinct_strings(paths: Seq<String>) -> bool {
    forall|i: int, j: int|
        0 <= i < paths.len() && 0 <= j < paths.len() && i != j ==> (#[trigger] paths[i])@ != (
        #[trigger] paths[j])@
}

/// The texts of `paths` that fulfil `keep`, each once, in the order in which
/// they first occur.
pub open spec fn kept_once(paths: Seq<String>, keep: spec_fn(Seq<char>) -> bool) -> Seq<Seq<char>>
    decreases paths.len(),
{
    if paths.len() == 0 {
        seq![]
    } else {
        let before = kept_once(paths.drop_last(), keep);
        let text = paths.last()@;
        if keep(text) && !before.contains(text) {
            before.push(text)
        } else {
            before
        }
    }
}

/// A list holds a path exactly if the texts that it holds contain it.
pub proof fn lemma_listed_is_contained(paths: Seq<String>, texts: Seq<Seq<char>>, path: Seq<char>)
    requires
        holds_texts(paths, texts),
    ensures
        path_listed(paths, path) <==> texts.contains(path),
{
    if path_listed(paths, path) {
        let i = choose|i: int| 0 <= i < paths.len() && (#[trigger] paths[i])@ == path;
        assert(texts[i] == path);
    }
    if texts.contains(path) {
        let i = choose|i: int| 0 <= i < texts.len() && texts[i] == path;
        assert(paths[i]@ == path);
    }
}

/// A list in which no path occurs twice holds texts without duplicates, and
/// the other way round.
pub proof fn lemma_distinct_is_no_duplicates(paths: Seq<String>, texts: Seq<Seq<char>>)
    requires
        holds_texts(paths, texts),
    ensures
        distinct_strings(paths) <==> texts.no_duplicates(),
{
    if distinct_strings(paths) {
        assert forall|i: int, j: int|
            0 <= i < texts.len() && 0 <= j < texts.len() && i != j implies texts[i] != texts[j] by {
            assert(paths[i]@ == texts[i]);
            assert(paths[j]@ == texts[j]);
        }
    }
    if texts.no_duplicates() {
        assert forall|i: int, j: int|
            0 <= i < paths.len() && 0 <= j < paths.len() && i != j implies (#[trigger] paths[i])@
            != (#[trigger] paths[j])@ by {
            assert(texts[i] != texts[j]);
        }
    }
}

/// What `kept_once` keeps has no duplicates, fulfils `keep` and is among the
/// paths; and every path that fulfils `keep` is kept.
pub proof fn lemma_kept_once(paths: Seq<String>, keep: spec_fn(Seq<char>) -> bool)
    ensures
        kept_once(paths, keep).no_duplicates(),
        forall|text: Seq<char>|
            #[trigger] kept_once(paths, keep).contains(text) <==> keep(text) && path_listed(
                paths,
                text,
            ),
    decreases paths.len(),
{
    if paths.len() > 0 {
        let shorter = paths.drop_last();
        let before = kept_once(shorter, keep);
        let last = paths.last()@;
        let kept = kept_once(paths, keep);
        lemma_kept_once(shorter, keep);
        assert forall|text: Seq<char>| #[trigger]
            kept.contains(text) <==> keep(text) && path_listed(paths, text) by {
            if kept.contains(text) {
                let i = choose|i: int| 0 <= i < kept.len() && kept[i] == text;
                if i < before.len() {
                    assert(before[i] == text);
                    assert(before.contains(text));
                    let k = choose|k: int| 0 <= k < shorter.len() && (#[trigger] shorter[k])@ == text;
                    assert(paths[k] == shorter[k]);
                } else {
                    assert(text == last);
                    assert(paths[paths.len() - 1]@ == text);
                }
            }
            if keep(text) && path_listed(paths, text) {
                let k = choose|k: int| 0 <= k < paths.len() && (#[trigger] paths[k])@ == text;
                if k < shorter.len() {
                    assert(shorter[k] == paths[k]);
                    assert(path_listed(shorter, text));
                    assert(before.contains(text));
                    let i = choose|i: int| 0 <= i < before.len() && before[i] == text;
                    assert(kept[i] == text);
                } else {
                    if before.contains(text) {
                        let i = choose|i: int| 0 <= i < before.len() && before[i] == text;
                        assert(kept[i] == text);
                    } else {
                        assert(kept[kept.len() - 1] == text);
                    }
                }
            }
        }
        assert forall|i: int, j: int|
            0 <= i < kept.len() && 0 <= j < kept.len() && i != j implies kept[i] != kept[j] by {
            if i < before.len() && j < before.len() {
                assert(kept[i] == before[i]);
                assert(kept[j] == before[j]);
            } else if i < before.len() {
                assert(kept[i] == before[i]);
                assert(before.contains(before[i]));
            } else {
                assert(kept[j] == before[j]);
                assert(before.contains(before[j]));
            }
        }
    }
}

/// Tests whether `path` is among `paths`.
pub fn path_is_listed(paths: &Vec<String>, path: &str) -> (r: bool)
    ensures
        r == path_listed(paths@, path@),
{
    let mut i: usize = 0;
    while i < paths.len()
        invariant
            i <= paths.len(),
            forall|j: int| 0 <= j < i ==> (#[trigger] paths@[j])@ != path@,
        decreases paths.len() - i,
    {
        if str_equal(paths[i].as_str(), path) {
            return true;
        }
        i = i + 1;
    }
    false
}

/// Adds `path` to `paths` unless it is there, and says whether it was added.
/// A list in which no path occurs twice stays one.
pub fn push_once(paths: &mut Vec<String>, path: String) -> (added: bool)
    ensures
        added == !path_listed(old(paths)@, path@),
        final(paths)@ == (if added {
            old(paths)@.push(path)
        } else {
            old(paths)@
        }),
        distinct_strings(old(paths)@) ==> distinct_strings(final(paths)@),
{
    if path_is_listed(paths, path.as_str()) {
        false
    } else {
        paths.push(path);
        proof {
            if distinct_strings(old(paths)@) {
                assert forall|i: int, j: int|
                    0 <= i < paths@.len() && 0 <= j < paths@.len() && i != j implies (
                #[trigger] paths@[i])@ != (#[trigger] paths@[j])@ by {
                    if i < old(paths)@.len() {
                        assert(paths@[i] == old(paths)@[i]);
                    }
                    if j < old(paths)@.len() {
                        assert(paths@[j] == old(paths)@[j]);
                    }
                }
            }
        }
        true
    }
}

/// Adds the path that follows the first `n` of `source` to `kept`, if it
/// fulfils `keep`, which `wanted` says, and is not there. `kept` then holds
/// what `kept_once` keeps of one more path.
pub(crate) fn keep_next(
    kept: &mut Vec<String>,
    source: &Vec<String>,
    n: usize,
    wanted: bool,
    Ghost(keep): Ghost<spec_fn(Seq<char>) -> bool>,
)
    requires
        n < source.len(),
        wanted == keep(source@[n as int]@),
        holds_texts(old(kept)@, kept_once(source@.take(n as int), keep)),
    ensures
        holds_texts(final(kept)@, kept_once(source@.take(n + 1), keep)),
{
    proof {
        assert(source@.take(n + 1).drop_last() =~= source@.take(n as int));
        assert(source@.take(n + 1).last() == source@[n as int]);
        lemma_listed_is_contained(
            kept@,
            kept_once(source@.take(n as int), keep),
            source@[n as int]@,
        );
    }
    if wanted {
        let added = push_once(kept, source[n].clone());
    }
}

} // verus!
