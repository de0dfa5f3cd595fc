//! The upload ledger.
//!
//! The ledger is an append-only text log: after every confirmed upload
//! two lines are added, the file's absolute path and then its display
//! name. A file is skipped on a later run when its path occurs anywhere
//! in the ledger's text — the lookup is plain substring containment,
//! not a keyed match.

use vstd::prelude::*;

verus! {

/// `pat` occurs as a contiguous run of characters inside `text`.
pub open spec fn spec_contains(text: Seq<char>, pat: Seq<char>) -> bool {
    exists|i: int|
        0 <= i && i + pat.len() <= text.len() && #[trigger] text.subrange(i, i + pat.len()) == pat
}

/// `pat` matches `text` at position `start`, character for character.
spec fn matches_at(text: Seq<char>, pat: Seq<char>, start: int) -> bool {
    forall|j: int| 0 <= j < pat.len() ==> text[start + j] == pat[j]
}

/// A full pointwise match at `start` is exactly a subrange equality.
proof fn lemma_match_at_is_subrange(text: Seq<char>, pat: Seq<char>, start: int)
    requires
        0 <= start,
        start + pat.len() <= text.len(),
    ensures
        matches_at(text, pat, start) <==> text.subrange(start, start + pat.len()) == pat,
{
    if matches_at(text, pat, start) {
        assert(text.subrange(start, start + pat.len()) =~= pat);
    }
    if text.subrange(start, start + pat.len()) == pat {
        assert forall|j: int| 0 <= j < pat.len() implies text[start + j] == pat[j] by {
            assert(text.subrange(start, start + pat.len())[j] == pat[j]);
        }
    }
}

/// Whether `pat` occurs inside `text` at `start` or later.
spec fn contains_from(text: Seq<char>, pat: Seq<char>, start: int) -> bool {
    exists|i: int|
        start <= i && i + pat.len() <= text.len() && #[trigger] text.subrange(i, i + pat.len())
            == pat
}

/// True exactly when the ledger's text `content` holds `path` as a
/// substring. An empty `path` is found in any content.
pub fn has_record(content: &str, path: &str) -> (found: bool)
    ensures
        found == spec_contains(content@, path@),
{
    let text_len = content.unicode_len();
    let pat_len = path.unicode_len();
    if pat_len > text_len {
        proof {
            assert(!spec_contains(content@, path@));
        }
        return false;
    }
    let mut start: usize = 0;
    while start <= text_len - pat_len
        invariant
            pat_len == path@.len(),
            text_len == content@.len(),
            pat_len <= text_len,
            start <= text_len - pat_len + 1,
            spec_contains(content@, path@) == contains_from(content@, path@, start as int),
        decreases text_len - pat_len - start + 1,
    {
        let mut j: usize = 0;
        let mut mismatch = false;
        while j < pat_len
            invariant
                pat_len == path@.len(),
                text_len == content@.len(),
                start + pat_len <= text_len,
                j <= pat_len,
                !mismatch ==> forall|k: int|
                    0 <= k < j ==> content@[start + k] == path@[k],
                mismatch ==> !matches_at(content@, path@, start as int),
            decreases pat_len - j,
        {
            if content.get_char(start + j) != path.get_char(j) {
                mismatch = true;
                proof {
                    assert(content@[start as int + j] != path@[j as int]);
                }
                j = pat_len;
            } else {
                j = j + 1;
            }
        }
        proof {
            lemma_match_at_is_subrange(content@, path@, start as int);
        }
        if !mismatch {
            proof {
                assert(matches_at(content@, path@, start as int));
                assert(content@.subrange(start as int, start as int + path@.len()) == path@);
            }
            return true;
        }
        proof {
            if contains_from(content@, path@, start as int) {
                let i = choose|i: int|
                    start <= i && i + path@.len() <= content@.len()
                        && #[trigger] content@.subrange(i, i + path@.len()) == path@;
                lemma_match_at_is_subrange(content@, path@, i);
                assert(i != start as int);
                assert(contains_from(content@, path@, start as int + 1));
            }
            if contains_from(content@, path@, start as int + 1) {
                let i = choose|i: int|
                    start + 1 <= i && i + path@.len() <= content@.len()
                        && #[trigger] content@.subrange(i, i + path@.len()) == path@;
                assert(contains_from(content@, path@, start as int));
            }
        }
        start = start + 1;
    }
    proof {
        if contains_from(content@, path@, start as int) {
            let i = choose|i: int|
                start <= i && i + path@.len() <= content@.len()
                    && #[trigger] content@.subrange(i, i + path@.len()) == path@;
            assert(false);
        }
    }
    false
}

/// The text of one ledger entry: the file's absolute path, a line
/// break, its display name, a line break.
pub open spec fn spec_ledger_entry(path: Seq<char>, name: Seq<char>) -> Seq<char> {
    path + seq!['\n'] + name + seq!['\n']
}

/// The two lines appended to the ledger for one confirmed upload: the
/// file's absolute path, a line break, its display name, a line break.
pub fn ledger_entry(path: &str, name: &str) -> (entry: String)
    ensures
        entry@ == spec_ledger_entry(path@, name@),
{
    proof {
        reveal_strlit("\n");
        assert("\n"@ =~= seq!['\n']);
    }
    let mut entry = path.to_owned();
    entry.append("\n");
    entry.append(name);
    entry.append("\n");
    proof {
        assert(entry@ =~= path@ + seq!['\n'] + name@ + seq!['\n']);
    }
    entry
}

/// Appending text to the ledger never erases a record: whatever was
/// found in the old content is still found afterwards.
pub proof fn lemma_append_preserves_records(content: Seq<char>, tail: Seq<char>, path: Seq<char>)
    requires
        spec_contains(content, path),
    ensures
        spec_contains(content + tail, path),
{
    let i = choose|i: int|
        0 <= i && i + path.len() <= content.len() && #[trigger] content.subrange(i, i + path.len())
            == path;
    assert((content + tail).subrange(i, i + path.len()) =~= content.subrange(i, i + path.len()));
}

} // verus!
