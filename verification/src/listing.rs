use vstd::prelude::*;

use crate::paths::{is_root_path, spec_trim_end_slash, trim_end_slashes};
use crate::text::{lemma_seq_le_total, lemma_seq_le_trans, seq_le, str_lt};

verus! {

broadcast use vstd::seq_lib::group_to_multiset_ensures;

/// One entry of a directory listing.
pub struct FileEntry {
    pub name: String,
    pub is_dir: bool,
}

/// Everything the directory-index page shows: the decorated, sorted entries,
/// the canonical and the displayed form of the listed directory, and whether a
/// link to the parent directory is offered.
pub struct IndexContent {
    pub files: Vec<FileEntry>,
    pub full_current_dir: String,
    pub current_dir: String,
    pub has_parent: bool,
}

/// The name an entry is displayed under: directories get a trailing `/`.
pub open spec fn decorated_name(name: Seq<char>, is_dir: bool) -> Seq<char> {
    if is_dir {
        name.push('/')
    } else {
        name
    }
}

/// The content of an entry, abstracted from its representation.
pub open spec fn entry_view(e: FileEntry) -> (Seq<char>, bool) {
    (e.name@, e.is_dir)
}

pub open spec fn entry_views(s: Seq<FileEntry>) -> Seq<(Seq<char>, bool)> {
    s.map_values(|e: FileEntry| entry_view(e))
}

/// The contents a raw enumeration turns into once displayed: each name
/// decorated according to its kind.
pub open spec fn decorated_views(s: Seq<FileEntry>) -> Seq<(Seq<char>, bool)> {
    s.map_values(|e: FileEntry| (decorated_name(e.name@, e.is_dir), e.is_dir))
}

/// The listing order: display names never decrease, by code-point comparison.
pub open spec fn entries_sorted(s: Seq<FileEntry>) -> bool {
    forall|i: int, j: int| 0 <= i < j < s.len() ==> seq_le(s[i].name@, s[j].name@)
}

/// Appends `/` to the display name of every directory entry, keeping order
/// and kinds.
pub fn decorate_entries(entries: Vec<FileEntry>) -> (out: Vec<FileEntry>)
    ensures
        out@.len() == entries@.len(),
        forall|i: int|
            0 <= i < entries@.len() ==> (#[trigger] out@[i]).is_dir == entries@[i].is_dir
                && out@[i].name@ == decorated_name(entries@[i].name@, entries@[i].is_dir),
{
    let n = entries.len();
    let mut out: Vec<FileEntry> = Vec::new();
    let mut i: usize = 0;
    while i < n
        invariant
            i <= n,
            n == entries@.len(),
            out@.len() == i,
            forall|k: int|
                0 <= k < i ==> (#[trigger] out@[k]).is_dir == entries@[k].is_dir
                    && out@[k].name@ == decorated_name(entries@[k].name@, entries@[k].is_dir),
        decreases n - i,
    {
        let mut name = entries[i].name.clone();
        let is_dir = entries[i].is_dir;
        if is_dir {
            name.append("/");
            proof {
                reveal_strlit("/");
                assert(name@ =~= entries@[i as int].name@.push('/'));
            }
        }
        out.push(FileEntry { name, is_dir });
        i = i + 1;
    }
    out
}

/// Sorts entries by display name in code-point order (deliberately not
/// locale-aware), keeping exactly the given contents.
pub fn sort_entries(entries: Vec<FileEntry>) -> (out: Vec<FileEntry>)
    ensures
        entries_sorted(out@),
        entry_views(out@).to_multiset() == entry_views(entries@).to_multiset(),
{
    let ghost all = entries@;
    let mut rem = entries;
    let mut out: Vec<FileEntry> = Vec::new();
    proof {
        assert(entry_views(out@) =~= Seq::<(Seq<char>, bool)>::empty());
        assert(entry_views(out@).to_multiset().add(entry_views(rem@).to_multiset()) =~= entry_views(
            all,
        ).to_multiset());
    }
    while rem.len() > 0
        invariant
            entries_sorted(out@),
            entry_views(out@).to_multiset().add(entry_views(rem@).to_multiset()) == entry_views(
                all,
            ).to_multiset(),
            forall|i: int, j: int|
                0 <= i < out@.len() && 0 <= j < rem@.len() ==> seq_le(
                    #[trigger] out@[i].name@,
                    #[trigger] rem@[j].name@,
                ),
        decreases rem.len(),
    {
        let mut m: usize = 0;
        let mut k: usize = 1;
        while k < rem.len()
            invariant
                m < k,
                k <= rem@.len(),
                forall|j: int| 0 <= j < k ==> seq_le(rem@[m as int].name@, #[trigger] rem@[j].name@),
            decreases rem@.len() - k,
        {
            if str_lt(rem[k].name.as_str(), rem[m].name.as_str()) {
                proof {
                    assert forall|j: int| 0 <= j < k + 1 implies seq_le(
                        rem@[k as int].name@,
                        #[trigger] rem@[j].name@,
                    ) by {
                        if j < k {
                            lemma_seq_le_trans(rem@[k as int].name@, rem@[m as int].name@, rem@[j].name@);
                        }
                    }
                }
                m = k;
            } else {
                proof {
                    assert(seq_le(rem@[m as int].name@, rem@[k as int].name@)) by {
                        lemma_seq_le_total(rem@[m as int].name@, rem@[k as int].name@);
                    }
                }
            }
            k = k + 1;
        }
        let ghost rem0 = rem@;
        let ghost out0 = out@;
        let e = rem.remove(m);
        proof {
            assert(entry_views(rem@) =~= entry_views(rem0).remove(m as int));
            assert(entry_views(rem0)[m as int] == entry_view(e));
        }
        out.push(e);
        proof {
            assert(entry_views(out@) =~= entry_views(out0).push(entry_view(e)));
            let vo = entry_views(out0);
            let vr = entry_views(rem0);
            assert(vo.push(entry_view(e)).to_multiset() =~= vo.to_multiset().insert(
                entry_view(e),
            ));
            assert(vr.remove(m as int).to_multiset() =~= vr.to_multiset().remove(entry_view(e)));
            assert(vr.to_multiset().count(entry_view(e)) > 0) by {
                assert(vr.contains(entry_view(e)));
            }
            assert(vo.to_multiset().insert(entry_view(e)).add(
                vr.to_multiset().remove(entry_view(e)),
            ) =~= vo.to_multiset().add(vr.to_multiset()));
            assert(forall|i: int| 0 <= i < out0.len() ==> #[trigger] out@[i] == out0[i]);
            assert(forall|j: int|
                0 <= j < rem@.len() ==> #[trigger] rem@[j] == if j < m {
                    rem0[j]
                } else {
                    rem0[j + 1]
                });
        }
    }
    out
}

/// What the index page holds for a directory with the given children: exactly
/// those children, their display names decorated and sorted in code-point
/// order; a parent link exactly when the request path is not the root; the
/// request path without trailing separators as the displayed directory; and
/// the canonical path, or its sentinel when none could be determined.
pub open spec fn listing_ok(
    ic: IndexContent,
    entries: Seq<FileEntry>,
    url: Seq<char>,
    canonical: Option<String>,
) -> bool {
    &&& entries_sorted(ic.files@)
    &&& entry_views(ic.files@).to_multiset() == decorated_views(entries).to_multiset()
    &&& (ic.has_parent <==> url != seq!['/'])
    &&& ic.current_dir@ == spec_trim_end_slash(url)
    &&& ic.full_current_dir@ == match canonical {
        Some(c) => c@,
        None => "<unknown>"@,
    }
}

/// Builds the directory-index content from a raw enumeration of immediate
/// children. The entries come out decorated and sorted; the parent link is
/// offered exactly when the request path is not the root; the canonical path
/// falls back to a sentinel when it could not be determined.
pub fn build_listing(entries: Vec<FileEntry>, url: &str, canonical: Option<String>) -> (out:
    IndexContent)
    ensures
        listing_ok(out, entries@, url@, canonical),
{
    let ghost orig = entries@;
    let decorated = decorate_entries(entries);
    proof {
        assert(entry_views(decorated@) =~= decorated_views(orig));
    }
    let files = sort_entries(decorated);
    let full_current_dir = match canonical {
        Some(c) => c,
        None => "<unknown>".to_owned(),
    };
    let current_dir = trim_end_slashes(url).to_owned();
    let has_parent = !is_root_path(url);
    IndexContent { files, full_current_dir, current_dir, has_parent }
}

} // verus!
