//! File paths as text, directory entries and their order in the tree.
use vstd::prelude::*;
use vstd::multiset::Multiset;
use crate::text::{char_at, char_count};

verus! {

/// The characters of an optional string.
pub open spec fn opt_chars(o: Option<String>) -> Option<Seq<char>> {
    match o {
        Some(s) => Some(s@),
        None => None,
    }
}

/// What `Path::parent` gives for a path: the path without its last
/// component, or nothing for a root or an empty path.
pub uninterp spec fn spec_path_parent(p: Seq<char>) -> Option<Seq<char>>;

/// What `Path::extension` gives for a path: the part of the file name after
/// its last `.`, if the name has one that is not its first character.
pub uninterp spec fn spec_path_extension(p: Seq<char>) -> Option<Seq<char>>;

/// Calls `std::path::Path::parent` on the path `p`.
#[verifier::external_body]
pub(crate) fn path_parent(p: &str) -> (r: Option<String>)
    ensures
        opt_chars(r) == spec_path_parent(p@),
{
    std::path::Path::new(p).parent().map(|q| q.to_string_lossy().into_owned())
}

/// Calls `std::path::Path::extension` on the path `p`.
#[verifier::external_body]
pub(crate) fn path_extension(p: &str) -> (r: Option<String>)
    ensures
        opt_chars(r) == spec_path_extension(p@),
{
    std::path::Path::new(p).extension().map(|e| e.to_string_lossy().into_owned())
}

/// What `{:?}` prints for a path given as text: quoted, with special
/// characters escaped.
pub uninterp spec fn spec_debug_quoted(p: Seq<char>) -> Seq<char>;

/// Formats the path `p` with `{:?}` (`Debug` for `Path`).
#[verifier::external_body]
pub(crate) fn debug_quoted(p: &str) -> (r: String)
    ensures
        r@ == spec_debug_quoted(p@),
{
    format!("{:?}", std::path::Path::new(p))
}

/// One entry of a directory listing.
pub struct FileEntry {
    pub path: String,
    pub is_dir: bool,
}

/// `a` comes before `b`, or equals it, character by character (the order of
/// `str`, and of paths that share their directory).
pub open spec fn chars_le(a: Seq<char>, b: Seq<char>) -> bool
    decreases a.len(),
{
    if a.len() == 0 {
        true
    } else if b.len() == 0 {
        false
    } else if a[0] != b[0] {
        (a[0] as int) < (b[0] as int)
    } else {
        chars_le(a.drop_first(), b.drop_first())
    }
}

/// The order of entries in a listing: with `dirs_first`, directories before
/// files; then by path.
pub open spec fn entry_le(a: FileEntry, b: FileEntry, dirs_first: bool) -> bool {
    if dirs_first && a.is_dir != b.is_dir {
        a.is_dir
    } else {
        chars_le(a.path@, b.path@)
    }
}

/// `s` is in the order of `entry_le`.
pub open spec fn entries_sorted(s: Seq<FileEntry>, dirs_first: bool) -> bool {
    forall|i: int, j: int| 0 <= i < j < s.len() ==> entry_le(s[i], s[j], dirs_first)
}

proof fn lemma_chars_le_total(a: Seq<char>, b: Seq<char>)
    ensures
        chars_le(a, b) || chars_le(b, a),
    decreases a.len(),
{
    if a.len() > 0 && b.len() > 0 && a[0] == b[0] {
        lemma_chars_le_total(a.drop_first(), b.drop_first());
    }
}

proof fn lemma_chars_le_trans(a: Seq<char>, b: Seq<char>, c: Seq<char>)
    requires
        chars_le(a, b),
        chars_le(b, c),
    ensures
        chars_le(a, c),
    decreases a.len(),
{
    if a.len() > 0 && b.len() > 0 && c.len() > 0 && a[0] == b[0] && b[0] == c[0] {
        lemma_chars_le_trans(a.drop_first(), b.drop_first(), c.drop_first());
    }
}

proof fn lemma_entry_le_total(a: FileEntry, b: FileEntry, d: bool)
    ensures
        entry_le(a, b, d) || entry_le(b, a, d),
{
    lemma_chars_le_total(a.path@, b.path@);
}

proof fn lemma_entry_le_trans(a: FileEntry, b: FileEntry, c: FileEntry, d: bool)
    requires
        entry_le(a, b, d),
        entry_le(b, c, d),
    ensures
        entry_le(a, c, d),
{
    if !d || (a.is_dir == b.is_dir && b.is_dir == c.is_dir) {
        lemma_chars_le_trans(a.path@, b.path@, c.path@);
    }
}

/// Whether `a` comes strictly before `b` in character order.
fn chars_lt(a: &String, b: &String) -> (r: bool)
    ensures
        r == !chars_le(b@, a@),
{
    let n = char_count(a);
    let m = char_count(b);
    let mut i: usize = 0;
    proof {
        assert(a@.skip(0) =~= a@);
        assert(b@.skip(0) =~= b@);
    }
    while i < n && i < m && char_at(a, i) == char_at(b, i)
        invariant
            n == a@.len(),
            m == b@.len(),
            i <= n,
            i <= m,
            a@.take(i as int) == b@.take(i as int),
            chars_le(b@, a@) == chars_le(b@.skip(i as int), a@.skip(i as int)),
        decreases n - i,
    {
        proof {
            assert(a@.take(i + 1) =~= a@.take(i as int).push(a@[i as int]));
            assert(b@.take(i + 1) =~= b@.take(i as int).push(b@[i as int]));
            assert(a@.skip(i as int).drop_first() =~= a@.skip(i + 1));
            assert(b@.skip(i as int).drop_first() =~= b@.skip(i + 1));
        }
        i = i + 1;
    }
    if i < n && i < m {
        let x = char_at(a, i);
        let y = char_at(b, i);
        proof {
            assert(a@.skip(i as int)[0] == x);
            assert(b@.skip(i as int)[0] == y);
        }
        (x as u32) < (y as u32)
    } else {
        i < m
    }
}

/// Whether `x` comes strictly before `y` in the order of a listing.
fn entry_lt(x: &FileEntry, y: &FileEntry, dirs_first: bool) -> (r: bool)
    ensures
        r == !entry_le(*y, *x, dirs_first),
{
    if dirs_first && x.is_dir != y.is_dir {
        x.is_dir
    } else {
        chars_lt(&x.path, &y.path)
    }
}

/// The same entries, in the order of `entry_le`.
pub fn sort_entries(entries: Vec<FileEntry>, dirs_first: bool) -> (r: Vec<FileEntry>)
    ensures
        r@.to_multiset() == entries@.to_multiset(),
        entries_sorted(r@, dirs_first),
{
    broadcast use vstd::seq_lib::group_to_multiset_ensures, vstd::multiset::group_multiset_axioms;

    let mut rest = entries;
    let ghost all = rest@;
    let mut out: Vec<FileEntry> = Vec::new();
    proof {
        assert(out@.to_multiset() =~= Multiset::<FileEntry>::empty());
        assert(out@.to_multiset().add(rest@.to_multiset()) =~= all.to_multiset());
    }
    while rest.len() > 0
        invariant
            out@.to_multiset().add(rest@.to_multiset()) == all.to_multiset(),
            entries_sorted(out@, dirs_first),
        decreases rest@.len(),
    {
        let ghost before = rest@;
        let x = rest.pop().unwrap();
        proof {
            assert(before =~= rest@.push(x));
        }
        let mut p: usize = 0;
        while p < out.len() && !entry_lt(&x, &out[p], dirs_first)
            invariant
                p <= out@.len(),
                forall|k: int| 0 <= k < p ==> entry_le(out@[k], x, dirs_first),
            decreases out@.len() - p,
        {
            proof {
                lemma_entry_le_total(x, out@[p as int], dirs_first);
            }
            p = p + 1;
        }
        let ghost old_out = out@;
        proof {
            if p < old_out.len() {
                assert forall|k: int| p <= k < old_out.len() implies entry_le(
                    x,
                    #[trigger] old_out[k],
                    dirs_first,
                ) by {
                    lemma_entry_le_total(x, old_out[p as int], dirs_first);
                    if k > p {
                        lemma_entry_le_trans(x, old_out[p as int], old_out[k], dirs_first);
                    }
                }
            }
        }
        out.insert(p, x);
        proof {
            assert forall|i: int, j: int| 0 <= i < j < out@.len() implies entry_le(
                out@[i],
                out@[j],
                dirs_first,
            ) by {
                if j < p {
                } else if j == p {
                } else if i < p {
                    lemma_entry_le_trans(out@[i], x, out@[j], dirs_first);
                } else if i == p {
                } else {
                    assert(out@[i] == old_out[i - 1]);
                    assert(out@[j] == old_out[j - 1]);
                }
            }
            assert(out@ == old_out.insert(p as int, x));
            vstd::seq_lib::to_multiset_insert(old_out, p as int, x);
            vstd::seq_lib::to_multiset_build(rest@, x);
            assert(out@.to_multiset().add(rest@.to_multiset()) =~= old_out.to_multiset().add(
                before.to_multiset(),
            ));
        }
    }
    proof {
        assert(rest@.to_multiset() =~= Multiset::<FileEntry>::empty());
        assert(out@.to_multiset().add(rest@.to_multiset()) =~= out@.to_multiset());
    }
    out
}

} // verus!
