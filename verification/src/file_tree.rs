//! The directory tree pane: its entries, selection and scroll.
use vstd::prelude::*;
use crate::paths::{
    entries_sorted, path_parent, sort_entries, spec_path_parent, opt_chars, FileEntry,
};

verus! {

/// The scroll offset after moving the selection to `selected` in a pane of
/// `height` rows: the selection is kept in view.
pub open spec fn scrolled_offset(selected: usize, offset: usize, height: usize) -> usize {
    if height == 0 {
        offset
    } else {
        let o1 = if selected < offset { selected } else { offset };
        if selected >= o1 + height {
            (selected - height + 1) as usize
        } else {
            o1
        }
    }
}

/// The scroll offset after `scroll_tree`-style adjustment, computed without
/// overflow.
pub fn scroll_offset(selected: usize, offset: usize, height: usize) -> (r: usize)
    ensures
        r == scrolled_offset(selected, offset, height),
{
    if height == 0 {
        return offset;
    }
    let mut o = offset;
    if selected < o {
        o = selected;
    }
    if selected - o >= height {
        o = selected - height + 1;
    }
    o
}

pub struct FileTreeState {
    pub list: Vec<String>,
    pub selected: usize,
    pub offset: usize,
    pub show: bool,
    pub current_dir: String,
}

/// The paths of a sorted listing.
pub open spec fn entry_paths(s: Seq<FileEntry>) -> Seq<Seq<char>> {
    s.map_values(|e: FileEntry| e.path@)
}

impl FileTreeState {
    /// An empty, shown tree rooted at `current_dir` (the working directory).
    pub fn new(current_dir: String) -> (t: Self)
        ensures
            t.list@.len() == 0,
            t.selected == 0,
            t.offset == 0,
            t.show,
            t.current_dir@ == current_dir@,
    {
        Self { list: Vec::new(), selected: 0, offset: 0, show: true, current_dir }
    }

    /// Takes a directory listing read from `target_dir`: its entries,
    /// directories first and then by path, become the list, and the selection
    /// is kept inside it. A failed read (`None`) changes nothing.
    pub fn update_file_list(&mut self, target_dir: String, entries: Option<Vec<FileEntry>>)
        ensures
            entries is None ==> *final(self) == *old(self),
            entries matches Some(es) ==> {
                &&& final(self).current_dir@ == target_dir@
                &&& exists|sorted: Seq<FileEntry>|
                    #![trigger entry_paths(sorted)]
                    sorted.to_multiset() == es@.to_multiset() && entries_sorted(sorted, true)
                        && final(self).list@.map_values(|s: String| s@) == entry_paths(sorted)
                &&& final(self).list@.len() == es@.len()
                &&& final(self).selected == (if old(self).selected >= es@.len() {
                    if es@.len() == 0 { 0 } else { (es@.len() - 1) as usize }
                } else {
                    old(self).selected
                })
                &&& final(self).offset == old(self).offset
                &&& final(self).show == old(self).show
            },
    {
        match entries {
            None => {},
            Some(es) => {
                let ghost input = es@;
                self.current_dir = target_dir;
                let sorted = sort_entries(es, true);
                proof {
                    vstd::seq_lib::to_multiset_len(sorted@);
                    vstd::seq_lib::to_multiset_len(input);
                }
                let list = paths_of(sorted);
                self.list = list;
                if self.selected >= self.list.len() {
                    self.selected = if self.list.len() == 0 { 0 } else { self.list.len() - 1 };
                }
            },
        }
    }

    /// Moves the selection down one entry, if not on the last.
    pub fn down(&mut self, h: u16)
        ensures
            old(self).selected + 1 < old(self).list@.len() ==> {
                &&& final(self).selected == old(self).selected + 1
                &&& final(self).offset == scrolled_offset(final(self).selected, old(self).offset, h as usize)
            },
            !(old(self).selected + 1 < old(self).list@.len()) ==> final(self).selected == old(self).selected
                && final(self).offset == old(self).offset,
            final(self).list == old(self).list,
            final(self).show == old(self).show,
            final(self).current_dir == old(self).current_dir,
    {
        let last = if self.list.len() == 0 { 0 } else { self.list.len() - 1 };
        if self.selected < last {
            self.selected = self.selected + 1;
            self.scroll_tree(h);
        }
    }

    /// Moves the selection up one entry, if not on the first.
    pub fn up(&mut self, h: u16)
        ensures
            old(self).selected > 0 ==> {
                &&& final(self).selected == old(self).selected - 1
                &&& final(self).offset == scrolled_offset(final(self).selected, old(self).offset, h as usize)
            },
            old(self).selected == 0 ==> final(self).selected == 0 && final(self).offset == old(self).offset,
            final(self).list == old(self).list,
            final(self).show == old(self).show,
            final(self).current_dir == old(self).current_dir,
    {
        if self.selected > 0 {
            self.selected = self.selected - 1;
            self.scroll_tree(h);
        }
    }

    /// The directory above the current one, whose listing is to be shown next;
    /// `None` at a root.
    pub fn file_tree_parent(&self) -> (r: Option<String>)
        ensures
            opt_chars(r) == spec_path_parent(self.current_dir@),
    {
        path_parent(self.current_dir.as_str())
    }

    /// Scrolls so that the selection is inside a pane of `h` rows.
    pub fn scroll_tree(&mut self, h: u16)
        ensures
            final(self).offset == scrolled_offset(old(self).selected, old(self).offset, h as usize),
            final(self).selected == old(self).selected,
            final(self).list == old(self).list,
            final(self).show == old(self).show,
            final(self).current_dir == old(self).current_dir,
    {
        self.offset = scroll_offset(self.selected, self.offset, h as usize);
    }
}

/// The paths of the entries, in order.
pub fn paths_of(entries: Vec<FileEntry>) -> (r: Vec<String>)
    ensures
        r@.map_values(|s: String| s@) == entry_paths(entries@),
        r@.len() == entries@.len(),
{
    let mut out: Vec<String> = Vec::new();
    let mut i: usize = 0;
    while i < entries.len()
        invariant
            i <= entries@.len(),
            out@.len() == i,
            forall|k: int| 0 <= k < i ==> #[trigger] out@[k]@ == entries@[k].path@,
        decreases entries@.len() - i,
    {
        out.push(entries[i].path.clone());
        i = i + 1;
    }
    proof {
        assert(out@.map_values(|s: String| s@) =~= entry_paths(entries@));
    }
    out
}

/// After scrolling, the selection is inside the pane: the offset is at most
/// the selection, and the selection is less than a pane's height below it.
pub proof fn law_scrolled_selection_visible(selected: usize, offset: usize, height: usize)
    requires
        height > 0,
    ensures
        scrolled_offset(selected, offset, height) <= selected,
        selected < scrolled_offset(selected, offset, height) + height,
{
}

} // verus!
