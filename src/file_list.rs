use vstd::prelude::*;

use crate::file::{File, FileView};

verus! {

/// The entries of a list, as mathematical values.
pub open spec fn files_view(items: Seq<File>) -> Seq<FileView> {
    items.map_values(|f: File| f@)
}

/// What a [`FileList`] holds, as mathematical values.
pub struct FileListView {
    pub items: Seq<FileView>,
    pub cursor: Option<usize>,
    pub path: Seq<char>,
}

/// The cursor, if present, points at an entry.
pub open spec fn cursor_in_range(cursor: Option<usize>, len: nat) -> bool {
    match cursor {
        Some(i) => i < len,
        None => true,
    }
}

/// Where the cursor goes on a step down: the first entry from nowhere, the
/// next one otherwise, and it stays on the last entry at the bottom.
pub open spec fn cursor_after_next(cursor: Option<usize>, len: nat) -> Option<usize> {
    if len == 0 {
        cursor
    } else {
        match cursor {
            None => Some(0),
            Some(i) => if i + 1 < len { Some((i + 1) as usize) } else { Some(i) },
        }
    }
}

/// Where the cursor goes on a step up: the last entry from nowhere, the
/// previous one otherwise, and it stays on the first entry at the top.
pub open spec fn cursor_after_previous(cursor: Option<usize>, len: nat) -> Option<usize> {
    if len == 0 {
        cursor
    } else {
        match cursor {
            None => Some((len - 1) as usize),
            Some(i) => if i > 0 { Some((i - 1) as usize) } else { Some(0) },
        }
    }
}

/// The cursor once the list has shrunk to `len` entries: pulled back onto the
/// last entry, or gone when nothing is left.
pub open spec fn cursor_clamped(cursor: Option<usize>, len: nat) -> Option<usize> {
    match cursor {
        Some(i) => if i < len {
            Some(i)
        } else if len == 0 {
            None
        } else {
            Some((len - 1) as usize)
        },
        None => None,
    }
}

/// The cursor of a freshly filled list: on the first entry, if there is one.
pub open spec fn cursor_on_first(len: nat) -> Option<usize> {
    if len > 0 { Some(0) } else { None }
}

/// Number of marked entries.
pub open spec fn selected_in(items: Seq<FileView>) -> nat {
    items.filter(|f: FileView| f.is_selected).len()
}

/// The same entries, none of them marked.
pub open spec fn all_unselected(items: Seq<FileView>) -> Seq<FileView> {
    items.map_values(|f: FileView| f.unselected())
}

impl FileListView {
    pub open spec fn wf(self) -> bool {
        cursor_in_range(self.cursor, self.items.len())
    }

    pub open spec fn select_next(self) -> FileListView {
        FileListView { cursor: cursor_after_next(self.cursor, self.items.len()), ..self }
    }

    pub open spec fn select_previous(self) -> FileListView {
        FileListView { cursor: cursor_after_previous(self.cursor, self.items.len()), ..self }
    }

    /// Flips the mark of the entry under the cursor; nothing without a cursor.
    pub open spec fn change_status(self) -> FileListView {
        match self.cursor {
            Some(i) => FileListView {
                items: self.items.update(i as int, self.items[i as int].toggled()),
                ..self
            },
            None => self,
        }
    }

    pub open spec fn clear_selection(self) -> FileListView {
        FileListView { items: all_unselected(self.items), ..self }
    }

    pub open spec fn replace_contents(self, items: Seq<FileView>, path: Seq<char>) -> FileListView {
        FileListView { items, cursor: cursor_on_first(items.len()), path }
    }
}

/// The entries of one directory, a cursor over them, and the directory's path.
#[derive(Debug)]
pub struct FileList {
    pub items: Vec<File>,
    pub cursor: Option<usize>,
    pub path: String,
}

impl View for FileList {
    type V = FileListView;

    open spec fn view(&self) -> FileListView {
        FileListView { items: files_view(self.items@), cursor: self.cursor, path: self.path@ }
    }
}

impl FileList {
    pub open spec fn wf(&self) -> bool {
        self@.wf()
    }

    /// An empty list with no cursor and an empty path.
    pub open spec fn new_view() -> FileListView {
        FileListView { items: Seq::empty(), cursor: None, path: Seq::empty() }
    }

    /// An empty list with no cursor and an empty path.
    pub fn new() -> (r: FileList)
        ensures
            r@ == FileList::new_view(),
            r.wf(),
    {
        let r = FileList { items: Vec::new(), cursor: None, path: String::new() };
        proof {
            assert(r@.items == Seq::<FileView>::empty());
        }
        r
    }

    /// Moves the cursor one entry down, stopping at the last entry.
    pub fn select_next(&mut self)
        requires
            old(self).wf(),
        ensures
            final(self)@ == old(self)@.select_next(),
            final(self).wf(),
    {
        let len = self.items.len();
        if len > 0 {
            match self.cursor {
                None => {
                    self.cursor = Some(0);
                },
                Some(i) => {
                    if i + 1 < len {
                        self.cursor = Some(i + 1);
                    }
                },
            }
        }
    }

    /// Moves the cursor one entry up, stopping at the first entry.
    pub fn select_previous(&mut self)
        requires
            old(self).wf(),
        ensures
            final(self)@ == old(self)@.select_previous(),
            final(self).wf(),
    {
        let len = self.items.len();
        if len > 0 {
            match self.cursor {
                None => {
                    self.cursor = Some(len - 1);
                },
                Some(i) => {
                    if i > 0 {
                        self.cursor = Some(i - 1);
                    }
                },
            }
        }
    }

    /// Number of marked entries.
    pub fn selected_count(&self) -> (r: usize)
        ensures
            r == selected_in(self@.items),
    {
        let ghost view = self@.items;
        let mut count: usize = 0;
        let mut i: usize = 0;
        while i < self.items.len()
            invariant
                i <= self.items.len(),
                view == files_view(self.items@),
                count == selected_in(view.take(i as int)),
                count <= i,
            decreases self.items.len() - i,
        {
            proof {
                assert(view.take(i + 1) == view.take(i as int).push(view[i as int]));
                view.take(i as int).lemma_filter_push(view[i as int], |f: FileView| f.is_selected);
            }
            if self.items[i].is_selected {
                count = count + 1;
            }
            i = i + 1;
        }
        proof {
            assert(view.take(i as int) == view);
        }
        count
    }

    /// Flips the mark of the entry under the cursor; does nothing without a
    /// cursor.
    pub fn change_status(&mut self)
        requires
            old(self).wf(),
        ensures
            final(self)@ == old(self)@.change_status(),
            final(self).wf(),
    {
        if let Some(i) = self.cursor {
            self.items[i].toggle_selection();
            proof {
                assert(files_view(self.items@) == old(self)@.items.update(
                    i as int,
                    old(self)@.items[i as int].toggled(),
                ));
            }
        }
    }

    /// Unmarks every entry.
    pub fn clear_selection(&mut self)
        requires
            old(self).wf(),
        ensures
            final(self)@ == old(self)@.clear_selection(),
            final(self).wf(),
    {
        let ghost start = self@.items;
        let mut i: usize = 0;
        while i < self.items.len()
            invariant
                i <= self.items.len(),
                self.items@.len() == start.len(),
                self.cursor == old(self).cursor,
                self.path == old(self).path,
                start == old(self)@.items,
                forall|j: int|
                    0 <= j < i ==> #[trigger] self.items@[j]@ == start[j].unselected(),
                forall|j: int|
                    i <= j < self.items@.len() ==> #[trigger] self.items@[j]@ == start[j],
            decreases self.items.len() - i,
        {
            self.items[i].unselect();
            i = i + 1;
        }
        proof {
            assert(files_view(self.items@) == all_unselected(start));
        }
    }

    /// Puts new entries and a new path in place of the old ones, with the
    /// cursor on the first entry (none when the list is empty).
    pub fn replace_contents(&mut self, new_items: Vec<File>, new_path: String)
        ensures
            final(self)@ == old(self)@.replace_contents(files_view(new_items@), new_path@),
            final(self).wf(),
    {
        let len = new_items.len();
        self.items = new_items;
        self.path = new_path;
        if len > 0 {
            self.cursor = Some(0);
        } else {
            self.cursor = None;
        }
    }
}

/// The list after a run of cursor steps, `true` for a step down and `false`
/// for a step up, taken in order.
pub open spec fn after_steps(l: FileListView, steps: Seq<bool>) -> FileListView
    decreases steps.len(),
{
    if steps.len() == 0 {
        l
    } else {
        let before = after_steps(l, steps.drop_last());
        if steps.last() {
            before.select_next()
        } else {
            before.select_previous()
        }
    }
}

/// On a non-empty list, any run of steps up and down leaves the entries as
/// they were and the cursor on an entry: after the first step it is always
/// present and below the number of entries.
pub proof fn lemma_cursor_stays_in_range(l: FileListView, steps: Seq<bool>)
    requires
        l.wf(),
        l.items.len() > 0,
    ensures
        after_steps(l, steps).wf(),
        after_steps(l, steps).items == l.items,
        steps.len() > 0 ==> (after_steps(l, steps).cursor matches Some(i) && i < l.items.len()),
    decreases steps.len(),
{
    if steps.len() > 0 {
        lemma_cursor_stays_in_range(l, steps.drop_last());
    }
}

/// Flipping the mark under the cursor twice gives back the list, and one flip
/// touches no other entry.
pub proof fn lemma_change_status_twice(l: FileListView)
    requires
        l.wf(),
    ensures
        l.change_status().change_status() == l,
        l.change_status().items.len() == l.items.len(),
        l.change_status().cursor == l.cursor,
        l.change_status().path == l.path,
        forall|j: int|
            0 <= j < l.items.len() && l.cursor != Some(j as usize) ==> #[trigger] l.change_status().items[j]
                == l.items[j],
{
    if let Some(i) = l.cursor {
        assert(l.change_status().change_status().items =~= l.items);
    }
}

/// Which of the two lists an operation is aimed at: the one files are moved
/// from, or the one they are moved to.
#[derive(Debug, Default, Clone, Copy, PartialEq, Eq, Structural)]
pub enum FileListType {
    #[default]
    FileListFrom,
    FileListTo,
}

} // verus!
