use vstd::prelude::*;
use crate::cursor::{advance, retreat, advanced, retreated};
use crate::path::{basename, parent, basename_of, parent_of, lemma_root_is_own_parent};
use crate::selection::{SelectionSet, toggled};

verus! {

/// What a directory session holds, as plain values.
pub struct ListModel {
    /// The directory being shown.
    pub path: Seq<char>,
    /// Its children, in the order in which they were listed.
    pub entries: Seq<Seq<char>>,
    /// The highlighted entry, absent where there is none.
    pub cursor: Option<usize>,
    /// The chosen paths.
    pub selection: Seq<Seq<char>>,
}

/// The entries that a listing gives: none where the directory could not be read.
pub open spec fn listed(listing: Option<Vec<String>>) -> Seq<Seq<char>> {
    match listing {
        Some(v) => v@.map_values(|s: String| s@),
        None => Seq::empty(),
    }
}

/// The cursor on a freshly listed directory: the first entry, or none.
pub open spec fn first_cursor(len: nat) -> Option<usize> {
    if len == 0 {
        None
    } else {
        Some(0usize)
    }
}

/// The cursor kept across a new listing of `len` entries: kept where it still
/// points at an entry, else the first entry, or none.
pub open spec fn settled(cursor: Option<usize>, len: nat) -> Option<usize> {
    match cursor {
        Some(i) if (i as nat) < len => Some(i),
        _ => first_cursor(len),
    }
}

/// The directory session: where the browser is, what is there, the highlighted
/// entry and the chosen paths.
pub struct FileList {
    path: String,
    items: Vec<String>,
    selected: Option<usize>,
    selected_items: SelectionSet,
}

impl View for FileList {
    type V = ListModel;

    closed spec fn view(&self) -> ListModel {
        ListModel {
            path: self.path@,
            entries: self.items@.map_values(|s: String| s@),
            cursor: self.selected,
            selection: self.selected_items@,
        }
    }
}

impl FileList {
    /// The cursor is absent exactly when there is no entry, and points at an
    /// entry otherwise; no path is chosen twice; the entries can be counted in
    /// a `usize`.
    pub open spec fn wf(&self) -> bool {
        &&& match self@.cursor {
            Some(i) => i < self@.entries.len(),
            None => self@.entries.len() == 0,
        }
        &&& self@.selection.no_duplicates()
        &&& self@.entries.len() <= usize::MAX
    }

    /// The entry under the cursor.
    pub open spec fn current_entry(&self) -> Option<Seq<char>> {
        match self@.cursor {
            Some(i) => Some(self@.entries[i as int]),
            None => None,
        }
    }

    /// A session at `path` with the given listing of it, the first entry
    /// highlighted and nothing chosen.
    pub fn new(path: String, listing: Option<Vec<String>>) -> (r: FileList)
        ensures
            r.wf(),
            r@.path == path@,
            r@.entries == listed(listing),
            r@.cursor == first_cursor(listed(listing).len()),
            r@.selection == Seq::<Seq<char>>::empty(),
    {
        let items = match listing {
            Some(v) => v,
            None => Vec::new(),
        };
        let selected = if items.len() == 0 {
            None
        } else {
            Some(0)
        };
        let r = FileList { path, items, selected, selected_items: SelectionSet::new() };
        assert(r@.entries =~= listed(listing));
        r
    }

    /// Replaces the entries with a new listing of the same directory; the
    /// cursor stays where it still points at an entry.
    pub fn update(&mut self, listing: Option<Vec<String>>)
        requires
            old(self).wf(),
        ensures
            final(self).wf(),
            final(self)@.path == old(self)@.path,
            final(self)@.entries == listed(listing),
            final(self)@.cursor == settled(old(self)@.cursor, listed(listing).len()),
            final(self)@.selection == old(self)@.selection,
    {
        let items = match listing {
            Some(v) => v,
            None => Vec::new(),
        };
        let selected = match self.selected {
            Some(i) if i < items.len() => Some(i),
            _ => if items.len() == 0 {
                None
            } else {
                Some(0)
            },
        };
        self.items = items;
        self.selected = selected;
        assert(self@.entries =~= listed(listing));
    }

    /// Enters the highlighted entry where it is a directory: it becomes the
    /// path, the listing of it the entries, and its first entry is highlighted.
    /// Where it is no directory, or nothing is highlighted, nothing changes.
    pub fn dir_next(&mut self, is_dir: bool, listing: Option<Vec<String>>)
        requires
            old(self).wf(),
        ensures
            final(self).wf(),
            old(self)@.cursor is Some && is_dir ==> final(self)@ == (ListModel {
                path: old(self).current_entry()->0,
                entries: listed(listing),
                cursor: first_cursor(listed(listing).len()),
                selection: old(self)@.selection,
            }),
            !(old(self)@.cursor is Some && is_dir) ==> final(self)@ == old(self)@,
            !is_dir ==> final(self)@.path == old(self)@.path,
    {
        if let Some(i) = self.selected {
            if is_dir {
                let target = self.items[i].clone();
                let items = match listing {
                    Some(v) => v,
                    None => Vec::new(),
                };
                self.selected = if items.len() == 0 {
                    None
                } else {
                    Some(0)
                };
                self.path = target;
                self.items = items;
                assert(self@.entries =~= listed(listing));
            }
        }
    }

    /// Goes up to the parent directory with the given listing of it; its first
    /// entry is highlighted. At the root the path stays as it is.
    pub fn dir_back(&mut self, listing: Option<Vec<String>>)
        requires
            old(self).wf(),
        ensures
            final(self).wf(),
            final(self)@ == (ListModel {
                path: parent_of(old(self)@.path),
                entries: listed(listing),
                cursor: first_cursor(listed(listing).len()),
                selection: old(self)@.selection,
            }),
            old(self)@.path == seq!['/'] ==> final(self)@.path == old(self)@.path,
    {
        proof {
            lemma_root_is_own_parent();
        }
        self.path = parent(self.path.as_str());
        let items = match listing {
            Some(v) => v,
            None => Vec::new(),
        };
        self.selected = if items.len() == 0 {
            None
        } else {
            Some(0)
        };
        self.items = items;
        assert(self@.entries =~= listed(listing));
    }

    /// The directory that `dir_back` goes to.
    pub fn parent_path(&self) -> (r: String)
        ensures
            r@ == parent_of(self@.path),
    {
        parent(self.path.as_str())
    }

    /// The path of the highlighted entry.
    pub fn selected_path(&self) -> (r: Option<String>)
        requires
            self.wf(),
        ensures
            match r {
                Some(s) => self.current_entry() == Some(s@),
                None => self.current_entry() is None,
            },
    {
        match self.selected {
            Some(i) => Some(self.items[i].clone()),
            None => None,
        }
    }

    /// The last segment of the highlighted entry, empty where nothing is highlighted.
    pub fn selected_item(&self) -> (r: String)
        requires
            self.wf(),
        ensures
            match self.current_entry() {
                Some(e) => r@ == basename_of(e),
                None => r@ == Seq::<char>::empty(),
            },
    {
        match self.selected {
            Some(i) => basename(self.items[i].as_str()),
            None => String::new(),
        }
    }

    /// Moves the cursor one entry forward, from the last to the first.
    pub fn next(&mut self)
        requires
            old(self).wf(),
        ensures
            final(self).wf(),
            final(self)@ == (ListModel {
                cursor: advanced(old(self)@.cursor, old(self)@.entries.len() as usize),
                ..old(self)@
            }),
    {
        self.selected = advance(self.selected, self.items.len());
    }

    /// Moves the cursor one entry back, from the first to the last.
    pub fn previous(&mut self)
        requires
            old(self).wf(),
        ensures
            final(self).wf(),
            final(self)@ == (ListModel {
                cursor: retreated(old(self)@.cursor, old(self)@.entries.len() as usize),
                ..old(self)@
            }),
    {
        self.selected = retreat(self.selected, self.items.len());
    }

    /// Chooses the highlighted entry, or takes it out of the choice where it
    /// was chosen. Nothing changes where nothing is highlighted.
    pub fn toggle_selected(&mut self)
        requires
            old(self).wf(),
        ensures
            final(self).wf(),
            final(self)@ == (ListModel {
                selection: match old(self).current_entry() {
                    Some(e) => toggled(old(self)@.selection, e),
                    None => old(self)@.selection,
                },
                ..old(self)@
            }),
    {
        if let Some(i) = self.selected {
            let p = self.items[i].clone();
            self.selected_items.toggle(p);
        }
    }

    /// Empties the choice.
    pub fn clear_selection(&mut self)
        requires
            old(self).wf(),
        ensures
            final(self).wf(),
            final(self)@ == (ListModel { selection: Seq::<Seq<char>>::empty(), ..old(self)@ }),
    {
        self.selected_items.clear();
    }

    /// The directory being shown.
    pub fn path(&self) -> (r: &String)
        ensures
            r@ == self@.path,
    {
        &self.path
    }

    /// The entries, in listing order.
    pub fn items(&self) -> (r: &Vec<String>)
        ensures
            r@.map_values(|s: String| s@) == self@.entries,
    {
        &self.items
    }

    /// The highlighted position.
    pub fn selected(&self) -> (r: Option<usize>)
        ensures
            r == self@.cursor,
    {
        self.selected
    }

    /// The chosen paths.
    pub fn selection(&self) -> (r: &SelectionSet)
        ensures
            r@ == self@.selection,
    {
        &self.selected_items
    }
}

} // verus!
