use vstd::prelude::*;

verus! {

/// The pane that receives the navigation keys. Exactly one is active at a time.
#[derive(Clone, Copy, Debug, PartialEq, Eq, Structural)]
pub enum Focus {
    List,
    Preview,
    Info,
    Selection,
}

impl Focus {
    /// The pane after this one in the ring List, Preview, Info, Selection.
    pub open spec fn following(self) -> Focus {
        match self {
            Focus::List => Focus::Preview,
            Focus::Preview => Focus::Info,
            Focus::Info => Focus::Selection,
            Focus::Selection => Focus::List,
        }
    }

    /// Moves to the following pane of the ring.
    pub fn cycle(self) -> (r: Focus)
        ensures
            r == self.following(),
    {
        match self {
            Focus::List => Focus::Preview,
            Focus::Preview => Focus::Info,
            Focus::Info => Focus::Selection,
            Focus::Selection => Focus::List,
        }
    }
}

/// Four steps round the ring come back to the pane they started from, and no
/// fewer do.
pub proof fn lemma_focus_ring(f: Focus)
    ensures
        f.following().following().following().following() == f,
        f.following() != f,
        f.following().following() != f,
        f.following().following().following() != f,
{
}

/// Scroll offset of a text pane: the first row and column shown.
#[derive(Clone, Copy, Debug, PartialEq, Eq, Structural)]
pub struct Scroll {
    pub y: u16,
    pub x: u16,
}

impl Scroll {
    /// The offset at the top left corner.
    pub fn new() -> (r: Scroll)
        ensures
            r.y == 0 && r.x == 0,
    {
        Scroll { y: 0, x: 0 }
    }

    /// One row further down; the row stays put at the largest offset.
    pub fn down(&mut self)
        ensures
            final(self).y == if old(self).y < u16::MAX {
                (old(self).y + 1) as u16
            } else {
                old(self).y
            },
            final(self).x == old(self).x,
    {
        if self.y < u16::MAX {
            self.y = self.y + 1;
        }
    }

    /// One row further up; the row never goes below zero.
    pub fn up(&mut self)
        ensures
            final(self).y == if old(self).y > 0 {
                (old(self).y - 1) as u16
            } else {
                0
            },
            final(self).x == old(self).x,
    {
        if self.y > 0 {
            self.y = self.y - 1;
        }
    }
}

impl Default for Scroll {
    fn default() -> (r: Scroll)
        ensures
            r.y == 0 && r.x == 0,
    {
        Scroll::new()
    }
}

/// The preview pane's own state.
#[derive(Clone, Copy, Debug, PartialEq, Eq, Structural)]
pub struct FilePreview {
    pub scroll: Scroll,
}

/// The metadata pane's own state.
#[derive(Clone, Copy, Debug, PartialEq, Eq, Structural)]
pub struct FileInfo {
    pub scroll: Scroll,
}

/// The selection pane's own state.
#[derive(Clone, Copy, Debug, PartialEq, Eq, Structural)]
pub struct FileSelection {
    pub scroll: Scroll,
}

impl Default for FilePreview {
    fn default() -> (r: FilePreview)
        ensures
            r.scroll == (Scroll { y: 0, x: 0 }),
    {
        FilePreview { scroll: Scroll::new() }
    }
}

impl Default for FileInfo {
    fn default() -> (r: FileInfo)
        ensures
            r.scroll == (Scroll { y: 0, x: 0 }),
    {
        FileInfo { scroll: Scroll::new() }
    }
}

impl Default for FileSelection {
    fn default() -> (r: FileSelection)
        ensures
            r.scroll == (Scroll { y: 0, x: 0 }),
    {
        FileSelection { scroll: Scroll::new() }
    }
}

/// Which pane has the focus, and the scroll offset of each text pane.
#[derive(Clone, Copy, Debug, PartialEq, Eq, Structural)]
pub struct SelectedWidget {
    pub focus: Focus,
    pub file_preview: FilePreview,
    pub file_info: FileInfo,
    pub file_selection: FileSelection,
}

impl SelectedWidget {
    /// The list pane has the focus and every text pane shows its top left corner.
    pub open spec fn is_initial(self) -> bool {
        &&& self.focus == Focus::List
        &&& self.file_preview.scroll == Scroll { y: 0, x: 0 }
        &&& self.file_info.scroll == Scroll { y: 0, x: 0 }
        &&& self.file_selection.scroll == Scroll { y: 0, x: 0 }
    }

    /// Every text pane back at its top left corner, the focus kept.
    pub open spec fn scrolls_reset(self) -> SelectedWidget {
        SelectedWidget {
            focus: self.focus,
            file_preview: FilePreview { scroll: Scroll { y: 0, x: 0 } },
            file_info: FileInfo { scroll: Scroll { y: 0, x: 0 } },
            file_selection: FileSelection { scroll: Scroll { y: 0, x: 0 } },
        }
    }

    /// The list pane has the focus and every text pane is at its top left corner.
    pub fn new() -> (r: SelectedWidget)
        ensures
            r.is_initial(),
    {
        SelectedWidget {
            focus: Focus::List,
            file_preview: FilePreview::default(),
            file_info: FileInfo::default(),
            file_selection: FileSelection::default(),
        }
    }

    /// Hands the focus to the following pane of the ring.
    pub fn change_widget(&mut self)
        ensures
            *final(self) == (SelectedWidget { focus: old(self).focus.following(), ..*old(self) }),
    {
        self.focus = self.focus.cycle();
    }

    /// Puts every text pane back at its top left corner.
    pub fn reset_scrolls(&mut self)
        ensures
            *final(self) == old(self).scrolls_reset(),
    {
        self.file_preview.scroll = Scroll::new();
        self.file_info.scroll = Scroll::new();
        self.file_selection.scroll = Scroll::new();
    }

    /// The panes after the focused text pane scrolled one row down.
    pub open spec fn scrolled_down(self) -> SelectedWidget {
        match self.focus {
            Focus::List => self,
            Focus::Preview => SelectedWidget {
                file_preview: FilePreview { scroll: down_of(self.file_preview.scroll) },
                ..self
            },
            Focus::Info => SelectedWidget {
                file_info: FileInfo { scroll: down_of(self.file_info.scroll) },
                ..self
            },
            Focus::Selection => SelectedWidget {
                file_selection: FileSelection { scroll: down_of(self.file_selection.scroll) },
                ..self
            },
        }
    }

    /// The panes after the focused text pane scrolled one row up.
    pub open spec fn scrolled_up(self) -> SelectedWidget {
        match self.focus {
            Focus::List => self,
            Focus::Preview => SelectedWidget {
                file_preview: FilePreview { scroll: up_of(self.file_preview.scroll) },
                ..self
            },
            Focus::Info => SelectedWidget {
                file_info: FileInfo { scroll: up_of(self.file_info.scroll) },
                ..self
            },
            Focus::Selection => SelectedWidget {
                file_selection: FileSelection { scroll: up_of(self.file_selection.scroll) },
                ..self
            },
        }
    }

    /// Scrolls the focused text pane one row down. With the list focused nothing
    /// changes here.
    pub fn scroll_down(&mut self)
        ensures
            *final(self) == old(self).scrolled_down(),
    {
        match self.focus {
            Focus::List => {},
            Focus::Preview => self.file_preview.scroll.down(),
            Focus::Info => self.file_info.scroll.down(),
            Focus::Selection => self.file_selection.scroll.down(),
        }
    }

    /// Scrolls the focused text pane one row up, never past the top. With the
    /// list focused nothing changes here.
    pub fn scroll_up(&mut self)
        ensures
            *final(self) == old(self).scrolled_up(),
    {
        match self.focus {
            Focus::List => {},
            Focus::Preview => self.file_preview.scroll.up(),
            Focus::Info => self.file_info.scroll.up(),
            Focus::Selection => self.file_selection.scroll.up(),
        }
    }
}

/// A scroll offset one row further down, held at the largest row.
pub open spec fn down_of(s: Scroll) -> Scroll {
    Scroll { y: if s.y < u16::MAX { (s.y + 1) as u16 } else { s.y }, x: s.x }
}

/// A scroll offset one row further up, held at row zero.
pub open spec fn up_of(s: Scroll) -> Scroll {
    Scroll { y: if s.y > 0 { (s.y - 1) as u16 } else { 0 }, x: s.x }
}

impl Default for SelectedWidget {
    fn default() -> (r: SelectedWidget)
        ensures
            r.is_initial(),
    {
        SelectedWidget::new()
    }
}

} // verus!
