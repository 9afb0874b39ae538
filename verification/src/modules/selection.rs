//! The highlighted row of a list screen.

use vstd::prelude::*;

verus! {

/// Whether `row` is a fit selection for a list of `len` rows: some row of
/// the list, or none where the list is empty.
pub open spec fn row_fits(row: Option<nat>, len: nat) -> bool {
    match row {
        Some(i) => i < len,
        None => len == 0,
    }
}

/// The selection made fit for a list of `len` rows: none for an empty
/// list, the first row where none was selected, the last row where the
/// selection lay behind it.
pub open spec fn settled_row(row: Option<nat>, len: nat) -> Option<nat> {
    if len == 0 {
        None
    } else {
        match row {
            None => Some(0nat),
            Some(i) => if i < len {
                Some(i)
            } else {
                Some((len - 1) as nat)
            },
        }
    }
}

/// The selection one row further down, stopping at the last row. With no
/// row selected it takes the first.
pub open spec fn next_row(row: Option<nat>, len: nat) -> Option<nat> {
    if len == 0 {
        None
    } else {
        match row {
            None => Some(0nat),
            Some(i) => if i + 1 < len {
                Some(i + 1)
            } else {
                Some((len - 1) as nat)
            },
        }
    }
}

/// The selection one row further up, stopping at the first row. With no
/// row selected it takes the last.
pub open spec fn previous_row(row: Option<nat>, len: nat) -> Option<nat> {
    if len == 0 {
        None
    } else {
        match row {
            None => Some((len - 1) as nat),
            Some(i) => if i == 0 {
                Some(0nat)
            } else if i - 1 < len {
                Some((i - 1) as nat)
            } else {
                Some((len - 1) as nat)
            },
        }
    }
}

/// Which row of a list is highlighted, if any. The list itself lives
/// elsewhere; the operations take its length.
#[derive(Clone, Copy, Debug, PartialEq, Eq)]
pub struct TableCursor {
    pub selected: Option<usize>,
}

impl View for TableCursor {
    type V = Option<nat>;

    open spec fn view(&self) -> Option<nat> {
        match self.selected {
            Some(i) => Some(i as nat),
            None => None,
        }
    }
}

impl Default for TableCursor {
    fn default() -> (cursor: Self)
        ensures
            cursor@ == None::<nat>,
    {
        Self { selected: None }
    }
}

impl TableCursor {
    /// The highlighted row.
    pub fn selected(&self) -> (row: Option<usize>)
        ensures
            row == self.selected,
    {
        self.selected
    }

    /// Makes the selection fit for a list of `len` rows.
    pub fn settle(&mut self, len: usize)
        ensures
            final(self)@ == settled_row(old(self)@, len as nat),
            row_fits(final(self)@, len as nat),
    {
        if len == 0 {
            self.selected = None;
        } else {
            match self.selected {
                None => {
                    self.selected = Some(0);
                },
                Some(i) => {
                    if i >= len {
                        self.selected = Some(len - 1);
                    }
                },
            }
        }
    }

    /// Moves the highlight one row down in a list of `len` rows.
    pub fn select_next(&mut self, len: usize)
        ensures
            final(self)@ == next_row(old(self)@, len as nat),
            row_fits(final(self)@, len as nat),
    {
        if len == 0 {
            self.selected = None;
        } else {
            match self.selected {
                None => {
                    self.selected = Some(0);
                },
                Some(i) => {
                    if i < len - 1 {
                        self.selected = Some(i + 1);
                    } else {
                        self.selected = Some(len - 1);
                    }
                },
            }
        }
    }

    /// Moves the highlight one row up in a list of `len` rows.
    pub fn select_previous(&mut self, len: usize)
        ensures
            final(self)@ == previous_row(old(self)@, len as nat),
            row_fits(final(self)@, len as nat),
    {
        if len == 0 {
            self.selected = None;
        } else {
            match self.selected {
                None => {
                    self.selected = Some(len - 1);
                },
                Some(i) => {
                    if i == 0 {
                        self.selected = Some(0);
                    } else if i - 1 < len {
                        self.selected = Some(i - 1);
                    } else {
                        self.selected = Some(len - 1);
                    }
                },
            }
        }
    }
}

} // verus!
