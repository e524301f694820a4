//! Where the user is in a list and in a text too large for the screen.

use vstd::prelude::*;

verus! {

/// What is selected in a list, and the first item on the screen.
///
/// A selection beyond the end stands until the list is next drawn, which moves it to the last
/// item.
#[derive(Debug, Copy, Clone, PartialEq, Eq, Structural)]
pub struct ListState {
    pub offset: usize,
    pub selected: Option<usize>,
}

impl Default for ListState {
    fn default() -> (r: ListState)
        ensures
            r == no_selection(),
    {
        ListState { offset: 0, selected: None }
    }
}

/// Nothing selected, at the top of the list.
pub open spec fn no_selection() -> ListState {
    ListState { offset: 0, selected: None }
}

impl ListState {
    /// One item further down, or the first item where nothing was selected.
    pub open spec fn next(self) -> ListState {
        ListState {
            selected: match self.selected {
                Some(i) => Some(
                    if i < usize::MAX {
                        (i + 1) as usize
                    } else {
                        i
                    },
                ),
                None => Some(0),
            },
            ..self
        }
    }

    /// One item further up, or as far down as there is where nothing was selected.
    pub open spec fn previous(self) -> ListState {
        ListState {
            selected: match self.selected {
                Some(i) => Some(
                    if i > 0 {
                        (i - 1) as usize
                    } else {
                        i
                    },
                ),
                None => Some(usize::MAX),
            },
            ..self
        }
    }

    /// Selects the next item.
    pub fn select_next(&mut self)
        ensures
            *final(self) == old(self).next(),
    {
        self.selected = match self.selected {
            Some(i) => Some(i.saturating_add(1)),
            None => Some(0),
        };
    }

    /// Selects the previous item.
    pub fn select_previous(&mut self)
        ensures
            *final(self) == old(self).previous(),
    {
        self.selected = match self.selected {
            Some(i) => Some(i.saturating_sub(1)),
            None => Some(usize::MAX),
        };
    }
}

/// How far a text is scrolled, and how many of its rows are on the screen.
///
/// Scrolling beyond the end stands until the text is next drawn, which moves it back; the number
/// of rows is not known before the first drawing.
#[derive(Debug, Copy, Clone, PartialEq, Eq, Structural)]
pub struct ScrollState {
    pub x: u16,
    pub y: u16,
    pub page: Option<u16>,
}

impl Default for ScrollState {
    fn default() -> (r: ScrollState)
        ensures
            r == not_scrolled(),
    {
        ScrollState { x: 0, y: 0, page: None }
    }
}

/// At the top left, before the first drawing.
pub open spec fn not_scrolled() -> ScrollState {
    ScrollState { x: 0, y: 0, page: None }
}

/// The nearest number that a screen position can be.
pub open spec fn clamped(n: int) -> u16 {
    if n < 0 {
        0
    } else if n > u16::MAX {
        u16::MAX
    } else {
        n as u16
    }
}

impl ScrollState {
    /// The rows that a page has; one while that is not known.
    pub open spec fn page_rows(self) -> u16 {
        match self.page {
            Some(rows) => rows,
            None => 1,
        }
    }

    pub open spec fn down(self) -> ScrollState {
        ScrollState { y: clamped(self.y + 1), ..self }
    }

    pub open spec fn up(self) -> ScrollState {
        ScrollState { y: clamped(self.y - 1), ..self }
    }

    pub open spec fn right(self) -> ScrollState {
        ScrollState { x: clamped(self.x + 1), ..self }
    }

    pub open spec fn left(self) -> ScrollState {
        ScrollState { x: clamped(self.x - 1), ..self }
    }

    /// A page further down, the last row of the one before staying in sight.
    pub open spec fn page_down(self) -> ScrollState {
        ScrollState { y: clamped(clamped(self.y + self.page_rows()) - 1), ..self }
    }

    /// A page further up, the first row of the one before staying in sight.
    pub open spec fn page_up(self) -> ScrollState {
        ScrollState { y: clamped(clamped(self.y + 1) - self.page_rows()), ..self }
    }

    /// Scrolls down by one row.
    pub fn scroll_down(&mut self)
        ensures
            *final(self) == old(self).down(),
    {
        self.y = self.y.saturating_add(1);
    }

    /// Scrolls up by one row.
    pub fn scroll_up(&mut self)
        ensures
            *final(self) == old(self).up(),
    {
        self.y = self.y.saturating_sub(1);
    }

    /// Scrolls right by one column.
    pub fn scroll_right(&mut self)
        ensures
            *final(self) == old(self).right(),
    {
        self.x = self.x.saturating_add(1);
    }

    /// Scrolls left by one column.
    pub fn scroll_left(&mut self)
        ensures
            *final(self) == old(self).left(),
    {
        self.x = self.x.saturating_sub(1);
    }

    /// Scrolls down by one page.
    pub fn scroll_page_down(&mut self)
        ensures
            *final(self) == old(self).page_down(),
    {
        let rows: u16 = match self.page {
            Some(rows) => rows,
            None => 1,
        };
        self.y = self.y.saturating_add(rows).saturating_sub(1);
    }

    /// Scrolls up by one page.
    pub fn scroll_page_up(&mut self)
        ensures
            *final(self) == old(self).page_up(),
    {
        let rows: u16 = match self.page {
            Some(rows) => rows,
            None => 1,
        };
        self.y = self.y.saturating_add(1).saturating_sub(rows);
    }
}

/// A page back undoes a page forth, as long as the text is not so long that the rows cannot be
/// counted.
pub proof fn law_page_up_undoes_page_down(state: ScrollState)
    requires
        state.page_rows() >= 1,
        state.y + state.page_rows() <= u16::MAX,
    ensures
        state.page_down().page_up() == state,
{
}

/// A step back undoes a step forth on a list with a selection.
pub proof fn law_previous_undoes_next(state: ListState)
    requires
        state.selected matches Some(i) && i < usize::MAX,
    ensures
        state.next().previous() == state,
{
}

} // verus!
