//! Highlighting the file and rank of the selected point, so its
//! coordinates stand out. Colours are of any type the caller draws with.

use vstd::prelude::*;
use crate::xiangqi::Square;

verus! {

/// Highlight state and the two label colours.
pub struct CoordinateHighlight<C> {
    /// Whether highlighting is on.
    pub enabled: bool,
    /// The highlighted point.
    pub highlighted_square: Option<Square>,
    /// Colour of highlighted labels.
    pub highlight_color: C,
    /// Colour of the other labels.
    pub normal_color: C,
}

/// Whether file `file` is highlighted.
pub open spec fn file_lit(sq: Option<Square>, file: u8) -> bool {
    sq matches Some(s) && s.file == file
}

/// Whether rank `rank` is highlighted.
pub open spec fn rank_lit(sq: Option<Square>, rank: u8) -> bool {
    sq matches Some(s) && s.rank == rank
}

impl<C: Copy> CoordinateHighlight<C> {
    /// Enabled, nothing highlighted.
    pub fn new(highlight_color: C, normal_color: C) -> (h: CoordinateHighlight<C>)
        ensures
            h.enabled,
            h.highlighted_square is None,
            h.highlight_color == highlight_color,
            h.normal_color == normal_color,
    {
        CoordinateHighlight { enabled: true, highlighted_square: None, highlight_color, normal_color }
    }

    /// Turns highlighting on.
    pub fn enable(&mut self)
        ensures
            final(self).enabled,
            final(self).highlighted_square == old(self).highlighted_square,
            final(self).highlight_color == old(self).highlight_color,
            final(self).normal_color == old(self).normal_color,
    {
        self.enabled = true;
    }

    /// Turns highlighting off and clears the point.
    pub fn disable(&mut self)
        ensures
            !final(self).enabled,
            final(self).highlighted_square is None,
            final(self).highlight_color == old(self).highlight_color,
            final(self).normal_color == old(self).normal_color,
    {
        self.enabled = false;
        self.highlighted_square = None;
    }

    /// Toggles highlighting.
    pub fn toggle(&mut self)
        ensures
            final(self).enabled == !old(self).enabled,
            final(self).highlighted_square == if old(self).enabled {
                None
            } else {
                old(self).highlighted_square
            },
            final(self).highlight_color == old(self).highlight_color,
            final(self).normal_color == old(self).normal_color,
    {
        if self.enabled {
            self.disable();
        } else {
            self.enable();
        }
    }

    /// Highlights `square` when highlighting is on.
    pub fn set_square(&mut self, square: Option<Square>)
        ensures
            final(self).highlighted_square == if old(self).enabled {
                square
            } else {
                old(self).highlighted_square
            },
            final(self).enabled == old(self).enabled,
            final(self).highlight_color == old(self).highlight_color,
            final(self).normal_color == old(self).normal_color,
    {
        if self.enabled {
            self.highlighted_square = square;
        }
    }

    /// Clears the highlighted point.
    pub fn clear(&mut self)
        ensures
            final(self).highlighted_square is None,
            final(self).enabled == old(self).enabled,
            final(self).highlight_color == old(self).highlight_color,
            final(self).normal_color == old(self).normal_color,
    {
        self.highlighted_square = None;
    }

    /// Whether labels of file `file` are highlighted.
    pub fn is_file_highlighted(&self, file: u8) -> (b: bool)
        ensures
            b == file_lit(self.highlighted_square, file),
    {
        match self.highlighted_square {
            Some(s) => s.file() == file,
            None => false,
        }
    }

    /// Whether labels of rank `rank` are highlighted.
    pub fn is_rank_highlighted(&self, rank: u8) -> (b: bool)
        ensures
            b == rank_lit(self.highlighted_square, rank),
    {
        match self.highlighted_square {
            Some(s) => s.rank() == rank,
            None => false,
        }
    }

    /// Colour of the labels of file `file`.
    pub fn file_color(&self, file: u8) -> (c: C)
        ensures
            c == if file_lit(self.highlighted_square, file) {
                self.highlight_color
            } else {
                self.normal_color
            },
    {
        if self.is_file_highlighted(file) {
            self.highlight_color
        } else {
            self.normal_color
        }
    }

    /// Colour of the labels of rank `rank`.
    pub fn rank_color(&self, rank: u8) -> (c: C)
        ensures
            c == if rank_lit(self.highlighted_square, rank) {
                self.highlight_color
            } else {
                self.normal_color
            },
    {
        if self.is_rank_highlighted(rank) {
            self.highlight_color
        } else {
            self.normal_color
        }
    }

    /// Follows the selection: highlights the selected point, or clears the
    /// highlight when nothing is selected.
    pub fn follow_selection(&mut self, selected: Option<Square>)
        ensures
            final(self).highlighted_square == match selected {
                Some(_) => if old(self).enabled {
                    selected
                } else {
                    old(self).highlighted_square
                },
                None => None,
            },
            final(self).enabled == old(self).enabled,
    {
        if selected.is_some() {
            self.set_square(selected);
        } else {
            self.clear();
        }
    }
}

} // verus!
