//! Board tools: the position editor's state and palette, freehand arrows
//! between points, and the board colour scheme cycle.

use vstd::prelude::*;
use crate::xiangqi::{fen_text, Board};

verus! {

/// What the editor is doing.
#[derive(Debug, Clone, Copy, PartialEq, Eq, Structural)]
pub enum EditorMode {
    /// Choosing a piece from the palette.
    Palette,
    /// Placing the chosen piece.
    Placing,
    /// Removing pieces.
    Removing,
}

/// A piece on the editor's palette.
#[derive(Debug, Clone, Copy)]
pub struct PaletteEntry {
    /// Piece letter (`K A E H R C P`).
    pub piece: char,
    pub is_red: bool,
    /// Chinese name.
    pub label: &'static str,
}

/// Editor state.
#[derive(Debug, Clone, Copy)]
pub struct BoardEditor {
    pub active: bool,
    pub mode: EditorMode,
    /// Chosen piece: letter and whether it is Red.
    pub selected_piece: Option<(char, bool)>,
    /// Whether Red is to move in the edited position.
    pub side_to_move: bool,
    pub move_number: u32,
}

/// The palette's pieces in order: Red's seven, then Black's.
pub open spec fn palette_pieces() -> Seq<(char, bool)> {
    seq![
        ('K', true),
        ('A', true),
        ('E', true),
        ('H', true),
        ('R', true),
        ('C', true),
        ('P', true),
        ('K', false),
        ('A', false),
        ('E', false),
        ('H', false),
        ('R', false),
        ('C', false),
        ('P', false)
    ]
}

impl Default for BoardEditor {
    fn default() -> (e: BoardEditor)
        ensures
            !e.active,
            e.mode == EditorMode::Palette,
            e.selected_piece is None,
            e.side_to_move,
            e.move_number == 1,
    {
        BoardEditor { active: false, mode: EditorMode::Palette, selected_piece: None, side_to_move: true, move_number: 1 }
    }
}

impl BoardEditor {
    /// Opens the editor afresh: palette mode, nothing chosen, Red to move,
    /// move 1.
    pub fn start(&mut self)
        ensures
            final(self).active,
            final(self).mode == EditorMode::Palette,
            final(self).selected_piece is None,
            final(self).side_to_move,
            final(self).move_number == 1,
    {
        self.active = true;
        self.mode = EditorMode::Palette;
        self.selected_piece = None;
        self.side_to_move = true;
        self.move_number = 1;
    }

    /// Closes the editor.
    pub fn stop(&mut self)
        ensures
            !final(self).active,
            final(self).selected_piece is None,
            final(self).mode == old(self).mode,
            final(self).side_to_move == old(self).side_to_move,
            final(self).move_number == old(self).move_number,
    {
        self.active = false;
        self.selected_piece = None;
    }

    /// Chooses a piece to place.
    pub fn select_piece(&mut self, piece: char, is_red: bool)
        ensures
            final(self).selected_piece == Some((piece, is_red)),
            final(self).mode == EditorMode::Placing,
            final(self).active == old(self).active,
            final(self).side_to_move == old(self).side_to_move,
    {
        self.selected_piece = Some((piece, is_red));
        self.mode = EditorMode::Placing;
    }

    /// Drops the chosen piece.
    pub fn clear_selection(&mut self)
        ensures
            final(self).selected_piece is None,
            final(self).mode == EditorMode::Palette,
            final(self).active == old(self).active,
            final(self).side_to_move == old(self).side_to_move,
    {
        self.selected_piece = None;
        self.mode = EditorMode::Palette;
    }

    /// Switches the side to move.
    pub fn toggle_side_to_move(&mut self)
        ensures
            final(self).side_to_move == !old(self).side_to_move,
            final(self).active == old(self).active,
            final(self).mode == old(self).mode,
            final(self).selected_piece == old(self).selected_piece,
    {
        self.side_to_move = !self.side_to_move;
    }

    /// The palette: Red's seven pieces, then Black's.
    pub fn palette() -> (v: Vec<PaletteEntry>)
        ensures
            v@.len() == 14,
            forall|i: int| 0 <= i < 14 ==> ((#[trigger] v@[i]).piece, v@[i].is_red) == palette_pieces()[i],
    {
        let mut v: Vec<PaletteEntry> = Vec::new();
    v.push(PaletteEntry { piece: 'K', is_red: true, label: "帅" });
    v.push(PaletteEntry { piece: 'A', is_red: true, label: "仕" });
    v.push(PaletteEntry { piece: 'E', is_red: true, label: "相" });
    v.push(PaletteEntry { piece: 'H', is_red: true, label: "馬" });
    v.push(PaletteEntry { piece: 'R', is_red: true, label: "車" });
    v.push(PaletteEntry { piece: 'C', is_red: true, label: "炮" });
    v.push(PaletteEntry { piece: 'P', is_red: true, label: "兵" });
    v.push(PaletteEntry { piece: 'K', is_red: false, label: "将" });
    v.push(PaletteEntry { piece: 'A', is_red: false, label: "士" });
    v.push(PaletteEntry { piece: 'E', is_red: false, label: "象" });
    v.push(PaletteEntry { piece: 'H', is_red: false, label: "馬" });
    v.push(PaletteEntry { piece: 'R', is_red: false, label: "車" });
    v.push(PaletteEntry { piece: 'C', is_red: false, label: "砲" });
    v.push(PaletteEntry { piece: 'P', is_red: false, label: "卒" });
        v
    }

    /// FEN of the edited position.
    pub fn generate_fen(&self, board: &Board) -> (s: String)
        requires
            board.wf(),
        ensures
            s@ == fen_text(board.squares@, board.side),
    {
        board.to_fen()
    }

    /// Status text: editing or normal.
    pub fn fen_status(&self) -> (s: &'static str)
        ensures
            s@ == if self.active { "编辑模式"@ } else { "正常模式"@ },
    {
        if self.active {
            "编辑模式"
        } else {
            "正常模式"
        }
    }
}

/// An arrow between two points, drawn in a caller-chosen style.
#[derive(Debug)]
pub struct DrawnArrow<S> {
    pub from: (u8, u8),
    pub to: (u8, u8),
    pub style: S,
}

/// Freehand arrows.
pub struct BoardArrowDrawing<S> {
    pub enabled: bool,
    pub arrows: Vec<DrawnArrow<S>>,
    pub drawing_mode: bool,
    /// Style of new arrows.
    pub current_style: S,
    pub start_square: Option<(u8, u8)>,
}

impl<S: Copy> BoardArrowDrawing<S> {
    /// Sets the style of new arrows.
    pub fn set_color(&mut self, style: S)
        ensures
            final(self).current_style == style,
            final(self).enabled == old(self).enabled,
            final(self).arrows@ == old(self).arrows@,
            final(self).drawing_mode == old(self).drawing_mode,
            final(self).start_square == old(self).start_square,
    {
        self.current_style = style;
    }

    /// Enabled, no arrows.
    pub fn new(style: S) -> (d: BoardArrowDrawing<S>)
        ensures
            d.enabled,
            d.arrows@.len() == 0,
            !d.drawing_mode,
            d.current_style == style,
            d.start_square is None,
    {
        BoardArrowDrawing { enabled: true, arrows: Vec::new(), drawing_mode: false, current_style: style, start_square: None }
    }

    /// Adds an arrow in the current style.
    pub fn add_arrow(&mut self, from: (u8, u8), to: (u8, u8))
        ensures
            final(self).arrows@ == old(self).arrows@.push(DrawnArrow { from, to, style: old(self).current_style }),
            final(self).current_style == old(self).current_style,
            final(self).start_square == old(self).start_square,
            final(self).drawing_mode == old(self).drawing_mode,
    {
        self.arrows.push(DrawnArrow { from, to, style: self.current_style });
    }

    /// Removes every arrow.
    pub fn clear_arrows(&mut self)
        ensures
            final(self).arrows@.len() == 0,
            final(self).current_style == old(self).current_style,
    {
        self.arrows.clear();
    }

    /// Starts an arrow on a point.
    pub fn start_drawing(&mut self, square: (u8, u8))
        ensures
            final(self).start_square == Some(square),
            final(self).drawing_mode,
            final(self).arrows@ == old(self).arrows@,
            final(self).current_style == old(self).current_style,
    {
        self.start_square = Some(square);
        self.drawing_mode = true;
    }

    /// Ends the arrow on a point: added unless it starts there too.
    pub fn finish_drawing(&mut self, square: (u8, u8))
        ensures
            final(self).start_square is None,
            !final(self).drawing_mode,
            final(self).arrows@ == match old(self).start_square {
                Some(from) => if from != square {
                    old(self).arrows@.push(DrawnArrow { from, to: square, style: old(self).current_style })
                } else {
                    old(self).arrows@
                },
                None => old(self).arrows@,
            },
            final(self).current_style == old(self).current_style,
    {
        if let Some(from) = self.start_square {
            if !(from.0 == square.0 && from.1 == square.1) {
                self.add_arrow(from, square);
            }
        }
        self.start_square = None;
        self.drawing_mode = false;
    }
}

/// Board colour schemes.
#[derive(Debug, Clone, Copy, PartialEq, Eq, Structural)]
pub enum BoardTheme {
    Classic,
    Modern,
    Wood,
    Green,
    Blue,
    Dark,
    HighContrast,
}

impl BoardTheme {
    /// Chinese label.
    pub fn label_cn(&self) -> (s: &'static str)
        ensures
            s@ == match *self {
                BoardTheme::Classic => "经典"@,
                BoardTheme::Modern => "现代"@,
                BoardTheme::Wood => "木纹"@,
                BoardTheme::Green => "绿色"@,
                BoardTheme::Blue => "蓝色"@,
                BoardTheme::Dark => "暗色"@,
                BoardTheme::HighContrast => "高对比"@,
            },
    {
        match self {
            BoardTheme::Classic => "经典",
            BoardTheme::Modern => "现代",
            BoardTheme::Wood => "木纹",
            BoardTheme::Green => "绿色",
            BoardTheme::Blue => "蓝色",
            BoardTheme::Dark => "暗色",
            BoardTheme::HighContrast => "高对比",
        }
    }

    /// The next scheme in the cycle.
    pub fn next(&self) -> (t: BoardTheme)
        ensures
            t == match *self {
                BoardTheme::Classic => BoardTheme::Modern,
                BoardTheme::Modern => BoardTheme::Wood,
                BoardTheme::Wood => BoardTheme::Green,
                BoardTheme::Green => BoardTheme::Blue,
                BoardTheme::Blue => BoardTheme::Dark,
                BoardTheme::Dark => BoardTheme::HighContrast,
                BoardTheme::HighContrast => BoardTheme::Classic,
            },
    {
        match self {
            BoardTheme::Classic => BoardTheme::Modern,
            BoardTheme::Modern => BoardTheme::Wood,
            BoardTheme::Wood => BoardTheme::Green,
            BoardTheme::Green => BoardTheme::Blue,
            BoardTheme::Blue => BoardTheme::Dark,
            BoardTheme::Dark => BoardTheme::HighContrast,
            BoardTheme::HighContrast => BoardTheme::Classic,
        }
    }
}

} // verus!
