//! Game modes and display settings: who plays, which way the board faces,
//! animation speed, board size and colour theme.

use vstd::prelude::*;
use crate::xiangqi::{Color, Square};

verus! {

/// How the game is played.
#[derive(Debug, Clone, Copy, PartialEq, Eq, Structural)]
pub enum GameMode {
    LocalPvp,
    VsAi,
    LanHost,
    LanJoin,
    RelayHost,
    RelayJoin,
}

impl GameMode {
    /// Whether the opponent is across a network.
    pub fn is_networked(self) -> (b: bool)
        ensures
            b == (self == GameMode::LanHost || self == GameMode::LanJoin || self == GameMode::RelayHost
                || self == GameMode::RelayJoin),
    {
        match self {
            GameMode::LanHost | GameMode::LanJoin | GameMode::RelayHost | GameMode::RelayJoin => true,
            _ => false,
        }
    }

    /// Whether this side hosts the networked game.
    pub fn is_net_host(self) -> (b: bool)
        ensures
            b == (self == GameMode::LanHost || self == GameMode::RelayHost),
    {
        match self {
            GameMode::LanHost | GameMode::RelayHost => true,
            _ => false,
        }
    }
}

/// Whether the local player is to move: always in a local game, otherwise
/// when the side to move is the local colour.
pub fn local_to_move(mode: GameMode, side_to_move: Color, local_color: Color) -> (b: bool)
    ensures
        b == (mode == GameMode::LocalPvp || side_to_move == local_color),
{
    match mode {
        GameMode::LocalPvp => true,
        _ => side_to_move == local_color,
    }
}

/// Which side is drawn at the bottom.
#[derive(Debug, Clone, Copy, PartialEq, Eq, Structural)]
pub enum BoardOrientation {
    Red,
    Black,
}

impl BoardOrientation {
    /// The orientation with `color` at the bottom.
    pub fn from_color(color: Color) -> (o: BoardOrientation)
        ensures
            o == match color {
                Color::Red => BoardOrientation::Red,
                Color::Black => BoardOrientation::Black,
            },
    {
        match color {
            Color::Red => BoardOrientation::Red,
            Color::Black => BoardOrientation::Black,
        }
    }
}

/// Column and row a point is drawn at, counted from the bottom-left: the
/// point itself for Red, turned half a turn for Black.
pub open spec fn screen_point(sq: Square, o: BoardOrientation) -> (int, int) {
    match o {
        BoardOrientation::Red => (sq.file as int, sq.rank as int),
        BoardOrientation::Black => (8 - sq.file, 9 - sq.rank),
    }
}

/// Column and row a point is drawn at (see [`screen_point`]).
pub fn oriented_point(sq: Square, o: BoardOrientation) -> (p: (u8, u8))
    requires
        sq.valid(),
    ensures
        (p.0 as int, p.1 as int) == screen_point(sq, o),
        p.0 < 9 && p.1 < 10,
{
    match o {
        BoardOrientation::Red => (sq.file, sq.rank),
        BoardOrientation::Black => (8 - sq.file, 9 - sq.rank),
    }
}

/// Under Black's orientation every point is drawn where Red's orientation
/// draws the point turned half a turn, and turning twice gives it back.
pub proof fn law_orientation_is_half_turn(sq: Square)
    requires
        sq.valid(),
    ensures
        ({
            let (c, r) = screen_point(sq, BoardOrientation::Black);
            let turned = Square { file: c as u8, rank: r as u8 };
            &&& turned.valid()
            &&& screen_point(turned, BoardOrientation::Black) == screen_point(sq, BoardOrientation::Red)
        }),
{
}

/// Animation speed.
#[derive(Debug, Clone, Copy, PartialEq, Eq, Structural)]
pub enum AnimSpeed {
    Fast,
    Normal,
    Slow,
}

impl AnimSpeed {
    /// The next speed in the cycle.
    pub fn next(self) -> (s: AnimSpeed)
        ensures
            s == match self {
                AnimSpeed::Fast => AnimSpeed::Normal,
                AnimSpeed::Normal => AnimSpeed::Slow,
                AnimSpeed::Slow => AnimSpeed::Fast,
            },
    {
        match self {
            AnimSpeed::Fast => AnimSpeed::Normal,
            AnimSpeed::Normal => AnimSpeed::Slow,
            AnimSpeed::Slow => AnimSpeed::Fast,
        }
    }

    /// Chinese label.
    pub fn label(self) -> (s: &'static str)
        ensures
            s@ == match self {
                AnimSpeed::Fast => "快"@,
                AnimSpeed::Normal => "正常"@,
                AnimSpeed::Slow => "慢"@,
            },
    {
        match self {
            AnimSpeed::Fast => "快",
            AnimSpeed::Normal => "正常",
            AnimSpeed::Slow => "慢",
        }
    }

    /// Icon text.
    pub fn emoji(self) -> (s: &'static str)
        ensures
            s@ == match self {
                AnimSpeed::Fast => "「疾」"@,
                AnimSpeed::Normal => "「常」"@,
                AnimSpeed::Slow => "「缓」"@,
            },
    {
        match self {
            AnimSpeed::Fast => "「疾」",
            AnimSpeed::Normal => "「常」",
            AnimSpeed::Slow => "「缓」",
        }
    }
}

impl Default for AnimSpeed {
    fn default() -> (s: AnimSpeed)
        ensures
            s == AnimSpeed::Normal,
    {
        AnimSpeed::Normal
    }
}

/// Board size presets.
#[derive(Debug, Clone, Copy, PartialEq, Eq, Structural)]
pub enum BoardSize {
    Small,
    Medium,
    Large,
    ExtraLarge,
    /// A size in pixels.
    Custom(u32),
}

/// Pixels of a size.
pub open spec fn size_pixels(s: BoardSize) -> int {
    match s {
        BoardSize::Small => 400,
        BoardSize::Medium => 600,
        BoardSize::Large => 800,
        BoardSize::ExtraLarge => 1000,
        BoardSize::Custom(p) => p as int,
    }
}

impl BoardSize {
    /// Pixels of this size.
    pub fn pixels(&self) -> (p: u32)
        ensures
            p == size_pixels(*self),
    {
        match self {
            BoardSize::Small => 400,
            BoardSize::Medium => 600,
            BoardSize::Large => 800,
            BoardSize::ExtraLarge => 1000,
            BoardSize::Custom(size) => *size,
        }
    }

    /// The next larger size; custom sizes grow by 100 pixels.
    pub fn next_larger(&self) -> (s: BoardSize)
        requires
            *self matches BoardSize::Custom(p) ==> p <= u32::MAX - 100,
        ensures
            s == match *self {
                BoardSize::Small => BoardSize::Medium,
                BoardSize::Medium => BoardSize::Large,
                BoardSize::Large => BoardSize::ExtraLarge,
                BoardSize::ExtraLarge => BoardSize::ExtraLarge,
                BoardSize::Custom(p) => BoardSize::Custom((p + 100) as u32),
            },
    {
        match self {
            BoardSize::Small => BoardSize::Medium,
            BoardSize::Medium => BoardSize::Large,
            BoardSize::Large => BoardSize::ExtraLarge,
            BoardSize::ExtraLarge => BoardSize::ExtraLarge,
            BoardSize::Custom(size) => BoardSize::Custom(*size + 100),
        }
    }

    /// The next smaller size; custom sizes shrink by 100 pixels, down to 0.
    pub fn next_smaller(&self) -> (s: BoardSize)
        ensures
            s == match *self {
                BoardSize::Small => BoardSize::Small,
                BoardSize::Medium => BoardSize::Small,
                BoardSize::Large => BoardSize::Medium,
                BoardSize::ExtraLarge => BoardSize::Large,
                BoardSize::Custom(p) => BoardSize::Custom(if p >= 100 { (p - 100) as u32 } else { 0 }),
            },
    {
        match self {
            BoardSize::Small => BoardSize::Small,
            BoardSize::Medium => BoardSize::Small,
            BoardSize::Large => BoardSize::Medium,
            BoardSize::ExtraLarge => BoardSize::Large,
            BoardSize::Custom(size) => BoardSize::Custom(size.saturating_sub(100)),
        }
    }
}

/// Growing a preset never shrinks it and shrinking never grows it.
pub proof fn law_size_steps_monotone(s: BoardSize)
    requires
        !(s is Custom),
    ensures
        size_pixels(s) <= size_pixels(
            match s {
                BoardSize::Small => BoardSize::Medium,
                BoardSize::Medium => BoardSize::Large,
                BoardSize::Large => BoardSize::ExtraLarge,
                _ => BoardSize::ExtraLarge,
            },
        ),
        size_pixels(
            match s {
                BoardSize::Small => BoardSize::Small,
                BoardSize::Medium => BoardSize::Small,
                BoardSize::Large => BoardSize::Medium,
                _ => BoardSize::Large,
            },
        ) <= size_pixels(s),
{
}

/// Colour themes of the board.
#[derive(Debug, Clone, Copy, PartialEq, Eq, Structural)]
pub enum ThemeId {
    Classic,
    Dark,
    Paper,
    Rosewood,
    Jade,
}

impl ThemeId {
    /// The next theme in the cycle.
    pub fn next(self) -> (t: ThemeId)
        ensures
            t == match self {
                ThemeId::Classic => ThemeId::Dark,
                ThemeId::Dark => ThemeId::Paper,
                ThemeId::Paper => ThemeId::Rosewood,
                ThemeId::Rosewood => ThemeId::Jade,
                ThemeId::Jade => ThemeId::Classic,
            },
    {
        match self {
            ThemeId::Classic => ThemeId::Dark,
            ThemeId::Dark => ThemeId::Paper,
            ThemeId::Paper => ThemeId::Rosewood,
            ThemeId::Rosewood => ThemeId::Jade,
            ThemeId::Jade => ThemeId::Classic,
        }
    }

    /// Chinese label.
    pub fn label(self) -> (s: &'static str)
        ensures
            s@ == match self {
                ThemeId::Classic => "经典"@,
                ThemeId::Dark => "暗色"@,
                ThemeId::Paper => "素纸"@,
                ThemeId::Rosewood => "红木"@,
                ThemeId::Jade => "翡翠"@,
            },
    {
        match self {
            ThemeId::Classic => "经典",
            ThemeId::Dark => "暗色",
            ThemeId::Paper => "素纸",
            ThemeId::Rosewood => "红木",
            ThemeId::Jade => "翡翠",
        }
    }

    /// Icon.
    pub fn emoji(self) -> (s: &'static str)
        ensures
            s@ == match self {
                ThemeId::Classic => "📜"@,
                ThemeId::Dark => "🌙"@,
                ThemeId::Paper => "📄"@,
                ThemeId::Rosewood => "🪵"@,
                ThemeId::Jade => "🟢"@,
            },
    {
        match self {
            ThemeId::Classic => "📜",
            ThemeId::Dark => "🌙",
            ThemeId::Paper => "📄",
            ThemeId::Rosewood => "🪵",
            ThemeId::Jade => "🟢",
        }
    }
}

impl Default for ThemeId {
    fn default() -> (t: ThemeId)
        ensures
            t == ThemeId::Classic,
    {
        ThemeId::Classic
    }
}

} // verus!
