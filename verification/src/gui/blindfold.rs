//! Blindfold play: levels that hide the opponent's pieces or all pieces.

use vstd::prelude::*;

verus! {

/// How much of the board is hidden.
#[derive(Debug, Clone, Copy, PartialEq, Eq, Structural)]
pub enum BlindfoldLevel {
    /// Everything shown.
    Off,
    /// The opponent's pieces hidden.
    OpponentHidden,
    /// All pieces hidden; move indicators shown.
    FullBlindfold,
    /// All pieces and move indicators hidden.
    ExtremeBlindfold,
}

/// The level after `l` in the cycle.
pub open spec fn next_level(l: BlindfoldLevel) -> BlindfoldLevel {
    match l {
        BlindfoldLevel::Off => BlindfoldLevel::OpponentHidden,
        BlindfoldLevel::OpponentHidden => BlindfoldLevel::FullBlindfold,
        BlindfoldLevel::FullBlindfold => BlindfoldLevel::ExtremeBlindfold,
        BlindfoldLevel::ExtremeBlindfold => BlindfoldLevel::Off,
    }
}

impl BlindfoldLevel {
    /// Chinese label.
    pub fn label_cn(&self) -> (s: &'static str)
        ensures
            s@ == match *self {
                BlindfoldLevel::Off => "正常"@,
                BlindfoldLevel::OpponentHidden => "半盲棋"@,
                BlindfoldLevel::FullBlindfold => "全盲棋"@,
                BlindfoldLevel::ExtremeBlindfold => "极限盲棋"@,
            },
    {
        match self {
            BlindfoldLevel::Off => "正常",
            BlindfoldLevel::OpponentHidden => "半盲棋",
            BlindfoldLevel::FullBlindfold => "全盲棋",
            BlindfoldLevel::ExtremeBlindfold => "极限盲棋",
        }
    }

    /// The next level in the cycle.
    pub fn next(&self) -> (l: BlindfoldLevel)
        ensures
            l == next_level(*self),
    {
        match self {
            BlindfoldLevel::Off => BlindfoldLevel::OpponentHidden,
            BlindfoldLevel::OpponentHidden => BlindfoldLevel::FullBlindfold,
            BlindfoldLevel::FullBlindfold => BlindfoldLevel::ExtremeBlindfold,
            BlindfoldLevel::ExtremeBlindfold => BlindfoldLevel::Off,
        }
    }
}

impl Default for BlindfoldLevel {
    fn default() -> (l: BlindfoldLevel)
        ensures
            l == BlindfoldLevel::Off,
    {
        BlindfoldLevel::Off
    }
}

/// Blindfold state.
#[derive(Debug, Clone, Copy, PartialEq, Eq, Structural)]
pub struct BlindfoldMode {
    pub level: BlindfoldLevel,
    pub active: bool,
}

impl Default for BlindfoldMode {
    fn default() -> (m: BlindfoldMode)
        ensures
            m == (BlindfoldMode { level: BlindfoldLevel::Off, active: false }),
    {
        BlindfoldMode { level: BlindfoldLevel::Off, active: false }
    }
}

/// Blindfold state after a toggle: switching on starts at hiding the
/// opponent; while on, the level advances, and cycling back to `Off`
/// switches it off.
pub open spec fn toggled(m: BlindfoldMode) -> BlindfoldMode {
    if m.active {
        let l = next_level(m.level);
        BlindfoldMode { level: l, active: l != BlindfoldLevel::Off }
    } else {
        BlindfoldMode { level: BlindfoldLevel::OpponentHidden, active: true }
    }
}

impl BlindfoldMode {
    /// Toggles or advances blindfold play (see [`toggled`]).
    pub fn toggle(&mut self)
        ensures
            *final(self) == toggled(*old(self)),
    {
        if self.active {
            self.level = self.level.next();
            if self.level == BlindfoldLevel::Off {
                self.active = false;
            }
        } else {
            self.active = true;
            self.level = BlindfoldLevel::OpponentHidden;
        }
    }

    /// Whether a piece is drawn: always without blindfold, only the
    /// player's own pieces when the opponent is hidden, never otherwise.
    pub fn is_piece_visible(&self, piece_is_red: bool, player_is_red: bool) -> (b: bool)
        ensures
            b == match self.level {
                BlindfoldLevel::Off => true,
                BlindfoldLevel::OpponentHidden => piece_is_red == player_is_red,
                _ => false,
            },
    {
        match self.level {
            BlindfoldLevel::Off => true,
            BlindfoldLevel::OpponentHidden => {
                if player_is_red {
                    piece_is_red
                } else {
                    !piece_is_red
                }
            },
            BlindfoldLevel::FullBlindfold | BlindfoldLevel::ExtremeBlindfold => false,
        }
    }

    /// Whether move indicators are drawn (the middle two levels).
    pub fn show_move_indicators(&self) -> (b: bool)
        ensures
            b == (self.level == BlindfoldLevel::OpponentHidden || self.level == BlindfoldLevel::FullBlindfold),
    {
        match self.level {
            BlindfoldLevel::Off => false,
            BlindfoldLevel::OpponentHidden => true,
            BlindfoldLevel::FullBlindfold => true,
            BlindfoldLevel::ExtremeBlindfold => false,
        }
    }
}

/// Toggling four times from off goes through the three levels and back to
/// off where it started.
pub proof fn law_blindfold_cycle(m: BlindfoldMode)
    requires
        !m.active,
    ensures
        toggled(m).level == BlindfoldLevel::OpponentHidden,
        toggled(toggled(m)).level == BlindfoldLevel::FullBlindfold,
        toggled(toggled(toggled(m))).level == BlindfoldLevel::ExtremeBlindfold,
        toggled(toggled(toggled(toggled(m)))) == (BlindfoldMode { level: BlindfoldLevel::Off, active: false }),
        toggled(m).active && toggled(toggled(m)).active && toggled(toggled(toggled(m))).active,
{
}

} // verus!
