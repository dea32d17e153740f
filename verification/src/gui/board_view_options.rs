//! Viewing options of the board: rotation and perspective.

use vstd::prelude::*;

verus! {

/// Rotation of the board drawing.
#[derive(Debug, Clone, Copy, PartialEq, Eq, Structural)]
pub enum Rotation {
    Normal,
    Rotated90,
    Rotated180,
    Rotated270,
}

/// The rotation after `r` in the cycle.
pub open spec fn next_rotation(r: Rotation) -> Rotation {
    match r {
        Rotation::Normal => Rotation::Rotated90,
        Rotation::Rotated90 => Rotation::Rotated180,
        Rotation::Rotated180 => Rotation::Rotated270,
        Rotation::Rotated270 => Rotation::Normal,
    }
}

impl Rotation {
    /// Chinese label.
    pub fn label_cn(&self) -> (s: &'static str)
        ensures
            s@ == match *self {
                Rotation::Normal => "正常"@,
                Rotation::Rotated90 => "90°"@,
                Rotation::Rotated180 => "180°"@,
                Rotation::Rotated270 => "270°"@,
            },
    {
        match self {
            Rotation::Normal => "正常",
            Rotation::Rotated90 => "90°",
            Rotation::Rotated180 => "180°",
            Rotation::Rotated270 => "270°",
        }
    }

    /// The next rotation in the cycle.
    pub fn next(&self) -> (r: Rotation)
        ensures
            r == next_rotation(*self),
    {
        match self {
            Rotation::Normal => Rotation::Rotated90,
            Rotation::Rotated90 => Rotation::Rotated180,
            Rotation::Rotated180 => Rotation::Rotated270,
            Rotation::Rotated270 => Rotation::Normal,
        }
    }
}

/// Rotation state.
#[derive(Debug, Clone, Copy, PartialEq, Eq, Structural)]
pub struct BoardRotationView {
    pub rotation: Rotation,
    pub enabled: bool,
}

/// Where `(file, rank)` is drawn under a rotation.
pub open spec fn rotated(r: Rotation, file: int, rank: int) -> (int, int) {
    match r {
        Rotation::Normal => (file, rank),
        Rotation::Rotated90 => (8 - rank, file),
        Rotation::Rotated180 => (8 - file, 9 - rank),
        Rotation::Rotated270 => (rank, 9 - file),
    }
}

impl Default for BoardRotationView {
    fn default() -> (v: BoardRotationView)
        ensures
            v == (BoardRotationView { rotation: Rotation::Normal, enabled: true }),
    {
        BoardRotationView { rotation: Rotation::Normal, enabled: true }
    }
}

impl BoardRotationView {
    /// Turns the board a quarter.
    pub fn rotate(&mut self)
        ensures
            final(self).rotation == next_rotation(old(self).rotation),
            final(self).enabled == old(self).enabled,
    {
        self.rotation = self.rotation.next();
    }

    /// Where a point is drawn (see [`rotated`]).
    pub fn transform_coordinates(&self, file: u8, rank: u8) -> (p: (u8, u8))
        requires
            self.rotation == Rotation::Rotated90 ==> rank <= 8,
            self.rotation == Rotation::Rotated180 ==> file <= 8 && rank <= 9,
            self.rotation == Rotation::Rotated270 ==> file <= 9,
        ensures
            (p.0 as int, p.1 as int) == rotated(self.rotation, file as int, rank as int),
    {
        match self.rotation {
            Rotation::Normal => (file, rank),
            Rotation::Rotated90 => (8 - rank, file),
            Rotation::Rotated180 => (8 - file, 9 - rank),
            Rotation::Rotated270 => (rank, 9 - file),
        }
    }
}

/// Four quarter turns bring the board back.
pub proof fn law_four_rotations(r: Rotation)
    ensures
        next_rotation(next_rotation(next_rotation(next_rotation(r)))) == r,
{
}

/// Half a turn maps every point of the board onto the board, and doing it
/// twice gives the point back.
pub proof fn law_half_turn_involution(file: int, rank: int)
    requires
        0 <= file < 9,
        0 <= rank < 10,
    ensures
        ({
            let (f, r) = rotated(Rotation::Rotated180, file, rank);
            &&& 0 <= f < 9 && 0 <= r < 10
            &&& rotated(Rotation::Rotated180, f, r) == (file, rank)
        }),
{
}

/// Whose side the board is shown from.
#[derive(Debug, Clone, Copy, PartialEq, Eq, Structural)]
pub enum Perspective {
    Red,
    Black,
    /// Follows the side to move.
    Dynamic,
}

impl Perspective {
    /// Chinese label.
    pub fn label_cn(&self) -> (s: &'static str)
        ensures
            s@ == match *self {
                Perspective::Red => "红方视角"@,
                Perspective::Black => "黑方视角"@,
                Perspective::Dynamic => "动态视角"@,
            },
    {
        match self {
            Perspective::Red => "红方视角",
            Perspective::Black => "黑方视角",
            Perspective::Dynamic => "动态视角",
        }
    }

    /// The next perspective in the cycle.
    pub fn next(&self) -> (p: Perspective)
        ensures
            p == match *self {
                Perspective::Red => Perspective::Black,
                Perspective::Black => Perspective::Dynamic,
                Perspective::Dynamic => Perspective::Red,
            },
    {
        match self {
            Perspective::Red => Perspective::Black,
            Perspective::Black => Perspective::Dynamic,
            Perspective::Dynamic => Perspective::Red,
        }
    }
}

impl Default for Perspective {
    fn default() -> (p: Perspective)
        ensures
            p == Perspective::Dynamic,
    {
        Perspective::Dynamic
    }
}

/// Perspective state.
#[derive(Debug, Clone, Copy, PartialEq, Eq, Structural)]
pub struct BoardPerspective {
    pub perspective: Perspective,
    pub locked: bool,
}

impl Default for BoardPerspective {
    fn default() -> (p: BoardPerspective)
        ensures
            p == (BoardPerspective { perspective: Perspective::Dynamic, locked: false }),
    {
        BoardPerspective { perspective: Perspective::Dynamic, locked: false }
    }
}

} // verus!
