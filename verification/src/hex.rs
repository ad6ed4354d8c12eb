//! Axial/cube coordinates on an infinite hex grid.

use vstd::prelude::*;

verus! {

/// A coordinate on a hex grid, representing distances along the various
/// directions of travel.
///
/// Invariant: in order to represent a valid hex coordinate, `q + r + s`
/// must equal 0; `s` is always derived as `-q - r`, never set independently.
#[derive(Clone, Copy, PartialEq, Eq, Hash, Debug, Structural)]
pub struct HexCoord {
    pub q: isize,
    pub r: isize,
    pub s: isize,
}

/// The directions you can move on a hex grid.
#[derive(Clone, Copy, PartialEq, Eq, Debug, Structural)]
pub enum Direction {
    Stay,
    North,
    South,
    Northeast,
    Southwest,
    Northwest,
    Southeast,
}

/// The change along the `q` axis for one step in each direction.
pub open spec fn delta_q(d: Direction) -> int {
    match d {
        Direction::Stay => 0,
        Direction::North => 0,
        Direction::South => 0,
        Direction::Northeast => 1,
        Direction::Southwest => -1,
        Direction::Northwest => -1,
        Direction::Southeast => 1,
    }
}

/// The change along the `r` axis for one step in each direction.
pub open spec fn delta_r(d: Direction) -> int {
    match d {
        Direction::Stay => 0,
        Direction::North => -1,
        Direction::South => 1,
        Direction::Northeast => -1,
        Direction::Southwest => 1,
        Direction::Northwest => 0,
        Direction::Southeast => 0,
    }
}

/// The opposite of each direction; `Stay` is its own opposite.
pub open spec fn opposite_spec(d: Direction) -> Direction {
    match d {
        Direction::Stay => Direction::Stay,
        Direction::North => Direction::South,
        Direction::South => Direction::North,
        Direction::Northeast => Direction::Southwest,
        Direction::Southwest => Direction::Northeast,
        Direction::Northwest => Direction::Southeast,
        Direction::Southeast => Direction::Northwest,
    }
}

impl Direction {
    /// Construct the opposite [Direction].
    #[must_use]
    #[verifier::when_used_as_spec(opposite_spec_method)]
    pub fn opposite(self) -> (result: Self)
        ensures
            result == opposite_spec(self),
    {
        match self {
            Direction::Stay => Direction::Stay,
            Direction::North => Direction::South,
            Direction::South => Direction::North,
            Direction::Northeast => Direction::Southwest,
            Direction::Southwest => Direction::Northeast,
            Direction::Northwest => Direction::Southeast,
            Direction::Southeast => Direction::Northwest,
        }
    }

    /// [opposite_spec], as a method, so that `d.opposite()` can stand in
    /// contracts.
    pub open spec fn opposite_spec_method(self) -> Direction {
        opposite_spec(self)
    }
}

impl HexCoord {
    /// The coordinate is well formed: the three axes sum to zero.
    pub open spec fn wf(self) -> bool {
        self.q + self.r + self.s == 0
    }

    /// One axial step `(dq, dr)` away from `self`, every component still
    /// fits the machine width (the constructor also negates the new `q`).
    pub open spec fn step_in_range(self, dq: int, dr: int) -> bool {
        &&& isize::MIN < self.q + dq <= isize::MAX
        &&& isize::MIN <= self.r + dr <= isize::MAX
        &&& isize::MIN <= -(self.q + dq) - (self.r + dr) <= isize::MAX
    }

    /// The coordinate one step along direction `d` from `self`, with its
    /// `s` re-derived from the new `q` and `r`.
    pub open spec fn step_spec(self, d: Direction) -> HexCoord {
        HexCoord {
            q: (self.q + delta_q(d)) as isize,
            r: (self.r + delta_r(d)) as isize,
            s: (-(self.q + delta_q(d)) - (self.r + delta_r(d))) as isize,
        }
    }

    /// Construct a hex coordinate from two pieces of information, enforcing
    /// the invariant on the third.
    #[must_use]
    pub fn new(q: isize, r: isize) -> (result: Self)
        requires
            isize::MIN < q,
            isize::MIN <= -q - r <= isize::MAX,
        ensures
            result.q == q,
            result.r == r,
            result.q + result.r + result.s == 0,
    {
        HexCoord { q, r, s: -q - r }
    }

    /// The origin of an infinite hex grid.
    #[must_use]
    pub fn origin() -> (result: Self)
        ensures
            result == (HexCoord { q: 0isize, r: 0isize, s: 0isize }),
    {
        HexCoord { q: 0, r: 0, s: 0 }
    }

    /// The coordinate to the north.
    #[must_use]
    pub fn north(&self) -> (result: Self)
        requires
            self.step_in_range(0, -1),
        ensures
            result == self.step_spec(Direction::North),
            result.q == self.q,
            result.r == self.r - 1,
            result.q + result.r + result.s == 0,
    {
        Self::new(self.q, self.r - 1)
    }

    /// The coordinate to the south.
    #[must_use]
    pub fn south(&self) -> (result: Self)
        requires
            self.step_in_range(0, 1),
        ensures
            result == self.step_spec(Direction::South),
            result.q == self.q,
            result.r == self.r + 1,
            result.q + result.r + result.s == 0,
    {
        Self::new(self.q, self.r + 1)
    }

    /// The coordinate to the northeast.
    #[must_use]
    pub fn northeast(&self) -> (result: Self)
        requires
            self.step_in_range(1, -1),
        ensures
            result == self.step_spec(Direction::Northeast),
            result.q == self.q + 1,
            result.r == self.r - 1,
            result.q + result.r + result.s == 0,
    {
        Self::new(self.q + 1, self.r - 1)
    }

    /// The coordinate to the southwest.
    #[must_use]
    pub fn southwest(&self) -> (result: Self)
        requires
            self.step_in_range(-1, 1),
        ensures
            result == self.step_spec(Direction::Southwest),
            result.q == self.q - 1,
            result.r == self.r + 1,
            result.q + result.r + result.s == 0,
    {
        Self::new(self.q - 1, self.r + 1)
    }

    /// The coordinate to the northwest.
    #[must_use]
    pub fn northwest(&self) -> (result: Self)
        requires
            self.step_in_range(-1, 0),
        ensures
            result == self.step_spec(Direction::Northwest),
            result.q == self.q - 1,
            result.r == self.r,
            result.q + result.r + result.s == 0,
    {
        Self::new(self.q - 1, self.r)
    }

    /// The coordinate to the southeast.
    #[must_use]
    pub fn southeast(&self) -> (result: Self)
        requires
            self.step_in_range(1, 0),
        ensures
            result == self.step_spec(Direction::Southeast),
            result.q == self.q + 1,
            result.r == self.r,
            result.q + result.r + result.s == 0,
    {
        Self::new(self.q + 1, self.r)
    }

    /// The coordinate in a specific direction; `Stay` returns `self`
    /// unchanged.
    #[must_use]
    pub fn neighbor(&self, dir: Direction) -> (result: Self)
        requires
            dir != Direction::Stay ==> self.step_in_range(delta_q(dir), delta_r(dir)),
        ensures
            dir == Direction::Stay ==> result == *self,
            dir != Direction::Stay ==> result == self.step_spec(dir),
            result.q == self.q + delta_q(dir),
            result.r == self.r + delta_r(dir),
            dir != Direction::Stay ==> result.q + result.r + result.s == 0,
    {
        match dir {
            Direction::Stay => *self,
            Direction::North => self.north(),
            Direction::South => self.south(),
            Direction::Northeast => self.northeast(),
            Direction::Southwest => self.southwest(),
            Direction::Northwest => self.northwest(),
            Direction::Southeast => self.southeast(),
        }
    }

    /// Yield the neighbor coordinates, starting from North and going
    /// clockwise, in the fixed [direction_order].
    pub fn neighbors(&self) -> (result: Vec<HexCoord>)
        requires
            self.step_in_range(0, -1),
            self.step_in_range(1, -1),
            self.step_in_range(1, 0),
            self.step_in_range(0, 1),
            self.step_in_range(-1, 1),
            self.step_in_range(-1, 0),
        ensures
            result@.len() == 6,
            forall|i: int|
                0 <= i < 6 ==> #[trigger] result@[i] == self.step_spec(direction_order()[i]),
    {
        let mut result: Vec<HexCoord> = Vec::new();
        result.push(self.north());
        result.push(self.northeast());
        result.push(self.southeast());
        result.push(self.south());
        result.push(self.southwest());
        result.push(self.northwest());
        result
    }
}

/// All directions, in clockwise visual order starting at North. Neighbor
/// enumeration follows this order exactly.
pub open spec fn direction_order() -> Seq<Direction> {
    seq![
        Direction::North,
        Direction::Northeast,
        Direction::Southeast,
        Direction::South,
        Direction::Southwest,
        Direction::Northwest,
    ]
}

/// All directions, for convenient enumeration, in [direction_order].
pub fn directions() -> (result: Vec<Direction>)
    ensures
        result@ == direction_order(),
{
    let mut result: Vec<Direction> = Vec::new();
    result.push(Direction::North);
    result.push(Direction::Northeast);
    result.push(Direction::Southeast);
    result.push(Direction::South);
    result.push(Direction::Southwest);
    result.push(Direction::Northwest);
    proof {
        assert(result@ =~= direction_order());
    }
    result
}

/// Stepping along a real direction and then along its opposite returns to
/// the starting coordinate: for every well-formed coordinate `c` whose step
/// along `d` fits the machine width, `c.neighbor(d).neighbor(d.opposite())`
/// is `c` again.
pub proof fn lemma_step_opposite_round_trip(c: HexCoord, d: Direction)
    requires
        d != Direction::Stay,
        c.wf(),
        c.step_in_range(delta_q(d), delta_r(d)),
    ensures
        c.step_spec(d).step_spec(d.opposite()) == c,
{
    let mid = c.step_spec(d);
    assert(mid.q == c.q + delta_q(d));
    assert(mid.r == c.r + delta_r(d));
    let back = mid.step_spec(d.opposite());
    assert(delta_q(d.opposite()) == -delta_q(d));
    assert(delta_r(d.opposite()) == -delta_r(d));
    assert(back.q == c.q);
    assert(back.r == c.r);
    assert(back.s == c.s);
}

} // verus!
