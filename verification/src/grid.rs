//! The terrain of the square grid.

use vstd::prelude::*;

verus! {

/// What stands on a tile.
#[derive(Clone, Copy, PartialEq, Eq, Debug, Structural)]
pub enum State {
    Empty,
    Tree,
    Chest,
}

/// The terrain of a square grid, one marker per tile. Its side is fixed when
/// it is made.
pub struct GridState {
    tiles: Vec<Vec<State>>,
}

impl View for GridState {
    /// The markers by column, then row: `self@[x][y]` is the tile `(x, y)`.
    type V = Seq<Seq<State>>;

    closed spec fn view(&self) -> Seq<Seq<State>> {
        Seq::new(self.tiles@.len(), |x: int| self.tiles@[x]@)
    }
}

/// A grid of side `size` with nothing on it.
pub open spec fn empty_grid(size: nat) -> Seq<Seq<State>> {
    Seq::new(size, |x: int| Seq::new(size, |y: int| State::Empty))
}

/// Every column of `tiles` is as long as there are columns.
pub open spec fn is_square(tiles: Seq<Seq<State>>) -> bool {
    forall|x: int| 0 <= x < tiles.len() ==> (#[trigger] tiles[x]).len() == tiles.len()
}

impl GridState {
    /// The grid is square.
    pub open spec fn wf(&self) -> bool {
        is_square(self@)
    }

    /// The side of the grid.
    pub open spec fn spec_size(&self) -> nat {
        self@.len()
    }

    /// A grid of side `size` with every tile empty.
    pub fn new(size: usize) -> (grid: GridState)
        ensures
            grid.wf(),
            grid@ == empty_grid(size as nat),
    {
        let mut tiles: Vec<Vec<State>> = Vec::new();
        let mut x: usize = 0;
        while x < size
            invariant
                x <= size,
                tiles@.len() == x,
                forall|i: int| 0 <= i < x ==> (#[trigger] tiles@[i])@ == Seq::new(size as nat, |y: int| State::Empty),
            decreases size - x,
        {
            let mut column: Vec<State> = Vec::new();
            let mut y: usize = 0;
            while y < size
                invariant
                    y <= size,
                    column@.len() == y,
                    forall|j: int| 0 <= j < y ==> column@[j] == State::Empty,
                decreases size - y,
            {
                column.push(State::Empty);
                y = y + 1;
            }
            tiles.push(column);
            x = x + 1;
        }
        let grid = GridState { tiles };
        grid
    }

    /// The side of the grid.
    pub fn size(&self) -> (n: usize)
        ensures
            n == self.spec_size(),
    {
        self.tiles.len()
    }

    /// The markers by column, then row.
    pub fn states(&self) -> (tiles: &Vec<Vec<State>>)
        ensures
            tiles@.len() == self@.len(),
            forall|x: int| 0 <= x < tiles@.len() ==> (#[trigger] tiles@[x])@ == self@[x],
    {
        &self.tiles
    }

    /// The marker of the tile `(x, y)`.
    pub fn get_state(&self, x: usize, y: usize) -> (state: State)
        requires
            self.wf(),
            x < self.spec_size(),
            y < self.spec_size(),
        ensures
            state == self@[x as int][y as int],
    {
        self.tiles[x][y]
    }

    /// Puts `state` on the tile `(x, y)` and leaves every other tile as it is.
    pub fn set_state_at(&mut self, x: usize, y: usize, state: State)
        requires
            old(self).wf(),
            x < old(self).spec_size(),
            y < old(self).spec_size(),
        ensures
            final(self).wf(),
            final(self)@ == old(self)@.update(x as int, old(self)@[x as int].update(y as int, state)),
    {
        assert(self@[x as int].len() == self@.len());
        self.tiles[x][y] = state;
        assert(self@ =~= old(self)@.update(x as int, old(self)@[x as int].update(y as int, state)));
    }
}

} // verus!
