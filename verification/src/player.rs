//! The player token: where it stands, what it may reach, and its three
//! resources.

use vstd::prelude::*;
use crate::targeting::{
    as_point,
    as_points,
    compute_targets,
    in_grid,
    is_valid_target,
    lemma_points_contain,
    shifted,
    targets,
    Point,
};

verus! {

/// The side of the grid that a player stands on before a level is loaded.
pub const TILES_PER_ROW: i32 = 7;

/// One of the player's three resources.
#[derive(Clone, Copy, PartialEq, Eq, Debug, Structural)]
pub enum ValueType {
    Attack,
    Armor,
    Health,
}

impl ValueType {
    /// The place of the resource among the three: Attack, Armor, Health.
    pub open spec fn ordinal(self) -> int {
        match self {
            ValueType::Attack => 0,
            ValueType::Armor => 1,
            ValueType::Health => 2,
        }
    }

    /// The place of the resource among the three, as an index.
    pub fn index(self) -> (i: usize)
        ensures
            i == self.ordinal(),
    {
        match self {
            ValueType::Attack => 0,
            ValueType::Armor => 1,
            ValueType::Health => 2,
        }
    }
}

/// One step along a row or a column, as an arrow key asks for it.
#[derive(Clone, Copy, PartialEq, Eq, Debug, Structural)]
pub enum Direction {
    Up,
    Down,
    Left,
    Right,
}

impl Direction {
    /// The step as a change of column and row. Rows count downwards.
    pub open spec fn delta(self) -> Point {
        match self {
            Direction::Up => (0, -1),
            Direction::Down => (0, 1),
            Direction::Left => (-1, 0),
            Direction::Right => (1, 0),
        }
    }
}

/// The step that an optional arrow asks for; no arrow, no step.
pub open spec fn arrow_delta(arrow: Option<Direction>) -> Point {
    match arrow {
        Some(d) => d.delta(),
        None => (0, 0),
    }
}

/// `v` brought into `[0, n - 1]`.
pub open spec fn clamp_axis(v: int, n: int) -> int {
    if v < 0 {
        0
    } else if v > n - 1 {
        n - 1
    } else {
        v
    }
}

/// `p` brought onto the grid of side `n`, each component by itself.
pub open spec fn clamped(p: Point, n: int) -> Point {
    (clamp_axis(p.0, n), clamp_axis(p.1, n))
}

/// What the rules see of a `WalkRune`.
pub struct WalkRuneView {
    /// Whether the pointer has been over the grid since the rune was made.
    pub drawing: bool,
    /// The tile that the pointer was over last.
    pub grid_pos: Point,
}

impl WalkRuneView {
    /// The rune after the pointer was seen over `pointer_tile`, or off the grid.
    pub open spec fn updated(self, pointer_tile: Option<(i32, i32)>) -> WalkRuneView {
        match pointer_tile {
            Some(p) => WalkRuneView { drawing: true, grid_pos: as_point(p) },
            None => self,
        }
    }
}

/// The marker that follows the pointer over the grid while a move is pending.
/// It remembers the last tile the pointer was over.
pub struct WalkRune {
    drawing: bool,
    grid_pos: (i32, i32),
}

impl View for WalkRune {
    type V = WalkRuneView;

    closed spec fn view(&self) -> WalkRuneView {
        WalkRuneView { drawing: self.drawing, grid_pos: as_point(self.grid_pos) }
    }
}

impl WalkRune {
    /// A rune that has not seen the pointer yet; it rests on the tile `(0, 0)`.
    pub fn new() -> (rune: WalkRune)
        ensures
            rune@ == (WalkRuneView { drawing: false, grid_pos: (0, 0) }),
    {
        WalkRune { drawing: false, grid_pos: (0, 0) }
    }

    /// Follows the pointer: over a tile, the rune goes there and shows; off
    /// the grid, it stays where it was.
    pub fn update(&mut self, pointer_tile: Option<(i32, i32)>)
        ensures
            final(self)@ == old(self)@.updated(pointer_tile),
    {
        if let Some(p) = pointer_tile {
            self.drawing = true;
            self.grid_pos = p;
        }
    }

    /// Whether the rune rests on one of `possible_positions`.
    pub fn on_possible_position(&self, possible_positions: &Vec<(i32, i32)>) -> (on: bool)
        ensures
            on == as_points(possible_positions@).contains(self@.grid_pos),
    {
        proof {
            lemma_points_contain(possible_positions@, self.grid_pos);
        }
        is_valid_target(possible_positions, self.grid_pos)
    }

    /// The tile that the pointer was over last.
    pub fn grid_pos(&self) -> (p: (i32, i32))
        ensures
            as_point(p) == self@.grid_pos,
    {
        self.grid_pos
    }

    /// Whether the pointer has been over the grid since the rune was made.
    pub fn is_drawing(&self) -> (b: bool)
        ensures
            b == self@.drawing,
    {
        self.drawing
    }
}

/// What the rules see of a `Player`.
pub struct PlayerView {
    /// The tile that the player stands on.
    pub pos: Point,
    /// The side of the grid.
    pub tiles_per_row: int,
    /// The tiles that a pending move may end on.
    pub rune_positions: Seq<Point>,
    /// The marker that follows the pointer.
    pub rune: WalkRuneView,
    /// Whether a move is pending.
    pub moving: bool,
    /// Attack, armor and health, in this order.
    pub values: Seq<int>,
}

impl PlayerView {
    /// A player new to the tile `coord` of a grid of side `TILES_PER_ROW`, or
    /// to the nearest tile of that grid: 3 attack, 2 armor, 1 health, no move
    /// pending, and a rune that has not seen the pointer.
    pub open spec fn fresh(coord: Point) -> PlayerView {
        PlayerView {
            pos: clamped(coord, TILES_PER_ROW as int),
            tiles_per_row: TILES_PER_ROW as int,
            rune_positions: Seq::empty(),
            rune: WalkRuneView { drawing: false, grid_pos: (0, 0) },
            moving: false,
            values: seq![3int, 2int, 1int],
        }
    }

    /// The player stands on the grid, has three resources, each an amount
    /// that fits the machine's integers, may only reach tiles of the grid,
    /// and has nothing to reach unless a move is pending.
    pub open spec fn wf(self) -> bool {
        &&& 1 <= self.tiles_per_row
        &&& in_grid(self.pos, self.tiles_per_row)
        &&& self.values.len() == 3
        &&& forall|i: int|
            0 <= i < self.values.len() ==> i64::MIN <= #[trigger] self.values[i] <= i64::MAX
        &&& forall|i: int|
            0 <= i < self.rune_positions.len() ==> in_grid(
                #[trigger] self.rune_positions[i],
                self.tiles_per_row,
            )
        &&& !self.moving ==> self.rune_positions.len() == 0
    }

    /// The player put on `coord`, or on the nearest tile of the grid.
    pub open spec fn placed(self, coord: Point) -> PlayerView {
        PlayerView { pos: clamped(coord, self.tiles_per_row), ..self }
    }

    /// The player with `amount` added to one resource.
    pub open spec fn adjusted(self, v_type: ValueType, amount: int) -> PlayerView {
        PlayerView {
            values: self.values.update(v_type.ordinal(), self.values[v_type.ordinal()] + amount),
            ..self
        }
    }

    /// The player with a move pending from where it stands.
    pub open spec fn aiming(self) -> PlayerView {
        PlayerView {
            rune_positions: targets(self.pos, self.tiles_per_row),
            moving: true,
            ..self
        }
    }

    /// Whether a pending move may end on `candidate`.
    pub open spec fn accepts(self, candidate: Point) -> bool {
        self.moving && self.rune_positions.contains(candidate)
    }

    /// The player after `candidate` was offered as the end of a move: an
    /// accepted one is taken and ends the move, any other changes nothing.
    pub open spec fn confirmed(self, candidate: Point) -> PlayerView {
        if self.accepts(candidate) {
            PlayerView { pos: candidate, rune_positions: Seq::empty(), moving: false, ..self }
        } else {
            self
        }
    }

    /// The player after one tick in which the pointer was over
    /// `pointer_tile` (or off the grid) and the button was or was not
    /// pressed. Without a pending move nothing happens. With one, the rune
    /// follows the pointer, and a press offers the rune's tile as the end of
    /// the move.
    pub open spec fn ticked(self, pointer_tile: Option<(i32, i32)>, pressed: bool) -> PlayerView {
        if !self.moving {
            self
        } else {
            let followed = PlayerView { rune: self.rune.updated(pointer_tile), ..self };
            if pressed {
                followed.confirmed(followed.rune.grid_pos)
            } else {
                followed
            }
        }
    }

    /// The player as it enters a grid of side `n`: a pending move is dropped
    /// and the player is brought onto the new grid.
    pub open spec fn entered(self, n: int) -> PlayerView {
        PlayerView {
            pos: clamped(self.pos, n),
            tiles_per_row: n,
            rune_positions: Seq::empty(),
            moving: false,
            ..self
        }
    }
}

/// The player token.
pub struct Player {
    pos: (i32, i32),
    tiles_per_row: i32,
    rune_positions: Vec<(i32, i32)>,
    walk_rune: WalkRune,
    moving: bool,
    values: [i64; 3],
}

impl View for Player {
    type V = PlayerView;

    closed spec fn view(&self) -> PlayerView {
        PlayerView {
            pos: as_point(self.pos),
            tiles_per_row: self.tiles_per_row as int,
            rune_positions: as_points(self.rune_positions@),
            rune: self.walk_rune@,
            moving: self.moving,
            values: self.values@.map_values(|v: i64| v as int),
        }
    }
}

/// `v` brought into `[0, n - 1]`.
fn clamp_to_grid(v: i64, n: i32) -> (c: i32)
    requires
        1 <= n,
    ensures
        c == clamp_axis(v as int, n as int),
{
    if v < 0 {
        0
    } else if v > (n - 1) as i64 {
        n - 1
    } else {
        v as i32
    }
}

impl Player {
    /// A player on the tile `(x, y)` of a grid of side `TILES_PER_ROW`, or on
    /// the nearest tile of that grid, with 3 attack, 2 armor and 1 health and
    /// no move pending.
    pub fn new(x: u32, y: u32) -> (player: Player)
        ensures
            player@ == PlayerView::fresh((x as int, y as int)),
            player@.wf(),
    {
        let player = Player {
            pos: (clamp_to_grid(x as i64, TILES_PER_ROW), clamp_to_grid(y as i64, TILES_PER_ROW)),
            tiles_per_row: TILES_PER_ROW,
            rune_positions: Vec::new(),
            walk_rune: WalkRune::new(),
            moving: false,
            values: [3, 2, 1],
        };
        assert(player@.values =~= seq![3int, 2int, 1int]);
        assert(player@.rune_positions =~= Seq::<Point>::empty());
        player
    }

    /// The tile that the player stands on.
    pub fn position(&self) -> (p: (i32, i32))
        ensures
            as_point(p) == self@.pos,
    {
        self.pos
    }

    /// The side of the grid that the player stands on.
    pub fn tiles_per_row(&self) -> (n: i32)
        ensures
            n == self@.tiles_per_row,
    {
        self.tiles_per_row
    }

    /// Whether a move is pending.
    pub fn is_moving(&self) -> (b: bool)
        ensures
            b == self@.moving,
    {
        self.moving
    }

    /// The tiles that a pending move may end on.
    pub fn rune_positions(&self) -> (tiles: &Vec<(i32, i32)>)
        ensures
            as_points(tiles@) == self@.rune_positions,
    {
        &self.rune_positions
    }

    /// The marker that follows the pointer.
    pub fn walk_rune(&self) -> (rune: &WalkRune)
        ensures
            rune@ == self@.rune,
    {
        &self.walk_rune
    }

    /// The current amount of one resource.
    pub fn value(&self, v_type: ValueType) -> (v: i64)
        ensures
            v == self@.values[v_type.ordinal()],
    {
        self.values[v_type.index()]
    }

    /// Puts the player on `coord`. A coordinate off the grid is not refused:
    /// the player lands on the nearest tile of the grid.
    pub fn set_position(&mut self, coord: (i32, i32))
        requires
            old(self)@.wf(),
        ensures
            final(self)@ == old(self)@.placed(as_point(coord)),
            final(self)@.wf(),
    {
        self.pos = (
            clamp_to_grid(coord.0 as i64, self.tiles_per_row),
            clamp_to_grid(coord.1 as i64, self.tiles_per_row),
        );
    }

    /// Adds `amount` to one resource and returns its new amount.
    pub fn change_at(&mut self, v_type: ValueType, amount: i64) -> (now: i64)
        requires
            i64::MIN <= old(self)@.values[v_type.ordinal()] + amount <= i64::MAX,
        ensures
            final(self)@ == old(self)@.adjusted(v_type, amount as int),
            now == old(self)@.values[v_type.ordinal()] + amount,
            old(self)@.wf() ==> final(self)@.wf(),
    {
        let i = v_type.index();
        let now = self.values[i] + amount;
        self.values[i] = now;
        assert(self@.values =~= old(self)@.values.update(
            v_type.ordinal(),
            old(self)@.values[v_type.ordinal()] + amount,
        ));
        now
    }

    /// Moves the player one tile along an arrow, but never off the grid.
    /// Without an arrow the player stays.
    pub fn key_down(&mut self, arrow: Option<Direction>)
        requires
            old(self)@.wf(),
        ensures
            final(self)@ == old(self)@.placed(shifted(old(self)@.pos, arrow_delta(arrow))),
            final(self)@.wf(),
    {
        let (dx, dy): (i64, i64) = match arrow {
            Some(Direction::Up) => (0, -1),
            Some(Direction::Down) => (0, 1),
            Some(Direction::Left) => (-1, 0),
            Some(Direction::Right) => (1, 0),
            None => (0, 0),
        };
        self.pos = (
            clamp_to_grid(self.pos.0 as i64 + dx, self.tiles_per_row),
            clamp_to_grid(self.pos.1 as i64 + dy, self.tiles_per_row),
        );
    }

    /// Opens a move: the tiles within reach of the player are computed anew
    /// and the player waits for one of them to be chosen.
    pub fn move_player(&mut self)
        requires
            old(self)@.wf(),
        ensures
            final(self)@ == old(self)@.aiming(),
            final(self)@.wf(),
    {
        self.rune_positions = compute_targets(self.pos, self.tiles_per_row);
        self.moving = true;
    }

    /// Offers `candidate` as the end of the pending move. A tile within reach
    /// is taken: the player goes there and the move is over. Any other tile,
    /// or any tile without a pending move, changes nothing.
    pub fn confirm(&mut self, candidate: (i32, i32)) -> (moved: bool)
        requires
            old(self)@.wf(),
        ensures
            moved == old(self)@.accepts(as_point(candidate)),
            final(self)@ == old(self)@.confirmed(as_point(candidate)),
            final(self)@.wf(),
    {
        proof {
            lemma_points_contain(self.rune_positions@, candidate);
        }
        if self.moving && is_valid_target(&self.rune_positions, candidate) {
            self.pos = candidate;
            self.moving = false;
            self.rune_positions.clear();
            assert(self@.rune_positions =~= Seq::<Point>::empty());
            true
        } else {
            false
        }
    }

    /// One tick of the player. While a move is pending the rune follows the
    /// pointer, and a press of the button offers the rune's tile as the end
    /// of the move.
    pub fn update(&mut self, pointer_tile: Option<(i32, i32)>, pressed: bool) -> (moved: bool)
        requires
            old(self)@.wf(),
        ensures
            final(self)@ == old(self)@.ticked(pointer_tile, pressed),
            moved == (old(self)@.moving && pressed && old(self)@.rune_positions.contains(
                old(self)@.rune.updated(pointer_tile).grid_pos,
            )),
            final(self)@.wf(),
    {
        if self.moving {
            self.walk_rune.update(pointer_tile);
            if pressed {
                let tile = self.walk_rune.grid_pos();
                return self.confirm(tile);
            }
        }
        false
    }

    /// Brings the player onto a grid of side `tiles_per_row`: a pending move
    /// is dropped, and a player who stood beyond the new grid lands on its
    /// nearest tile.
    pub fn enter_grid(&mut self, tiles_per_row: i32)
        requires
            1 <= tiles_per_row,
        ensures
            final(self)@ == old(self)@.entered(tiles_per_row as int),
            final(self)@.wf(),
    {
        self.tiles_per_row = tiles_per_row;
        self.pos = (
            clamp_to_grid(self.pos.0 as i64, tiles_per_row),
            clamp_to_grid(self.pos.1 as i64, tiles_per_row),
        );
        self.moving = false;
        self.rune_positions.clear();
        assert(self@.rune_positions =~= Seq::<Point>::empty());
    }
}

/// Amounts added to one resource add up: the order in which two amounts
/// arrive does not matter, and both together do what their sum does.
pub proof fn lemma_adjust_order_independent(p: PlayerView, v_type: ValueType, a: int, b: int)
    requires
        p.values.len() == 3,
    ensures
        p.adjusted(v_type, a).adjusted(v_type, b) == p.adjusted(v_type, b).adjusted(v_type, a),
        p.adjusted(v_type, a).adjusted(v_type, b) == p.adjusted(v_type, a + b),
{
    assert(p.adjusted(v_type, a).adjusted(v_type, b).values =~= p.adjusted(v_type, a + b).values);
    assert(p.adjusted(v_type, b).adjusted(v_type, a).values =~= p.adjusted(v_type, a + b).values);
}

} // verus!
