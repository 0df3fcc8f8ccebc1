//! Turning a level description into a grid, a hand and a placed player.

use vstd::prelude::*;
use crate::card::{card_type_from_name, card_type_named, uppercase, Card, CardType, Hand};
use crate::explainer::Explainer;
use crate::grid::{GridState, State};
use crate::player::Player;
use crate::targeting::{as_point, Point};

verus! {

/// A level as its file describes it.
#[derive(Clone, Debug)]
pub struct Level {
    /// The terrain, row by row: 0 is an empty tile, 1 the player's start, 2 a
    /// tree, 3 a chest. Any other code is an empty tile.
    pub map: Vec<Vec<u8>>,
    /// The names of the cards dealt at the start, in any letter case.
    pub cards: Vec<String>,
    /// The declared size of the hand. It is recorded, not enforced.
    pub cards_on_hand: u8,
    /// The name of the card type to explain when the level opens.
    pub explain_on_startup: String,
}

/// What the rules see of a `Level`.
pub struct LevelView {
    /// The terrain codes, row by row.
    pub map: Seq<Seq<u8>>,
    /// The names of the cards dealt at the start.
    pub cards: Seq<Seq<char>>,
    /// The declared size of the hand.
    pub cards_on_hand: int,
    /// The name of the card type to explain when the level opens.
    pub explain_on_startup: Seq<char>,
}

impl View for Level {
    type V = LevelView;

    open spec fn view(&self) -> LevelView {
        LevelView {
            map: rows_of(self.map@),
            cards: names_of(self.cards@),
            cards_on_hand: self.cards_on_hand as int,
            explain_on_startup: self.explain_on_startup@,
        }
    }
}

/// Why a level's map describes no grid.
#[derive(Clone, Copy, PartialEq, Eq, Debug, Structural)]
pub enum LevelError {
    /// The map has no rows.
    EmptyMap,
    /// The map has more rows than a coordinate can count.
    TooLarge,
    /// Some row is not as long as the map has rows.
    NotSquare,
}

/// The rows of a map as sequences of codes.
pub open spec fn rows_of(map: Seq<Vec<u8>>) -> Seq<Seq<u8>> {
    map.map_values(|row: Vec<u8>| row@)
}

/// A list of names as sequences of characters.
pub open spec fn names_of(names: Seq<String>) -> Seq<Seq<char>> {
    names.map_values(|name: String| name@)
}

/// What is wrong with a map, if anything. An empty map is reported first,
/// then one that is too large, then one that is not square.
pub open spec fn side_error(rows: Seq<Seq<u8>>) -> Option<LevelError> {
    if rows.len() == 0 {
        Some(LevelError::EmptyMap)
    } else if rows.len() > i32::MAX {
        Some(LevelError::TooLarge)
    } else if exists|y: int| 0 <= y < rows.len() && (#[trigger] rows[y]).len() != rows.len() {
        Some(LevelError::NotSquare)
    } else {
        None
    }
}

/// What a terrain code puts on a tile.
pub open spec fn tile_of_code(code: u8) -> State {
    if code == 2 {
        State::Tree
    } else if code == 3 {
        State::Chest
    } else {
        State::Empty
    }
}

/// The terrain that a square map describes: the tile `(x, y)` is read from
/// column `x` of row `y`.
pub open spec fn terrain(rows: Seq<Seq<u8>>) -> Seq<Seq<State>> {
    Seq::new(rows.len(), |x: int| Seq::new(rows.len(), |y: int| tile_of_code(rows[y][x])))
}

/// The last column below `len` at which `row` marks the player's start.
pub open spec fn start_in_row(row: Seq<u8>, len: int) -> Option<int>
    decreases len,
{
    if len <= 0 {
        None
    } else if len - 1 < row.len() && row[len - 1] == 1 {
        Some(len - 1)
    } else {
        start_in_row(row, len - 1)
    }
}

/// The player's start among the first `count` rows: in the last of them that
/// marks one, the last mark.
pub open spec fn start_upto(rows: Seq<Seq<u8>>, count: int) -> Option<Point>
    decreases count,
{
    if count <= 0 || count > rows.len() {
        None
    } else {
        match start_in_row(rows[count - 1], rows[count - 1].len() as int) {
            Some(x) => Some((x, count - 1)),
            None => start_upto(rows, count - 1),
        }
    }
}

/// The player's start on a map: the last tile, reading row by row, whose
/// code is 1.
pub open spec fn start_tile(rows: Seq<Seq<u8>>) -> Option<Point> {
    start_upto(rows, rows.len() as int)
}

/// Whether the map marks the tile `p` as the player's start.
pub open spec fn marks_start(rows: Seq<Seq<u8>>, p: Point) -> bool {
    0 <= p.1 < rows.len() && 0 <= p.0 < rows[p.1].len() && rows[p.1][p.0] == 1
}

/// Whether `q` is read after `p` when a map is read row by row.
pub open spec fn read_after(p: Point, q: Point) -> bool {
    q.1 > p.1 || (q.1 == p.1 && q.0 > p.0)
}

/// `start_in_row` names a marked column with none marked behind it, and
/// names none only where the row marks none.
pub proof fn lemma_start_in_row(row: Seq<u8>, len: int)
    ensures
        match start_in_row(row, len) {
            Some(x) => 0 <= x < len && x < row.len() && row[x] == 1 && forall|j: int|
                x < j < len && j < row.len() ==> row[j] != 1,
            None => forall|j: int| 0 <= j < len && j < row.len() ==> row[j] != 1,
        },
    decreases len,
{
    if len > 0 {
        lemma_start_in_row(row, len - 1);
    }
}

/// The start of a map is a tile marked as start with no such tile read after
/// it; a map has no start only where it marks no tile.
pub proof fn lemma_start_is_last_mark(rows: Seq<Seq<u8>>)
    ensures
        match start_tile(rows) {
            Some(p) => marks_start(rows, p) && forall|q: Point|
                marks_start(rows, q) ==> !read_after(p, q),
            None => forall|q: Point| !marks_start(rows, q),
        },
{
    lemma_start_upto(rows, rows.len() as int);
}

proof fn lemma_start_upto(rows: Seq<Seq<u8>>, count: int)
    requires
        0 <= count <= rows.len(),
    ensures
        match start_upto(rows, count) {
            Some(p) => p.1 < count && marks_start(rows, p) && forall|q: Point|
                marks_start(rows, q) && q.1 < count ==> !read_after(p, q),
            None => forall|q: Point| q.1 < count ==> !marks_start(rows, q),
        },
    decreases count,
{
    if count > 0 {
        lemma_start_upto(rows, count - 1);
        lemma_start_in_row(rows[count - 1], rows[count - 1].len() as int);
    }
}

/// The cards that a list of card types deals, in order.
pub open spec fn dealt(types: Seq<CardType>) -> Seq<Card> {
    types.map_values(|t: CardType| Card::fresh(t))
}

/// The card types that a list of names stands for, in order. A name that is
/// no card's is passed over.
pub open spec fn named_types(names: Seq<Seq<char>>) -> Seq<CardType> {
    names.filter_map(|name: Seq<char>| card_type_named(uppercase(name)))
}

/// The card type that an upper-case name asks to explain: only the Move and
/// the Key card have an explanation on opening.
pub open spec fn explained_type_named(upper: Seq<char>) -> Option<CardType> {
    match card_type_named(upper) {
        Some(CardType::Move) => Some(CardType::Move),
        Some(CardType::Key) => Some(CardType::Key),
        _ => None,
    }
}

/// Keeps a card type only if it has an explanation on opening.
pub fn explained_type(found: Option<CardType>) -> (kept: Option<CardType>)
    ensures
        kept == match found {
            Some(CardType::Move) => Some(CardType::Move),
            Some(CardType::Key) => Some(CardType::Key),
            _ => None,
        },
{
    match found {
        Some(CardType::Move) => Some(CardType::Move),
        Some(CardType::Key) => Some(CardType::Key),
        _ => None,
    }
}

/// Reads the card names of a level, whatever their letter case, and passes
/// over those that name no card.
pub fn read_cards(names: &Vec<String>) -> (types: Vec<CardType>)
    ensures
        types@ == named_types(names_of(names@)),
{
    let mut types: Vec<CardType> = Vec::new();
    let ghost texts = names_of(names@);
    let ghost f = |name: Seq<char>| card_type_named(uppercase(name));
    let mut i: usize = 0;
    while i < names.len()
        invariant
            i <= names@.len(),
            texts == names_of(names@),
            f == |name: Seq<char>| card_type_named(uppercase(name)),
            types@ == texts.take(i as int).filter_map(f),
        decreases names@.len() - i,
    {
        proof {
            texts.lemma_filter_map_take_succ(f, i as int);
        }
        if let Some(t) = card_type_from_name(names[i].as_str()) {
            types.push(t);
        }
        i = i + 1;
    }
    proof {
        assert(texts.take(texts.len() as int) =~= texts);
    }
    types
}

/// The side of the grid that a map describes, or what is wrong with the map.
pub fn grid_side(map: &Vec<Vec<u8>>) -> (side: Result<i32, LevelError>)
    ensures
        match side {
            Ok(n) => side_error(rows_of(map@)).is_none() && n == map@.len(),
            Err(e) => side_error(rows_of(map@)) == Some(e),
        },
{
    let size = map.len();
    if size == 0 {
        return Err(LevelError::EmptyMap);
    }
    if size > i32::MAX as usize {
        return Err(LevelError::TooLarge);
    }
    let mut y: usize = 0;
    while y < size
        invariant
            y <= size,
            0 < size <= i32::MAX,
            size == map@.len(),
            forall|j: int| 0 <= j < y ==> (#[trigger] rows_of(map@)[j]).len() == size,
        decreases size - y,
    {
        if map[y].len() != size {
            assert(rows_of(map@)[y as int].len() != rows_of(map@).len());
            return Err(LevelError::NotSquare);
        }
        y = y + 1;
    }
    Ok(size as i32)
}

/// Sets up a level from its map, the card types it deals and the card type
/// it explains on opening.
///
/// A map that is empty, too large or not square is refused and nothing
/// changes. Otherwise the grid takes the map's side and terrain; the player
/// enters that grid, dropping any pending move, and goes to the start that
/// the map marks, if it marks one; the dealt cards join the hand behind
/// those already held; and the explanation, if one is asked for and was not
/// shown before, is put on display.
pub fn place_level(
    map: &Vec<Vec<u8>>,
    types: &Vec<CardType>,
    explain: Option<CardType>,
    cards: &mut Hand,
    player: &mut Player,
    explainer: &mut Explainer,
    grid: &mut GridState,
) -> (done: Result<(), LevelError>)
    ensures
        done.is_ok() <==> side_error(rows_of(map@)).is_none(),
        done matches Err(e) ==> {
            &&& side_error(rows_of(map@)) == Some(e)
            &&& final(cards)@ == old(cards)@
            &&& final(player)@ == old(player)@
            &&& final(explainer)@ == old(explainer)@
            &&& final(grid)@ == old(grid)@
        },
        done.is_ok() ==> {
            &&& final(grid).wf()
            &&& final(grid)@ == terrain(rows_of(map@))
            &&& final(player)@.wf()
            &&& final(player)@ == match start_tile(rows_of(map@)) {
                Some(p) => old(player)@.entered(map@.len() as int).placed(p),
                None => old(player)@.entered(map@.len() as int),
            }
            &&& final(cards)@ == old(cards)@ + dealt(types@)
            &&& final(explainer)@ == match explain {
                Some(t) => old(explainer)@.explain(t),
                None => old(explainer)@,
            }
        },
{
    let n = match grid_side(map) {
        Ok(n) => n,
        Err(e) => {
            return Err(e);
        },
    };
    let size = map.len();
    let ghost rows = rows_of(map@);
    let mut fresh = GridState::new(size);
    let mut start: Option<(i32, i32)> = None;
    let mut y: usize = 0;
    while y < size
        invariant
            y <= size,
            size == map@.len(),
            size <= i32::MAX,
            rows == rows_of(map@),
            forall|j: int| 0 <= j < size ==> (#[trigger] rows[j]).len() == size,
            fresh.wf(),
            fresh@.len() == size,
            forall|i: int, j: int|
                0 <= i < size && 0 <= j < size ==> (#[trigger] fresh@[i][j]) == if j < y {
                    tile_of_code(rows[j][i])
                } else {
                    State::Empty
                },
            match start {
                Some(p) => start_upto(rows, y as int) == Some(as_point(p)),
                None => start_upto(rows, y as int).is_none(),
            },
        decreases size - y,
    {
        let row = &map[y];
        assert(row@ == rows[y as int]);
        let mut row_start: Option<i32> = None;
        let mut x: usize = 0;
        while x < size
            invariant
                x <= size,
                y < size,
                size == map@.len(),
                size <= i32::MAX,
                row@ == rows[y as int],
                row@.len() == size,
                fresh.wf(),
                fresh@.len() == size,
                forall|i: int, j: int|
                    0 <= i < size && 0 <= j < size ==> (#[trigger] fresh@[i][j]) == if j < y || (j
                        == y && i < x) {
                        tile_of_code(rows[j][i])
                    } else {
                        State::Empty
                    },
                match row_start {
                    Some(sx) => start_in_row(row@, x as int) == Some(sx as int),
                    None => start_in_row(row@, x as int).is_none(),
                },
            decreases size - x,
        {
            let code = row[x];
            if code == 1 {
                row_start = Some(x as i32);
            } else if code == 2 {
                fresh.set_state_at(x, y, State::Tree);
            } else if code == 3 {
                fresh.set_state_at(x, y, State::Chest);
            }
            x = x + 1;
        }
        if let Some(sx) = row_start {
            start = Some((sx, y as i32));
        }
        y = y + 1;
    }
    proof {
        assert(fresh@ =~~= terrain(rows));
    }
    *grid = fresh;
    player.enter_grid(n);
    if let Some(p) = start {
        player.set_position(p);
    }
    let ghost held = cards@;
    let mut i: usize = 0;
    while i < types.len()
        invariant
            i <= types@.len(),
            cards@ == held + dealt(types@.take(i as int)),
        decreases types@.len() - i,
    {
        cards.add(Card::new(types[i]));
        proof {
            assert(dealt(types@.take(i + 1)) =~= dealt(types@.take(i as int)).push(
                Card::fresh(types@[i as int]),
            ));
        }
        i = i + 1;
    }
    if let Some(t) = explain {
        explainer.explain(t);
    }
    Ok(())
}

/// Sets up a level from its description: the card names are read whatever
/// their letter case, and the rest is as `place_level` says.
pub fn load_level(
    level: &Level,
    cards: &mut Hand,
    player: &mut Player,
    explainer: &mut Explainer,
    grid: &mut GridState,
) -> (done: Result<(), LevelError>)
    ensures
        done.is_ok() <==> side_error(level@.map).is_none(),
        done matches Err(e) ==> {
            &&& side_error(level@.map) == Some(e)
            &&& final(cards)@ == old(cards)@
            &&& final(player)@ == old(player)@
            &&& final(explainer)@ == old(explainer)@
            &&& final(grid)@ == old(grid)@
        },
        done.is_ok() ==> {
            &&& final(grid).wf()
            &&& final(grid)@ == terrain(level@.map)
            &&& final(player)@.wf()
            &&& final(player)@ == match start_tile(level@.map) {
                Some(p) => old(player)@.entered(level@.map.len() as int).placed(p),
                None => old(player)@.entered(level@.map.len() as int),
            }
            &&& final(cards)@ == old(cards)@ + dealt(named_types(level@.cards))
            &&& final(explainer)@ == match explained_type_named(
                uppercase(level@.explain_on_startup),
            ) {
                Some(t) => old(explainer)@.explain(t),
                None => old(explainer)@,
            }
        },
{
    let types = read_cards(&level.cards);
    let explain = explained_type(card_type_from_name(level.explain_on_startup.as_str()));
    place_level(&level.map, &types, explain, cards, player, explainer, grid)
}

} // verus!
