//! A game session: the grid, the player, the hand, and the turn rules that
//! tie them together.

use vstd::prelude::*;
use crate::card::{
    highlighted_cards,
    last_hovered,
    lemma_last_hovered,
    uppercase,
    Card,
    CardType,
    Hand,
};
use crate::explainer::{Explainer, ExplainerView};
use crate::grid::{empty_grid, is_square, GridState, State};
use crate::level_manager::{
    dealt,
    explained_type_named,
    load_level,
    named_types,
    side_error,
    start_tile,
    terrain,
    Level,
    LevelError,
    LevelView,
};
use crate::player::{arrow_delta, Direction, Player, PlayerView, ValueType, TILES_PER_ROW};
use crate::targeting::{
    as_point,
    in_grid,
    lemma_targets_are_reachable_tiles,
    shifted,
    target_set,
    targets,
    Point,
};

verus! {

/// Where a turn stands.
#[derive(Clone, Copy, PartialEq, Eq, Debug, Structural)]
pub enum TurnState {
    /// No move is pending.
    Idle,
    /// The Move card at `card_index` was activated and waits for a
    /// destination.
    AwaitingMoveTarget { card_index: usize },
}

/// What one tick did to the hand.
#[derive(Clone, Copy, Debug)]
pub struct TickReport {
    /// The place that the Move card had in the hand when its move ended in
    /// this tick and it left the hand.
    pub confirmed: Option<usize>,
    /// The card that was activated in this tick: its place in the hand at
    /// that moment, and its type. Of these only a Move card is still held.
    pub used: Option<(usize, CardType)>,
}

/// What the rules see of a `Game`.
pub struct GameView {
    pub player: PlayerView,
    /// The hand, in display order.
    pub cards: Seq<Card>,
    pub explainer: ExplainerView,
    /// The terrain by column, then row.
    pub grid: Seq<Seq<State>>,
    /// The place in the hand of the Move card that waits for a destination.
    pub pending: Option<int>,
}

/// Where the pending card is found after the card at `removed` left the hand.
pub open spec fn pending_after_removal(pending: Option<int>, removed: int) -> Option<int> {
    match pending {
        Some(p) => if removed < p {
            Some(p - 1)
        } else {
            Some(p)
        },
        None => None,
    }
}

/// The hover flags of the cards that stay after the card at `removed` left
/// the hand.
pub open spec fn flags_after_removal(hovered: Seq<bool>, removed: int) -> Seq<bool> {
    if 0 <= removed < hovered.len() {
        hovered.remove(removed)
    } else {
        hovered
    }
}

/// The hover flags without the one at `removed`, if there is one.
pub fn without_flag(hovered: &Vec<bool>, removed: usize) -> (flags: Vec<bool>)
    ensures
        flags@ == flags_after_removal(hovered@, removed as int),
{
    let mut flags: Vec<bool> = Vec::new();
    let mut i: usize = 0;
    while i < hovered.len()
        invariant
            i <= hovered@.len(),
            flags@.len() == if i <= removed {
                i as int
            } else {
                i - 1
            },
            forall|j: int| 0 <= j < flags@.len() ==> flags@[j] == if j < removed {
                hovered@[j]
            } else {
                hovered@[j + 1]
            },
        decreases hovered@.len() - i,
    {
        if i != removed {
            flags.push(hovered[i]);
        }
        i = i + 1;
    }
    flags
}

impl GameView {
    /// A session before any level is loaded.
    pub open spec fn fresh() -> GameView {
        GameView {
            player: PlayerView::fresh((0, 0)),
            cards: Seq::empty(),
            explainer: ExplainerView::fresh(),
            grid: empty_grid(TILES_PER_ROW as nat),
            pending: None,
        }
    }

    /// The session after a level with a square map was loaded: the grid
    /// takes the map's side and terrain; the player enters that grid and goes
    /// to the start that the map marks, if it marks one; no move is pending;
    /// the level's cards join the hand behind those already held; and the
    /// explanation that the level asks for, if it was not shown before, is
    /// put on display.
    pub open spec fn loaded(self, level: LevelView) -> GameView {
        GameView {
            player: match start_tile(level.map) {
                Some(p) => self.player.entered(level.map.len() as int).placed(p),
                None => self.player.entered(level.map.len() as int),
            },
            cards: self.cards + dealt(named_types(level.cards)),
            explainer: match explained_type_named(uppercase(level.explain_on_startup)) {
                Some(t) => self.explainer.explain(t),
                None => self.explainer,
            },
            grid: terrain(level.map),
            pending: None,
        }
    }

    /// The player stands on the session's grid, and a move is pending exactly
    /// when a Move card of the hand waits for its destination.
    pub open spec fn wf(self) -> bool {
        &&& self.player.wf()
        &&& self.explainer.wf()
        &&& is_square(self.grid)
        &&& self.grid.len() == self.player.tiles_per_row
        &&& self.player.moving <==> self.pending.is_some()
        &&& self.pending matches Some(p) ==> 0 <= p < self.cards.len() && self.cards[p].card_type
            == CardType::Move
    }

    /// The session after the card at `idx` was spent, other than a Move card.
    pub open spec fn spent(self, idx: int) -> GameView {
        GameView {
            cards: self.cards.remove(idx),
            pending: pending_after_removal(self.pending, idx),
            ..self
        }
    }

    /// The session after the card at `idx` was activated.
    ///
    /// A Move card opens a move from where the player stands and stays in the
    /// hand until a destination is confirmed. An Armor or Health card adds one
    /// to its resource and leaves the hand. A Key card leaves the hand; what
    /// the key opens is not this library's business.
    pub open spec fn activated(self, idx: int) -> GameView {
        match self.cards[idx].card_type {
            CardType::Move => GameView {
                player: self.player.aiming(),
                pending: Some(idx),
                ..self
            },
            CardType::Armor => GameView {
                player: self.player.adjusted(ValueType::Armor, 1),
                ..self
            }.spent(idx),
            CardType::Health => GameView {
                player: self.player.adjusted(ValueType::Health, 1),
                ..self
            }.spent(idx),
            CardType::Key => self.spent(idx),
        }
    }

    /// Whether activating the card at `idx` keeps the resource it raises
    /// within what the machine can count.
    pub open spec fn can_activate(self, idx: int) -> bool {
        match self.cards[idx].card_type {
            CardType::Armor => self.player.values[ValueType::Armor.ordinal()] < i64::MAX,
            CardType::Health => self.player.values[ValueType::Health.ordinal()] < i64::MAX,
            _ => true,
        }
    }

    /// Whether a press in this tick ends the pending move: the rune, having
    /// followed the pointer, rests on a tile within reach.
    pub open spec fn tick_moves(self, pressed: bool, pointer_tile: Option<(i32, i32)>) -> bool {
        self.player.moving && pressed && self.player.rune_positions.contains(
            self.player.rune.updated(pointer_tile).grid_pos,
        )
    }

    /// The place in the hand of the card that the pointer picks in this tick,
    /// counted after a Move card left the hand, if one did.
    pub open spec fn tick_choice(
        self,
        hovered: Seq<bool>,
        pressed: bool,
        pointer_tile: Option<(i32, i32)>,
    ) -> Option<int> {
        if self.tick_moves(pressed, pointer_tile) {
            last_hovered(
                flags_after_removal(hovered, self.pending.unwrap()),
                self.cards.len() - 1,
            )
        } else {
            last_hovered(hovered, self.cards.len() as int)
        }
    }

    /// The session in the middle of a tick: the player has had its tick, a
    /// confirmed move has taken its card out of the hand, and the card under
    /// the pointer is highlighted; no card has been activated yet.
    pub open spec fn tick_before_activation(
        self,
        hovered: Seq<bool>,
        pressed: bool,
        pointer_tile: Option<(i32, i32)>,
    ) -> GameView {
        let chosen = self.tick_choice(hovered, pressed, pointer_tile);
        if self.tick_moves(pressed, pointer_tile) {
            GameView {
                player: self.player.ticked(pointer_tile, pressed),
                cards: highlighted_cards(self.cards.remove(self.pending.unwrap()), chosen),
                pending: None,
                ..self
            }
        } else {
            GameView {
                player: self.player.ticked(pointer_tile, pressed),
                cards: highlighted_cards(self.cards, chosen),
                ..self
            }
        }
    }

    /// The session after one tick. `hovered` tells for each card of the hand
    /// whether the pointer is over it, `pressed` whether the button went down
    /// in this tick, and `pointer_tile` which tile the pointer is over.
    ///
    /// First the player has its tick, and a move that ends takes its card out
    /// of the hand. Then the last hovered card of the remaining hand is
    /// highlighted. Last, if the button went down, that card is activated.
    pub open spec fn ticked(
        self,
        hovered: Seq<bool>,
        pressed: bool,
        pointer_tile: Option<(i32, i32)>,
    ) -> GameView {
        let lit = self.tick_before_activation(hovered, pressed, pointer_tile);
        match self.tick_choice(hovered, pressed, pointer_tile) {
            Some(c) => if pressed {
                lit.activated(c)
            } else {
                lit
            },
            None => lit,
        }
    }

    /// What a tick reports: whether a move ended and which card, if any, was
    /// activated.
    pub open spec fn tick_report(
        self,
        hovered: Seq<bool>,
        pressed: bool,
        pointer_tile: Option<(i32, i32)>,
    ) -> TickReport {
        TickReport {
            confirmed: if self.tick_moves(pressed, pointer_tile) {
                Some(self.pending.unwrap() as usize)
            } else {
                None
            },
            used: match self.tick_choice(hovered, pressed, pointer_tile) {
                Some(c) => if pressed {
                    Some(
                        (
                            c as usize,
                            self.tick_before_activation(
                                hovered,
                                pressed,
                                pointer_tile,
                            ).cards[c].card_type,
                        ),
                    )
                } else {
                    None
                },
                None => None,
            },
        }
    }

    /// The session after `candidate` was offered as the end of the pending
    /// move: an accepted one moves the player there, takes the waiting Move
    /// card out of the hand and ends the move; any other changes nothing.
    pub open spec fn confirmed(self, candidate: Point) -> GameView {
        if self.player.accepts(candidate) {
            GameView {
                player: self.player.confirmed(candidate),
                cards: self.cards.remove(self.pending.unwrap()),
                pending: None,
                ..self
            }
        } else {
            self
        }
    }
}

/// A game session.
pub struct Game {
    player: Player,
    cards: Hand,
    explainer: Explainer,
    grid: GridState,
    pending: Option<usize>,
}

impl View for Game {
    type V = GameView;

    closed spec fn view(&self) -> GameView {
        GameView {
            player: self.player@,
            cards: self.cards@,
            explainer: self.explainer@,
            grid: self.grid@,
            pending: match self.pending {
                Some(p) => Some(p as int),
                None => None,
            },
        }
    }
}

impl Game {
    /// A session before any level is loaded: an empty grid of side
    /// `TILES_PER_ROW`, the player on its first tile, an empty hand, nothing
    /// explained and no move pending.
    pub fn new() -> (game: Game)
        ensures
            game@ == GameView::fresh(),
            game@.wf(),
    {
        Game {
            player: Player::new(0, 0),
            cards: Hand::new(),
            explainer: Explainer::new(),
            grid: GridState::new(TILES_PER_ROW as usize),
            pending: None,
        }
    }

    /// The player token.
    pub fn player(&self) -> (player: &Player)
        ensures
            player@ == self@.player,
    {
        &self.player
    }

    /// The hand.
    pub fn cards(&self) -> (cards: &Hand)
        ensures
            cards@ == self@.cards,
    {
        &self.cards
    }

    /// The explanation display.
    pub fn explainer(&self) -> (explainer: &Explainer)
        ensures
            explainer@ == self@.explainer,
    {
        &self.explainer
    }

    /// The terrain.
    pub fn grid(&self) -> (grid: &GridState)
        ensures
            grid@ == self@.grid,
    {
        &self.grid
    }

    /// Where the turn stands.
    pub fn turn_state(&self) -> (state: TurnState)
        ensures
            state == match self@.pending {
                Some(p) => TurnState::AwaitingMoveTarget { card_index: p as usize },
                None => TurnState::Idle,
            },
    {
        match self.pending {
            Some(p) => TurnState::AwaitingMoveTarget { card_index: p },
            None => TurnState::Idle,
        }
    }

    /// Activates the card at `idx` and says which type it was, so that the
    /// caller can tell whoever opens chests that a key was used.
    pub fn use_card_at(&mut self, idx: usize) -> (used: CardType)
        requires
            old(self)@.wf(),
            idx < old(self)@.cards.len(),
            old(self)@.can_activate(idx as int),
        ensures
            used == old(self)@.cards[idx as int].card_type,
            final(self)@ == old(self)@.activated(idx as int),
            final(self)@.wf(),
    {
        let used = self.cards.get(idx).card_type;
        match used {
            CardType::Move => {
                self.player.move_player();
                self.pending = Some(idx);
            },
            CardType::Health => {
                self.player.change_at(ValueType::Health, 1);
                self.discard(idx);
            },
            CardType::Armor => {
                self.player.change_at(ValueType::Armor, 1);
                self.discard(idx);
            },
            CardType::Key => {
                self.discard(idx);
            },
        }
        used
    }

    /// Takes a spent card out of the hand and keeps track of the waiting
    /// Move card.
    fn discard(&mut self, idx: usize)
        requires
            idx < old(self)@.cards.len(),
            old(self)@.pending matches Some(p) ==> p < old(self)@.cards.len() && p != idx,
        ensures
            final(self)@ == old(self)@.spent(idx as int),
    {
        self.cards.remove_at(idx);
        if let Some(p) = self.pending {
            if idx < p {
                self.pending = Some(p - 1);
            }
        }
    }

    /// Offers `candidate` as the end of the pending move and says whether it
    /// was taken.
    pub fn confirm(&mut self, candidate: (i32, i32)) -> (moved: bool)
        requires
            old(self)@.wf(),
        ensures
            moved == old(self)@.player.accepts(as_point(candidate)),
            final(self)@ == old(self)@.confirmed(as_point(candidate)),
            final(self)@.wf(),
    {
        let moved = self.player.confirm(candidate);
        if moved {
            if let Some(p) = self.pending {
                self.cards.remove_at(p);
            }
            self.pending = None;
        }
        moved
    }

    /// One tick of the session; see `GameView::ticked`. The report says what
    /// left the hand, so that whoever draws the cards can follow.
    pub fn update(
        &mut self,
        hovered: &Vec<bool>,
        pressed: bool,
        pointer_tile: Option<(i32, i32)>,
    ) -> (report: TickReport)
        requires
            old(self)@.wf(),
            pressed ==> (old(self)@.tick_choice(hovered@, pressed, pointer_tile) matches Some(c)
                ==> old(self)@.tick_before_activation(hovered@, pressed, pointer_tile).can_activate(
                c,
            )),
        ensures
            final(self)@ == old(self)@.ticked(hovered@, pressed, pointer_tile),
            report == old(self)@.tick_report(hovered@, pressed, pointer_tile),
            final(self)@.wf(),
    {
        let moved = self.player.update(pointer_tile, pressed);
        let mut confirmed: Option<usize> = None;
        let mut chosen: Option<usize> = None;
        if moved {
            if let Some(p) = self.pending {
                self.cards.remove_at(p);
                self.pending = None;
                confirmed = Some(p);
                let flags = without_flag(hovered, p);
                chosen = self.cards.highlight(&flags);
            }
        } else {
            chosen = self.cards.highlight(hovered);
        }
        proof {
            lemma_last_hovered(
                if moved {
                    flags_after_removal(hovered@, old(self)@.pending.unwrap())
                } else {
                    hovered@
                },
                self@.cards.len() as int,
            );
        }
        let used = match chosen {
            Some(c) => if pressed {
                Some((c, self.use_card_at(c)))
            } else {
                None
            },
            None => None,
        };
        TickReport { confirmed, used }
    }

    /// Moves the player one tile along an arrow, but never off the grid.
    pub fn key_down_event(&mut self, arrow: Option<Direction>)
        requires
            old(self)@.wf(),
        ensures
            final(self)@ == (GameView {
                player: old(self)@.player.placed(
                    shifted(old(self)@.player.pos, arrow_delta(arrow)),
                ),
                ..old(self)@
            }),
            final(self)@.wf(),
    {
        self.player.key_down(arrow);
    }

    /// Loads a level into the session. A level whose map is refused changes
    /// nothing; for any other see `GameView::loaded`.
    pub fn load_level(&mut self, level: &Level) -> (done: Result<(), LevelError>)
        requires
            old(self)@.wf(),
        ensures
            done.is_ok() <==> side_error(level@.map).is_none(),
            done matches Err(e) ==> side_error(level@.map) == Some(e) && final(self)@ == old(
                self,
            )@,
            done.is_ok() ==> final(self)@ == old(self)@.loaded(level@),
            final(self)@.wf(),
    {
        let done = load_level(
            level,
            &mut self.cards,
            &mut self.player,
            &mut self.explainer,
            &mut self.grid,
        );
        if done.is_ok() {
            self.pending = None;
        }
        done
    }
}

/// Activating a card other than a Move card leaves a pending move as it was:
/// the same card waits and the same tiles are within reach. Activating a
/// Move card opens a move from where the player stands, with that card
/// waiting, and takes no card out of the hand.
pub proof fn lemma_activation_and_pending_move(g: GameView, idx: int)
    requires
        g.wf(),
        0 <= idx < g.cards.len(),
    ensures
        g.cards[idx].card_type != CardType::Move ==> {
            let after = g.activated(idx);
            &&& after.player.moving == g.player.moving
            &&& after.player.rune_positions == g.player.rune_positions
            &&& after.player.pos == g.player.pos
            &&& after.pending.is_some() == g.pending.is_some()
            &&& after.cards.len() == g.cards.len() - 1
            &&& g.pending matches Some(p) ==> after.cards[after.pending.unwrap()] == g.cards[p]
        },
        g.cards[idx].card_type == CardType::Move ==> {
            let after = g.activated(idx);
            &&& after.pending == Some(idx)
            &&& after.player.moving
            &&& after.player.rune_positions == targets(g.player.pos, g.player.tiles_per_row)
            &&& after.cards == g.cards
        },
{
}

/// Right after a Move card is activated, a tile is accepted as the end of the
/// move exactly when it lies on the grid and one of the twelve steps reaches
/// it from where the player stands.
pub proof fn lemma_accepted_after_activation(g: GameView, idx: int, candidate: Point)
    requires
        g.wf(),
        0 <= idx < g.cards.len(),
        g.cards[idx].card_type == CardType::Move,
    ensures
        g.activated(idx).player.accepts(candidate) <==> target_set(
            g.player.pos,
            g.player.tiles_per_row,
        ).contains(candidate),
        g.activated(idx).wf(),
{
    lemma_targets_are_reachable_tiles(g.player.pos, g.player.tiles_per_row);
    let reach = targets(g.player.pos, g.player.tiles_per_row);
    assert forall|i: int| 0 <= i < reach.len() implies in_grid(
        #[trigger] reach[i],
        g.player.tiles_per_row,
    ) by {
        assert(reach.contains(reach[i]));
    }
}

/// Confirming a tile within reach takes exactly the waiting Move card out of
/// the hand, puts the player on that tile and ends the move. Confirming any
/// other tile changes nothing.
pub proof fn lemma_confirmation(g: GameView, candidate: Point)
    requires
        g.wf(),
    ensures
        g.player.accepts(candidate) ==> {
            let after = g.confirmed(candidate);
            &&& g.pending.is_some()
            &&& g.cards[g.pending.unwrap()].card_type == CardType::Move
            &&& after.cards == g.cards.remove(g.pending.unwrap())
            &&& after.cards.len() == g.cards.len() - 1
            &&& after.player.pos == candidate
            &&& after.pending.is_none()
            &&& !after.player.moving
            &&& after.player.rune_positions.len() == 0
        },
        !g.player.accepts(candidate) ==> g.confirmed(candidate) == g,
{
}

} // verus!
