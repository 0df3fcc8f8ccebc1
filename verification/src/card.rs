//! Cards, the hand that holds them, and the names a level file gives them.

use vstd::prelude::*;

verus! {

/// What a card does when it is spent.
#[derive(Clone, Copy, PartialEq, Eq, Debug, Structural)]
pub enum CardType {
    Move,
    Armor,
    Health,
    Key,
}

impl CardType {
    /// The place of the card type among the four: Move, Armor, Health, Key.
    pub open spec fn ordinal(self) -> int {
        match self {
            CardType::Move => 0,
            CardType::Armor => 1,
            CardType::Health => 2,
            CardType::Key => 3,
        }
    }

    /// The place of the card type among the four, as an index.
    pub fn index(self) -> (i: usize)
        ensures
            i == self.ordinal(),
    {
        match self {
            CardType::Move => 0,
            CardType::Armor => 1,
            CardType::Health => 2,
            CardType::Key => 3,
        }
    }
}

/// How far, in pixels, a card steps aside for the highlighted one.
pub const PUSH_ASIDE: i32 = 11;

/// A single-use action token. Its identity is its place in the hand.
#[derive(Clone, Copy, PartialEq, Eq, Debug, Structural)]
pub struct Card {
    pub card_type: CardType,
    /// Whether the pointer rests on this card.
    pub selected: bool,
    /// Sideways shift that makes room for the highlighted card.
    pub pos_rel_to_selected: i32,
}

impl Card {
    /// A fresh card of the given type, neither highlighted nor shifted.
    pub fn new(card_type: CardType) -> (card: Card)
        ensures
            card == Card::fresh(card_type),
    {
        Card { card_type, selected: false, pos_rel_to_selected: 0 }
    }

    /// The card that `new` makes.
    pub open spec fn fresh(card_type: CardType) -> Card {
        Card { card_type, selected: false, pos_rel_to_selected: 0 }
    }

    /// This card as it looks while the card at `chosen` is highlighted, being
    /// itself at place `at`.
    pub open spec fn highlighted(self, at: int, chosen: Option<int>) -> Card {
        Card {
            card_type: self.card_type,
            selected: chosen == Some(at),
            pos_rel_to_selected: match chosen {
                Some(c) => if at == c {
                    0
                } else if c < at {
                    (-PUSH_ASIDE) as i32
                } else {
                    PUSH_ASIDE
                },
                None => 0,
            },
        }
    }
}

/// The last place below `len` whose flag in `hovered` is set, if any. Places
/// without a flag count as not hovered.
pub open spec fn last_hovered(hovered: Seq<bool>, len: int) -> Option<int>
    decreases len,
{
    if len <= 0 {
        None
    } else if len - 1 < hovered.len() && hovered[len - 1] {
        Some(len - 1)
    } else {
        last_hovered(hovered, len - 1)
    }
}

/// `last_hovered` names a hovered place with none hovered after it, and
/// names none only where no place is hovered.
pub proof fn lemma_last_hovered(hovered: Seq<bool>, len: int)
    ensures
        match last_hovered(hovered, len) {
            Some(c) => 0 <= c < len && c < hovered.len() && hovered[c] && forall|j: int|
                c < j < len && j < hovered.len() ==> !hovered[j],
            None => forall|j: int| 0 <= j < len && j < hovered.len() ==> !hovered[j],
        },
    decreases len,
{
    if len > 0 {
        lemma_last_hovered(hovered, len - 1);
    }
}

/// A hand as it looks while the card at `chosen` is highlighted: that card is
/// marked, those behind it step to the left and those before it to the
/// right. With no card chosen, none is marked or shifted.
pub open spec fn highlighted_cards(cards: Seq<Card>, chosen: Option<int>) -> Seq<Card> {
    Seq::new(cards.len(), |i: int| cards[i].highlighted(i, chosen))
}

/// The cards a player holds, in display order. Cards of one type may repeat.
pub struct Hand {
    cards: Vec<Card>,
}

impl View for Hand {
    type V = Seq<Card>;

    closed spec fn view(&self) -> Seq<Card> {
        self.cards@
    }
}

impl Hand {
    /// The empty hand.
    pub fn new() -> (hand: Hand)
        ensures
            hand@ == Seq::<Card>::empty(),
    {
        Hand { cards: Vec::new() }
    }

    /// How many cards are held.
    pub fn len(&self) -> (n: usize)
        ensures
            n == self@.len(),
    {
        self.cards.len()
    }

    /// The card at `index`.
    pub fn get(&self, index: usize) -> (card: Card)
        requires
            index < self@.len(),
        ensures
            card == self@[index as int],
    {
        self.cards[index]
    }

    /// The cards in display order, to walk through them.
    pub fn cards(&self) -> (cards: &Vec<Card>)
        ensures
            cards@ == self@,
    {
        &self.cards
    }

    /// Puts `card` behind the cards already held.
    pub fn add(&mut self, card: Card)
        ensures
            final(self)@ == old(self)@.push(card),
    {
        self.cards.push(card);
    }

    /// Takes the card at `index` out of the hand; the cards behind it move up.
    pub fn remove_at(&mut self, index: usize) -> (card: Card)
        requires
            index < old(self)@.len(),
        ensures
            card == old(self)@[index as int],
            final(self)@ == old(self)@.remove(index as int),
    {
        self.cards.remove(index)
    }

    /// Highlights the last card whose flag in `hovered` is set and moves the
    /// others aside: those behind it to the left, those before it to the
    /// right. With no card hovered, no card is highlighted or shifted.
    pub fn highlight(&mut self, hovered: &Vec<bool>) -> (chosen: Option<usize>)
        ensures
            match chosen {
                Some(c) => last_hovered(hovered@, old(self)@.len() as int) == Some(c as int),
                None => last_hovered(hovered@, old(self)@.len() as int).is_none(),
            },
            final(self)@ == highlighted_cards(
                old(self)@,
                last_hovered(hovered@, old(self)@.len() as int),
            ),
    {
        let n = self.cards.len();
        let mut chosen: Option<usize> = None;
        let mut i: usize = 0;
        while i < n
            invariant
                i <= n,
                n == self.cards@.len(),
                match chosen {
                    Some(c) => last_hovered(hovered@, i as int) == Some(c as int),
                    None => last_hovered(hovered@, i as int).is_none(),
                },
            decreases n - i,
        {
            if i < hovered.len() && hovered[i] {
                chosen = Some(i);
            }
            i = i + 1;
        }
        let ghost picked = last_hovered(hovered@, n as int);
        proof {
            lemma_last_hovered(hovered@, n as int);
        }
        let mut k: usize = 0;
        while k < n
            invariant
                k <= n,
                n == self.cards@.len(),
                n == old(self)@.len(),
                picked == last_hovered(hovered@, n as int),
                match chosen {
                    Some(c) => picked == Some(c as int) && c < n,
                    None => picked.is_none(),
                },
                forall|j: int| 0 <= j < k ==> #[trigger] self.cards@[j] == old(self)@[j].highlighted(j, picked),
                forall|j: int| k <= j < n ==> #[trigger] self.cards@[j] == old(self)@[j],
            decreases n - k,
        {
            let card = self.cards[k];
            let shift: i32 = match chosen {
                Some(c) => if k == c {
                    0
                } else if c < k {
                    -PUSH_ASIDE
                } else {
                    PUSH_ASIDE
                },
                None => 0,
            };
            let is_chosen = match chosen {
                Some(c) => c == k,
                None => false,
            };
            self.cards.set(
                k,
                Card { card_type: card.card_type, selected: is_chosen, pos_rel_to_selected: shift },
            );
            k = k + 1;
        }
        chosen
    }
}

/// The upper-case form of a text, as `str::to_uppercase` of the standard
/// library gives it.
pub uninterp spec fn uppercase(s: Seq<char>) -> Seq<char>;

/// Calls `str::to_uppercase`. The contract only gives the result its name:
/// the same text always has the same upper-case form.
#[verifier::external_body]
fn to_uppercase(name: &str) -> (upper: String)
    ensures
        upper@ == uppercase(name@),
{
    name.to_uppercase()
}

/// The card type that an upper-case name stands for.
pub open spec fn card_type_named(upper: Seq<char>) -> Option<CardType> {
    if upper == "HEALTH"@ {
        Some(CardType::Health)
    } else if upper == "ARMOR"@ {
        Some(CardType::Armor)
    } else if upper == "MOVE"@ {
        Some(CardType::Move)
    } else if upper == "KEY"@ {
        Some(CardType::Key)
    } else {
        None
    }
}

/// Reads an upper-case card name. Any other text names no card.
pub fn card_type_from_upper(upper: &String) -> (found: Option<CardType>)
    ensures
        found == card_type_named(upper@),
{
    if *upper == String::from_str("HEALTH") {
        Some(CardType::Health)
    } else if *upper == String::from_str("ARMOR") {
        Some(CardType::Armor)
    } else if *upper == String::from_str("MOVE") {
        Some(CardType::Move)
    } else if *upper == String::from_str("KEY") {
        Some(CardType::Key)
    } else {
        None
    }
}

/// Reads a card name whatever its letter case: the name is brought to upper
/// case and then read. A name that is none of the four yields no card.
pub fn card_type_from_name(name: &str) -> (found: Option<CardType>)
    ensures
        found == card_type_named(uppercase(name@)),
{
    let upper = to_uppercase(name);
    card_type_from_upper(&upper)
}

} // verus!
