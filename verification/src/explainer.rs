//! The one-time explanation shown for a card type.

use vstd::prelude::*;
use crate::card::CardType;

verus! {

/// How many card types there are.
pub const DIFF_CARD_TYPES: usize = 4;

/// What the rules see of an `Explainer`.
pub struct ExplainerView {
    /// For each card type, by ordinal, whether it has been explained.
    pub explained: Seq<bool>,
    /// Whether an explanation is on display.
    pub drawing: bool,
    /// The ordinal of the card type whose explanation was opened last.
    pub explain_idx: int,
}

/// Remembers which card types have been explained and which explanation, if
/// any, is on display. Each type is explained at most once.
pub struct Explainer {
    explained: [bool; 4],
    drawing: bool,
    explain_idx: usize,
}

impl View for Explainer {
    type V = ExplainerView;

    closed spec fn view(&self) -> ExplainerView {
        ExplainerView {
            explained: self.explained@,
            drawing: self.drawing,
            explain_idx: self.explain_idx as int,
        }
    }
}

impl ExplainerView {
    /// Nothing explained, nothing on display.
    pub open spec fn fresh() -> ExplainerView {
        ExplainerView {
            explained: Seq::new(DIFF_CARD_TYPES as nat, |i: int| false),
            drawing: false,
            explain_idx: 0,
        }
    }

    /// The state after a request to explain `card_type`: a type explained
    /// before changes nothing; a new one is marked and put on display.
    pub open spec fn explain(self, card_type: CardType) -> ExplainerView {
        if self.explained[card_type.ordinal()] {
            self
        } else {
            ExplainerView {
                explained: self.explained.update(card_type.ordinal(), true),
                drawing: true,
                explain_idx: card_type.ordinal(),
            }
        }
    }

    /// One flag per card type, and the display index names a card type.
    pub open spec fn wf(self) -> bool {
        self.explained.len() == DIFF_CARD_TYPES && 0 <= self.explain_idx < DIFF_CARD_TYPES
    }
}

impl Explainer {
    /// Nothing explained, nothing on display.
    pub fn new() -> (e: Explainer)
        ensures
            e@ == ExplainerView::fresh(),
            e@.wf(),
    {
        let e = Explainer { explained: [false; 4], drawing: false, explain_idx: 0 };
        assert(e@.explained =~= ExplainerView::fresh().explained);
        e
    }

    /// Shows the explanation of `card_type`, unless it was shown before.
    pub fn explain(&mut self, card_type: CardType)
        ensures
            final(self)@ == old(self)@.explain(card_type),
            old(self)@.wf() ==> final(self)@.wf(),
    {
        let i = card_type.index();
        if self.explained[i] {
            return ;
        }
        self.explained[i] = true;
        self.explain_idx = i;
        self.drawing = true;
    }

    /// Whether an explanation is on display.
    pub fn is_drawing(&self) -> (b: bool)
        ensures
            b == self@.drawing,
    {
        self.drawing
    }

    /// The ordinal of the card type whose explanation was opened last.
    pub fn explain_idx(&self) -> (i: usize)
        ensures
            i == self@.explain_idx,
    {
        self.explain_idx
    }

    /// Whether `card_type` has been explained.
    pub fn was_explained(&self, card_type: CardType) -> (b: bool)
        ensures
            b == self@.explained[card_type.ordinal()],
    {
        self.explained[card_type.index()]
    }
}

} // verus!
