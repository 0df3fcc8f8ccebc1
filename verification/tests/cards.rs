use nordic_grid::card::{card_type_from_name, card_type_from_upper, Card, CardType, Hand};

fn hand_of(types: &[CardType]) -> Hand {
    let mut hand = Hand::new();
    for t in types {
        hand.add(Card::new(*t));
    }
    hand
}

fn types_of(hand: &Hand) -> Vec<CardType> {
    (0..hand.len()).map(|i| hand.get(i).card_type).collect()
}

#[test]
fn a_new_card_is_neither_highlighted_nor_shifted() {
    let card = Card::new(CardType::Armor);
    assert_eq!(card.card_type, CardType::Armor);
    assert!(!card.selected);
    assert_eq!(card.pos_rel_to_selected, 0);
}

#[test]
fn card_types_are_numbered_move_armor_health_key() {
    assert_eq!(CardType::Move.index(), 0);
    assert_eq!(CardType::Armor.index(), 1);
    assert_eq!(CardType::Health.index(), 2);
    assert_eq!(CardType::Key.index(), 3);
}

#[test]
fn a_new_hand_is_empty() {
    assert_eq!(Hand::new().len(), 0);
}

#[test]
fn cards_are_held_in_the_order_they_were_added() {
    let hand = hand_of(&[CardType::Move, CardType::Health, CardType::Move, CardType::Key]);
    assert_eq!(hand.len(), 4);
    assert_eq!(
        types_of(&hand),
        vec![CardType::Move, CardType::Health, CardType::Move, CardType::Key]
    );
}

#[test]
fn walking_through_the_hand_gives_the_cards_in_display_order() {
    let hand = hand_of(&[CardType::Key, CardType::Move, CardType::Key]);
    let walked: Vec<CardType> = hand.cards().iter().map(|c| c.card_type).collect();
    assert_eq!(walked, vec![CardType::Key, CardType::Move, CardType::Key]);
    assert_eq!(hand.cards(), &vec![
        Card::new(CardType::Key),
        Card::new(CardType::Move),
        Card::new(CardType::Key),
    ]);
}

#[test]
fn removing_a_card_returns_it_and_closes_the_gap() {
    let mut hand = hand_of(&[CardType::Move, CardType::Health, CardType::Key]);
    let taken = hand.remove_at(1);
    assert_eq!(taken.card_type, CardType::Health);
    assert_eq!(hand.len(), 2);
    assert_eq!(types_of(&hand), vec![CardType::Move, CardType::Key]);
    let last = hand.remove_at(1);
    assert_eq!(last.card_type, CardType::Key);
    let first = hand.remove_at(0);
    assert_eq!(first.card_type, CardType::Move);
    assert_eq!(hand.len(), 0);
}

#[test]
fn the_last_hovered_card_is_highlighted_and_the_others_step_aside() {
    let mut hand = hand_of(&[CardType::Move, CardType::Health, CardType::Key, CardType::Armor]);
    let chosen = hand.highlight(&vec![false, true, true, false]);
    assert_eq!(chosen, Some(2));
    let shifts: Vec<i32> = (0..4).map(|i| hand.get(i).pos_rel_to_selected).collect();
    let marks: Vec<bool> = (0..4).map(|i| hand.get(i).selected).collect();
    assert_eq!(shifts, vec![11, 11, 0, -11]);
    assert_eq!(marks, vec![false, false, true, false]);
    assert_eq!(
        types_of(&hand),
        vec![CardType::Move, CardType::Health, CardType::Key, CardType::Armor]
    );
}

#[test]
fn with_no_card_hovered_none_is_highlighted() {
    let mut hand = hand_of(&[CardType::Move, CardType::Health]);
    assert_eq!(hand.highlight(&vec![true, false]), Some(0));
    assert_eq!(hand.highlight(&vec![false, false]), None);
    for i in 0..2 {
        assert!(!hand.get(i).selected);
        assert_eq!(hand.get(i).pos_rel_to_selected, 0);
    }
}

#[test]
fn hover_flags_beyond_the_hand_are_ignored_and_missing_ones_count_as_unset() {
    let mut hand = hand_of(&[CardType::Move, CardType::Health, CardType::Key]);
    assert_eq!(hand.highlight(&vec![true, false, false, true, true]), Some(0));
    assert_eq!(hand.highlight(&vec![false, true]), Some(1));
    assert_eq!(hand.highlight(&Vec::new()), None);
    let mut empty = Hand::new();
    assert_eq!(empty.highlight(&vec![true]), None);
}

#[test]
fn card_names_are_read_in_any_letter_case() {
    assert_eq!(card_type_from_name("MOVE"), Some(CardType::Move));
    assert_eq!(card_type_from_name("move"), Some(CardType::Move));
    assert_eq!(card_type_from_name("Health"), Some(CardType::Health));
    assert_eq!(card_type_from_name("aRmOr"), Some(CardType::Armor));
    assert_eq!(card_type_from_name("key"), Some(CardType::Key));
}

#[test]
fn other_names_are_no_cards() {
    assert_eq!(card_type_from_name(""), None);
    assert_eq!(card_type_from_name("MOVES"), None);
    assert_eq!(card_type_from_name(" move"), None);
    assert_eq!(card_type_from_name("attack"), None);
    assert_eq!(card_type_from_name("ke\u{0301}y"), None);
}

#[test]
fn upper_case_names_are_read_exactly() {
    assert_eq!(card_type_from_upper(&String::from("HEALTH")), Some(CardType::Health));
    assert_eq!(card_type_from_upper(&String::from("ARMOR")), Some(CardType::Armor));
    assert_eq!(card_type_from_upper(&String::from("MOVE")), Some(CardType::Move));
    assert_eq!(card_type_from_upper(&String::from("KEY")), Some(CardType::Key));
    assert_eq!(card_type_from_upper(&String::from("move")), None);
    assert_eq!(card_type_from_upper(&String::from("Key")), None);
    assert_eq!(card_type_from_upper(&String::new()), None);
}
