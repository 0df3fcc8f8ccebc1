use nordic_grid::explainer::Explainer;
use nordic_grid::card::CardType;
use nordic_grid::grid::{GridState, State};

#[test]
fn a_new_grid_is_empty() {
    let grid = GridState::new(4);
    assert_eq!(grid.size(), 4);
    for x in 0..4 {
        for y in 0..4 {
            assert_eq!(grid.get_state(x, y), State::Empty);
        }
    }
    assert_eq!(grid.states(), &vec![vec![State::Empty; 4]; 4]);
}

#[test]
fn a_grid_without_tiles_can_be_made() {
    let grid = GridState::new(0);
    assert_eq!(grid.size(), 0);
    assert!(grid.states().is_empty());
}

#[test]
fn setting_a_tile_changes_that_tile_only() {
    let mut grid = GridState::new(3);
    grid.set_state_at(2, 1, State::Tree);
    grid.set_state_at(0, 2, State::Chest);
    for x in 0..3 {
        for y in 0..3 {
            let expected = match (x, y) {
                (2, 1) => State::Tree,
                (0, 2) => State::Chest,
                _ => State::Empty,
            };
            assert_eq!(grid.get_state(x, y), expected);
        }
    }
    grid.set_state_at(2, 1, State::Empty);
    assert_eq!(grid.get_state(2, 1), State::Empty);
    assert_eq!(grid.get_state(0, 2), State::Chest);
}

#[test]
fn states_are_held_by_column_then_row() {
    let mut grid = GridState::new(2);
    grid.set_state_at(1, 0, State::Tree);
    assert_eq!(grid.states()[1][0], State::Tree);
    assert_eq!(grid.states()[0][1], State::Empty);
}

#[test]
fn a_new_explainer_shows_nothing() {
    let explainer = Explainer::new();
    assert!(!explainer.is_drawing());
    assert_eq!(explainer.explain_idx(), 0);
    for t in [CardType::Move, CardType::Armor, CardType::Health, CardType::Key] {
        assert!(!explainer.was_explained(t));
    }
}

#[test]
fn a_card_type_is_explained_once() {
    let mut explainer = Explainer::new();
    explainer.explain(CardType::Key);
    assert!(explainer.is_drawing());
    assert_eq!(explainer.explain_idx(), 3);
    assert!(explainer.was_explained(CardType::Key));
    assert!(!explainer.was_explained(CardType::Move));
    explainer.explain(CardType::Armor);
    assert_eq!(explainer.explain_idx(), 1);
    explainer.explain(CardType::Key);
    assert_eq!(explainer.explain_idx(), 1);
    assert!(explainer.is_drawing());
}
