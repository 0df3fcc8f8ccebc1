use nordic_grid::player::{Direction, Player, ValueType, WalkRune, TILES_PER_ROW};

#[test]
fn a_new_player_has_three_attack_two_armor_one_health() {
    let player = Player::new(2, 5);
    assert_eq!(player.position(), (2, 5));
    assert_eq!(player.tiles_per_row(), 7);
    assert_eq!(TILES_PER_ROW, 7);
    assert_eq!(player.value(ValueType::Attack), 3);
    assert_eq!(player.value(ValueType::Armor), 2);
    assert_eq!(player.value(ValueType::Health), 1);
    assert!(!player.is_moving());
    assert!(player.rune_positions().is_empty());
    assert!(!player.walk_rune().is_drawing());
    assert_eq!(player.walk_rune().grid_pos(), (0, 0));
}

#[test]
fn a_new_player_beyond_the_grid_lands_on_its_edge() {
    assert_eq!(Player::new(7, 0).position(), (6, 0));
    assert_eq!(Player::new(3, 100).position(), (3, 6));
    assert_eq!(Player::new(u32::MAX, u32::MAX).position(), (6, 6));
}

#[test]
fn resources_are_numbered_attack_armor_health() {
    assert_eq!(ValueType::Attack.index(), 0);
    assert_eq!(ValueType::Armor.index(), 1);
    assert_eq!(ValueType::Health.index(), 2);
}

#[test]
fn one_more_health_on_one_health_is_two() {
    let mut player = Player::new(0, 0);
    assert_eq!(player.change_at(ValueType::Health, 1), 2);
    assert_eq!(player.value(ValueType::Health), 2);
    assert_eq!(player.value(ValueType::Armor), 2);
    assert_eq!(player.value(ValueType::Attack), 3);
}

#[test]
fn amounts_add_up_in_any_order() {
    let mut first = Player::new(0, 0);
    first.change_at(ValueType::Armor, 5);
    first.change_at(ValueType::Armor, -2);
    let mut second = Player::new(0, 0);
    second.change_at(ValueType::Armor, -2);
    second.change_at(ValueType::Armor, 5);
    let mut third = Player::new(0, 0);
    assert_eq!(third.change_at(ValueType::Armor, 3), 5);
    assert_eq!(first.value(ValueType::Armor), 5);
    assert_eq!(second.value(ValueType::Armor), 5);
    assert_eq!(first.value(ValueType::Health), 1);
    assert_eq!(first.value(ValueType::Attack), 3);
}

#[test]
fn a_resource_can_reach_the_largest_amount() {
    let mut player = Player::new(0, 0);
    assert_eq!(player.change_at(ValueType::Attack, i64::MAX - 3), i64::MAX);
    assert_eq!(player.change_at(ValueType::Attack, 0), i64::MAX);
}

#[test]
fn set_position_clamps_each_coordinate_by_itself() {
    let mut player = Player::new(0, 0);
    player.set_position((4, 2));
    assert_eq!(player.position(), (4, 2));
    player.set_position((-1, 3));
    assert_eq!(player.position(), (0, 3));
    player.set_position((9, -9));
    assert_eq!(player.position(), (6, 0));
    player.set_position((i32::MIN, i32::MAX));
    assert_eq!(player.position(), (0, 6));
}

#[test]
fn arrows_move_one_tile() {
    let mut player = Player::new(3, 3);
    player.key_down(Some(Direction::Up));
    assert_eq!(player.position(), (3, 2));
    player.key_down(Some(Direction::Left));
    assert_eq!(player.position(), (2, 2));
    player.key_down(Some(Direction::Down));
    assert_eq!(player.position(), (2, 3));
    player.key_down(Some(Direction::Right));
    assert_eq!(player.position(), (3, 3));
    player.key_down(None);
    assert_eq!(player.position(), (3, 3));
}

#[test]
fn arrows_never_move_off_the_grid() {
    let mut player = Player::new(0, 0);
    player.key_down(Some(Direction::Up));
    player.key_down(Some(Direction::Left));
    assert_eq!(player.position(), (0, 0));
    let mut other = Player::new(6, 6);
    other.key_down(Some(Direction::Down));
    other.key_down(Some(Direction::Right));
    assert_eq!(other.position(), (6, 6));
}

#[test]
fn opening_a_move_lists_the_tiles_within_reach() {
    let mut player = Player::new(0, 0);
    player.move_player();
    assert!(player.is_moving());
    assert_eq!(player.rune_positions(), &vec![(1, 0), (2, 0), (0, 1), (1, 1), (0, 2)]);
    assert_eq!(player.position(), (0, 0));
}

#[test]
fn opening_a_move_twice_computes_the_tiles_anew() {
    let mut player = Player::new(0, 0);
    player.move_player();
    player.move_player();
    assert_eq!(player.rune_positions().len(), 5);
}

#[test]
fn confirming_a_tile_within_reach_moves_the_player() {
    let mut player = Player::new(0, 0);
    player.move_player();
    assert!(player.confirm((1, 1)));
    assert_eq!(player.position(), (1, 1));
    assert!(!player.is_moving());
    assert!(player.rune_positions().is_empty());
}

#[test]
fn confirming_a_tile_out_of_reach_changes_nothing() {
    let mut player = Player::new(0, 0);
    player.move_player();
    assert!(!player.confirm((3, 3)));
    assert!(!player.confirm((0, 0)));
    assert!(!player.confirm((-1, 0)));
    assert_eq!(player.position(), (0, 0));
    assert!(player.is_moving());
    assert_eq!(player.rune_positions().len(), 5);
}

#[test]
fn confirming_without_a_pending_move_changes_nothing() {
    let mut player = Player::new(0, 0);
    assert!(!player.confirm((1, 0)));
    assert_eq!(player.position(), (0, 0));
    assert!(!player.is_moving());
}

#[test]
fn the_rune_follows_the_pointer_and_remembers_its_last_tile() {
    let mut rune = WalkRune::new();
    assert!(!rune.is_drawing());
    assert_eq!(rune.grid_pos(), (0, 0));
    rune.update(None);
    assert!(!rune.is_drawing());
    rune.update(Some((4, 5)));
    assert!(rune.is_drawing());
    assert_eq!(rune.grid_pos(), (4, 5));
    rune.update(None);
    assert!(rune.is_drawing());
    assert_eq!(rune.grid_pos(), (4, 5));
}

#[test]
fn the_rune_knows_whether_it_rests_on_a_listed_tile() {
    let mut rune = WalkRune::new();
    rune.update(Some((2, 1)));
    assert!(rune.on_possible_position(&vec![(0, 0), (2, 1)]));
    assert!(!rune.on_possible_position(&vec![(1, 2)]));
    assert!(!rune.on_possible_position(&Vec::new()));
}

#[test]
fn a_tick_without_a_pending_move_leaves_the_rune_alone() {
    let mut player = Player::new(0, 0);
    assert!(!player.update(Some((1, 0)), true));
    assert_eq!(player.position(), (0, 0));
    assert!(!player.walk_rune().is_drawing());
    assert_eq!(player.walk_rune().grid_pos(), (0, 0));
}

#[test]
fn a_press_on_a_tile_within_reach_ends_the_move() {
    let mut player = Player::new(0, 0);
    player.move_player();
    assert!(!player.update(Some((2, 0)), false));
    assert!(player.is_moving());
    assert_eq!(player.walk_rune().grid_pos(), (2, 0));
    assert!(player.update(None, true));
    assert_eq!(player.position(), (2, 0));
    assert!(!player.is_moving());
    assert!(player.rune_positions().is_empty());
}

#[test]
fn a_press_on_a_tile_out_of_reach_keeps_the_move_open() {
    let mut player = Player::new(0, 0);
    player.move_player();
    assert!(!player.update(Some((5, 5)), true));
    assert!(player.is_moving());
    assert_eq!(player.position(), (0, 0));
    assert_eq!(player.walk_rune().grid_pos(), (5, 5));
}

#[test]
fn entering_a_smaller_grid_drops_the_move_and_clamps_the_player() {
    let mut player = Player::new(5, 6);
    player.move_player();
    player.enter_grid(3);
    assert_eq!(player.tiles_per_row(), 3);
    assert_eq!(player.position(), (2, 2));
    assert!(!player.is_moving());
    assert!(player.rune_positions().is_empty());
    player.move_player();
    assert_eq!(player.rune_positions(), &vec![(2, 0), (1, 1), (2, 1), (0, 2), (1, 2)]);
}
