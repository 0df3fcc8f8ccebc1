use nordic_grid::targeting::{compute_targets, is_valid_target, neighbor};

const OFFSETS: [(i32, i32); 12] = [
    (0, -2),
    (-1, -1),
    (0, -1),
    (1, -1),
    (-2, 0),
    (-1, 0),
    (1, 0),
    (2, 0),
    (-1, 1),
    (0, 1),
    (1, 1),
    (0, 2),
];

#[test]
fn neighbor_table_has_the_twelve_steps_in_order() {
    for k in 0..12 {
        assert_eq!(neighbor(k), OFFSETS[k]);
    }
}

#[test]
fn targets_from_the_middle_are_all_twelve_in_table_order() {
    let found = compute_targets((3, 3), 7);
    let expected: Vec<(i32, i32)> = vec![
        (3, 1),
        (2, 2),
        (3, 2),
        (4, 2),
        (1, 3),
        (2, 3),
        (4, 3),
        (5, 3),
        (2, 4),
        (3, 4),
        (4, 4),
        (3, 5),
    ];
    assert_eq!(found, expected);
}

#[test]
fn targets_from_a_corner_keep_only_tiles_of_the_grid() {
    let found = compute_targets((0, 0), 7);
    assert_eq!(found, vec![(1, 0), (2, 0), (0, 1), (1, 1), (0, 2)]);
}

#[test]
fn targets_from_the_far_corner() {
    let found = compute_targets((6, 6), 7);
    assert_eq!(found, vec![(6, 4), (5, 5), (6, 5), (4, 6), (5, 6)]);
}

#[test]
fn targets_on_a_grid_of_three_from_the_top_row() {
    let found = compute_targets((1, 0), 3);
    assert_eq!(found, vec![(0, 0), (2, 0), (0, 1), (1, 1), (2, 1), (1, 2)]);
}

#[test]
fn targets_on_a_grid_of_one_are_none() {
    assert_eq!(compute_targets((0, 0), 1), Vec::<(i32, i32)>::new());
}

#[test]
fn targets_on_a_grid_without_tiles_are_none() {
    assert_eq!(compute_targets((0, 0), 0), Vec::<(i32, i32)>::new());
    assert_eq!(compute_targets((2, 2), -4), Vec::<(i32, i32)>::new());
}

#[test]
fn targets_from_the_ends_of_the_integers_do_not_wrap() {
    assert_eq!(
        compute_targets((i32::MAX, i32::MAX), i32::MAX),
        vec![(i32::MAX - 1, i32::MAX - 1)]
    );
    assert_eq!(compute_targets((i32::MIN, i32::MIN), 7), Vec::<(i32, i32)>::new());
    assert_eq!(
        compute_targets((i32::MAX - 1, 0), i32::MAX),
        vec![
            (i32::MAX - 3, 0),
            (i32::MAX - 2, 0),
            (i32::MAX - 2, 1),
            (i32::MAX - 1, 1),
            (i32::MAX - 1, 2),
        ]
    );
}

#[test]
fn targets_match_the_offsets_within_the_grid_for_every_origin() {
    for n in 1..=8 {
        for ox in 0..n {
            for oy in 0..n {
                let found = compute_targets((ox, oy), n);
                let mut expected: Vec<(i32, i32)> = Vec::new();
                for (dx, dy) in OFFSETS {
                    let (x, y) = (ox + dx, oy + dy);
                    if 0 <= x && x < n && 0 <= y && y < n {
                        expected.push((x, y));
                    }
                }
                assert_eq!(found, expected);
                for (i, p) in found.iter().enumerate() {
                    assert!(0 <= p.0 && p.0 < n && 0 <= p.1 && p.1 < n);
                    assert!(!found[..i].contains(p));
                    assert_ne!(*p, (ox, oy));
                }
            }
        }
    }
}

#[test]
fn a_target_is_valid_exactly_when_it_was_computed() {
    let n = 5;
    for ox in 0..n {
        for oy in 0..n {
            let found = compute_targets((ox, oy), n);
            for x in -3..n + 3 {
                for y in -3..n + 3 {
                    let reachable = 0 <= x
                        && x < n
                        && 0 <= y
                        && y < n
                        && OFFSETS.iter().any(|d| (ox + d.0, oy + d.1) == (x, y));
                    assert_eq!(is_valid_target(&found, (x, y)), reachable);
                }
            }
        }
    }
}

#[test]
fn no_target_is_valid_against_an_empty_list() {
    let none: Vec<(i32, i32)> = Vec::new();
    assert!(!is_valid_target(&none, (0, 0)));
}

#[test]
fn validity_is_plain_membership() {
    let listed = vec![(4, 4), (0, 1), (4, 4)];
    assert!(is_valid_target(&listed, (4, 4)));
    assert!(is_valid_target(&listed, (0, 1)));
    assert!(!is_valid_target(&listed, (1, 0)));
}
