//! Which tiles a Move card lets the player reach.

use vstd::prelude::*;

verus! {

/// A grid coordinate as the rules see it: column, then row.
pub type Point = (int, int);

/// The twelve relative steps of a Move card, in table order.
pub open spec fn neighbor_offsets() -> Seq<Point> {
    seq![
        (0int, -2int),
        (-1int, -1int),
        (0int, -1int),
        (1int, -1int),
        (-2int, 0int),
        (-1int, 0int),
        (1int, 0int),
        (2int, 0int),
        (-1int, 1int),
        (0int, 1int),
        (1int, 1int),
        (0int, 2int),
    ]
}

/// Both components lie in `[0, n)`.
pub open spec fn in_grid(p: Point, n: int) -> bool {
    0 <= p.0 < n && 0 <= p.1 < n
}

/// The tile reached from `origin` by the step `d`.
pub open spec fn shifted(origin: Point, d: Point) -> Point {
    (origin.0 + d.0, origin.1 + d.1)
}

/// The tile that the step `d` reaches, if it lies on a grid of side `n`.
pub open spec fn landing(origin: Point, n: int, d: Point) -> Option<Point> {
    if in_grid(shifted(origin, d), n) {
        Some(shifted(origin, d))
    } else {
        None
    }
}

/// The destinations of a move from `origin` on a grid of side `n`, in the
/// order of the offset table.
pub open spec fn targets(origin: Point, n: int) -> Seq<Point> {
    neighbor_offsets().filter_map(|d: Point| landing(origin, n, d))
}

/// The same destinations as a set: every tile of the grid that one of the
/// twelve steps reaches from `origin`.
pub open spec fn target_set(origin: Point, n: int) -> Set<Point> {
    Set::new(
        |p: Point|
            in_grid(p, n) && exists|k: int|
                0 <= k < 12 && p == shifted(origin, #[trigger] neighbor_offsets()[k]),
    )
}

/// A coordinate held in machine integers, read as a point.
pub open spec fn as_point(p: (i32, i32)) -> Point {
    (p.0 as int, p.1 as int)
}

/// A list of coordinates held in machine integers, read as points.
pub open spec fn as_points(s: Seq<(i32, i32)>) -> Seq<Point> {
    s.map_values(|p: (i32, i32)| as_point(p))
}

/// The `k`-th step of the offset table.
pub fn neighbor(k: usize) -> (d: (i32, i32))
    requires
        k < 12,
    ensures
        as_point(d) == neighbor_offsets()[k as int],
{
    let table: [(i32, i32); 12] = [
        (0, -2),
        (-1, -1),
        (0, -1),
        (1, -1),
        (-2, 0),
        (-1, 0),
        (1, 0),
        (2, 0),
        (-1, 1),
        (0, 1),
        (1, 1),
        (0, 2),
    ];
    table[k]
}

/// A tile is a destination exactly when it lies on the grid and one of the
/// twelve steps reaches it from the origin; no destination is listed twice.
pub proof fn lemma_targets_are_reachable_tiles(origin: Point, n: int)
    ensures
        targets(origin, n).to_set() == target_set(origin, n),
        targets(origin, n).no_duplicates(),
        forall|p: Point| #[trigger] targets(origin, n).contains(p) ==> in_grid(p, n),
{
    let offs = neighbor_offsets();
    let f = |d: Point| landing(origin, n, d);
    assert forall|p: Point| #[trigger] targets(origin, n).contains(p) implies target_set(
        origin,
        n,
    ).contains(p) by {
        offs.lemma_filter_map_contains(f, p);
        let d = choose|d: Point| #[trigger] offs.contains(d) && f(d) == Some(p);
        let k = choose|k: int| 0 <= k < offs.len() && offs[k] == d;
    }
    assert forall|p: Point| target_set(origin, n).contains(p) implies #[trigger] targets(
        origin,
        n,
    ).contains(p) by {
        let k = choose|k: int| 0 <= k < 12 && p == shifted(origin, #[trigger] neighbor_offsets()[k]);
        lemma_prefix_holds_landing(origin, n, 12, k);
        assert(offs.take(12) =~= offs);
    }
    lemma_prefix_distinct(origin, n, 12);
}

/// The destinations gathered from the first `len` steps of the table.
spec fn gathered(origin: Point, n: int, len: int) -> Seq<Point> {
    neighbor_offsets().take(len).filter_map(|d: Point| landing(origin, n, d))
}

/// A step among the first `len` of the table that lands on the grid has its
/// tile among the destinations gathered from those steps.
proof fn lemma_prefix_holds_landing(origin: Point, n: int, len: int, k: int)
    requires
        0 <= k < len <= 12,
        in_grid(shifted(origin, neighbor_offsets()[k]), n),
    ensures
        gathered(origin, n, len).contains(shifted(origin, neighbor_offsets()[k])),
    decreases len,
{
    let offs = neighbor_offsets();
    let f = |d: Point| landing(origin, n, d);
    let p = shifted(origin, offs[k]);
    offs.lemma_filter_map_take_succ(f, len - 1);
    let before = offs.take(len - 1).filter_map(f);
    if k == len - 1 {
        let all = before + seq![p];
        assert(all[before.len() as int] == p);
    } else {
        lemma_prefix_holds_landing(origin, n, len - 1, k);
        let i = choose|i: int| 0 <= i < before.len() && before[i] == p;
        let tail = match f(offs[len - 1]) {
            Some(s) => seq![s],
            None => Seq::empty(),
        };
        assert((before + tail)[i] == p);
    }
}

/// The destinations gathered from the first `len` steps are pairwise
/// distinct, and each comes from one of those steps.
proof fn lemma_prefix_distinct(origin: Point, n: int, len: int)
    requires
        0 <= len <= 12,
    ensures
        gathered(origin, n, len).no_duplicates(),
        forall|p: Point| #[trigger]
            gathered(origin, n, len).contains(p) ==> in_grid(p, n) && exists|k: int|
                0 <= k < len && p == shifted(origin, #[trigger] neighbor_offsets()[k]),
    decreases len,
{
    let offs = neighbor_offsets();
    let f = |d: Point| landing(origin, n, d);
    if len > 0 {
        lemma_prefix_distinct(origin, n, len - 1);
        offs.lemma_filter_map_take_succ(f, len - 1);
        let before = offs.take(len - 1).filter_map(f);
        let now = offs.take(len).filter_map(f);
        let last = shifted(origin, offs[len - 1]);
        if in_grid(last, n) {
            if before.contains(last) {
                // an earlier step would reach the same tile: no two steps of the table agree
                let k = choose|k: int|
                    0 <= k < len - 1 && last == shifted(origin, #[trigger] neighbor_offsets()[k]);
                assert(offs[k] == offs[len - 1]);
            }
            assert forall|p: Point| #[trigger] now.contains(p) implies in_grid(p, n) && exists|
                k: int,
            |
                0 <= k < len && p == shifted(origin, #[trigger] neighbor_offsets()[k]) by {
                if p != last {
                    let i = choose|i: int| 0 <= i < now.len() && now[i] == p;
                    assert(before.contains(p));
                }
            }
        }
    }
}

/// The tiles that a move from `origin` may end on, on a grid of side
/// `grid_size`: `origin` plus each of the twelve steps, kept where both
/// components lie in `[0, grid_size)`.
pub fn compute_targets(origin: (i32, i32), grid_size: i32) -> (found: Vec<(i32, i32)>)
    ensures
        as_points(found@) == targets(as_point(origin), grid_size as int),
        as_points(found@).to_set() == target_set(as_point(origin), grid_size as int),
        found@.no_duplicates(),
        forall|i: int| 0 <= i < found@.len() ==> in_grid(as_point(#[trigger] found@[i]), grid_size as int),
{
    let mut found: Vec<(i32, i32)> = Vec::new();
    let ghost offs = neighbor_offsets();
    let ghost f = |d: Point| landing(as_point(origin), grid_size as int, d);
    let mut k: usize = 0;
    while k < 12
        invariant
            k <= 12,
            offs == neighbor_offsets(),
            f == |d: Point| landing(as_point(origin), grid_size as int, d),
            as_points(found@) == offs.take(k as int).filter_map(f),
        decreases 12 - k,
    {
        let d = neighbor(k);
        let x: i64 = origin.0 as i64 + d.0 as i64;
        let y: i64 = origin.1 as i64 + d.1 as i64;
        proof {
            offs.lemma_filter_map_take_succ(f, k as int);
        }
        if 0 <= x && x < grid_size as i64 && 0 <= y && y < grid_size as i64 {
            found.push((x as i32, y as i32));
        }
        k = k + 1;
    }
    proof {
        assert(offs.take(12) =~= offs);
        lemma_targets_are_reachable_tiles(as_point(origin), grid_size as int);
        let pts = as_points(found@);
        assert forall|i: int, j: int|
            0 <= i < found@.len() && 0 <= j < found@.len() && i != j implies found@[i]
            != found@[j] by {
            assert(pts[i] == as_point(found@[i]));
            assert(pts[j] == as_point(found@[j]));
        }
        assert forall|i: int| 0 <= i < found@.len() implies in_grid(
            as_point(#[trigger] found@[i]),
            grid_size as int,
        ) by {
            assert(pts.contains(pts[i]));
        }
    }
    found
}

/// Whether `candidate` is one of `targets`.
pub fn is_valid_target(targets: &Vec<(i32, i32)>, candidate: (i32, i32)) -> (valid: bool)
    ensures
        valid == targets@.contains(candidate),
{
    let mut i: usize = 0;
    while i < targets.len()
        invariant
            i <= targets@.len(),
            forall|j: int| 0 <= j < i ==> targets@[j] != candidate,
        decreases targets@.len() - i,
    {
        let t = targets[i];
        if t.0 == candidate.0 && t.1 == candidate.1 {
            return true;
        }
        i = i + 1;
    }
    false
}

/// Reading coordinates as points keeps membership: a list holds a coordinate
/// exactly when its points hold that coordinate's point.
pub proof fn lemma_points_contain(s: Seq<(i32, i32)>, c: (i32, i32))
    ensures
        as_points(s).contains(as_point(c)) <==> s.contains(c),
{
    if s.contains(c) {
        let i = choose|i: int| 0 <= i < s.len() && s[i] == c;
        assert(as_points(s)[i] == as_point(c));
    }
    if as_points(s).contains(as_point(c)) {
        let i = choose|i: int| 0 <= i < as_points(s).len() && as_points(s)[i] == as_point(c);
    }
}

/// Against the destinations computed for an origin, a candidate is valid
/// exactly when it is a tile of the grid that one of the twelve steps reaches
/// from that origin.
pub proof fn lemma_valid_iff_reachable(
    found: Seq<(i32, i32)>,
    origin: (i32, i32),
    grid_size: i32,
    candidate: (i32, i32),
)
    requires
        as_points(found) == targets(as_point(origin), grid_size as int),
    ensures
        found.contains(candidate) <==> target_set(as_point(origin), grid_size as int).contains(
            as_point(candidate),
        ),
{
    lemma_points_contain(found, candidate);
    lemma_targets_are_reachable_tiles(as_point(origin), grid_size as int);
}

} // verus!
