use vstd::prelude::*;

use std::collections::{HashMap, HashSet, VecDeque};
use vstd::std_specs::iter::IteratorSpec;

use crate::math::{fits_i32, int_abs, ivec, spec_manhattan, IVec2};

verus! {

broadcast use vstd::std_specs::hash::group_hash_axioms;

/// The offset that maps an `i32` coordinate onto `0 .. 2^32`.
pub open spec fn coord_offset() -> int {
    0x8000_0000
}

/// The integer that keys a cell in the grid's table: the two coordinates,
/// shifted to be non-negative, as the high and low halves of a `u64`.
pub open spec fn cell_key(p: IVec2) -> u64 {
    ((p.x + coord_offset()) * 0x1_0000_0000 + (p.y + coord_offset())) as u64
}

/// The cell that a key stands for.
pub open spec fn key_cell(k: u64) -> IVec2 {
    ivec(k / 0x1_0000_0000 - coord_offset(), k % 0x1_0000_0000 - coord_offset())
}

/// Keys and cells correspond one to one.
pub proof fn lemma_cell_key_bijective(p: IVec2, q: IVec2, k: u64)
    ensures
        (cell_key(p) == cell_key(q)) <==> (p == q),
        key_cell(cell_key(p)) == p,
        cell_key(key_cell(k)) == k,
{
    let a = p.x + coord_offset();
    let b = p.y + coord_offset();
    assert(0 <= a < 0x1_0000_0000 && 0 <= b < 0x1_0000_0000);
    assert((a * 0x1_0000_0000 + b) / 0x1_0000_0000 == a);
    assert((a * 0x1_0000_0000 + b) % 0x1_0000_0000 == b);
    let c = q.x + coord_offset();
    let d = q.y + coord_offset();
    assert((c * 0x1_0000_0000 + d) / 0x1_0000_0000 == c);
    assert((c * 0x1_0000_0000 + d) % 0x1_0000_0000 == d);
    assert(k == (k / 0x1_0000_0000) * 0x1_0000_0000 + k % 0x1_0000_0000);
}

/// The key of a cell.
fn key_of(p: IVec2) -> (k: u64)
    ensures
        k == cell_key(p),
{
    let hi: u64 = ((p.x as i64) + 0x8000_0000) as u64;
    let lo: u64 = ((p.y as i64) + 0x8000_0000) as u64;
    assert(hi * 0x1_0000_0000 + lo <= u64::MAX) by (nonlinear_arith)
        requires
            hi < 0x1_0000_0000,
            lo < 0x1_0000_0000,
    ;
    hi * 0x1_0000_0000 + lo
}

/// The cells that a table keyed by `cell_key` stands for.
pub closed spec fn table_view<W>(m: Map<u64, W>) -> Map<IVec2, W> {
    Map::new(|p: IVec2| m.contains_key(cell_key(p)), |p: IVec2| m[cell_key(p)])
}

/// Putting a value under a cell's key puts it in the cell.
proof fn lemma_table_view_insert<W>(m: Map<u64, W>, p: IVec2, w: W)
    ensures
        table_view(m.insert(cell_key(p), w)) == table_view(m).insert(p, w),
{
    assert forall|q: IVec2| #![auto] table_view(m.insert(cell_key(p), w)).contains_key(q)
        == table_view(m).insert(p, w).contains_key(q) by {
        lemma_cell_key_bijective(p, q, cell_key(p));
    }
    assert forall|q: IVec2| #![auto] table_view(m.insert(cell_key(p), w)).contains_key(q)
        implies table_view(m.insert(cell_key(p), w))[q] == table_view(m).insert(p, w)[q] by {
        lemma_cell_key_bijective(p, q, cell_key(p));
    }
    assert(table_view(m.insert(cell_key(p), w)) =~= table_view(m).insert(p, w));
}

/// Removing a cell's key empties the cell.
proof fn lemma_table_view_remove<W>(m: Map<u64, W>, p: IVec2)
    ensures
        table_view(m.remove(cell_key(p))) == table_view(m).remove(p),
{
    assert forall|q: IVec2| #![auto] table_view(m.remove(cell_key(p))).contains_key(q)
        == table_view(m).remove(p).contains_key(q) by {
        lemma_cell_key_bijective(p, q, cell_key(p));
    }
    assert(table_view(m.remove(cell_key(p))) =~= table_view(m).remove(p));
}

/// A cell holds what its key maps to.
proof fn lemma_table_view_get<W>(m: Map<u64, W>, p: IVec2)
    ensures
        table_view(m).contains_key(p) == m.contains_key(cell_key(p)),
        m.contains_key(cell_key(p)) ==> table_view(m)[p] == m[cell_key(p)],
{
}

/// Decodes a key into its cell.
fn cell_of(k: u64) -> (p: IVec2)
    ensures
        p == key_cell(k),
{
    let hi: i64 = (k / 0x1_0000_0000) as i64;
    let lo: i64 = (k % 0x1_0000_0000) as i64;
    IVec2 { x: (hi - 0x8000_0000) as i32, y: (lo - 0x8000_0000) as i32 }
}

/// The x step of the `i`-th direction of the search: right, up, left, down
/// (with y growing downwards).
pub open spec fn search_dx(i: int) -> int {
    if i == 0 {
        1
    } else if i == 2 {
        -1
    } else {
        0
    }
}

/// The y step of the `i`-th direction of the search.
pub open spec fn search_dy(i: int) -> int {
    if i == 1 {
        -1
    } else if i == 3 {
        1
    } else {
        0
    }
}

/// The neighbour of `p` in the `i`-th direction of the search.
pub open spec fn search_step(p: IVec2, i: int) -> IVec2 {
    ivec(p.x + search_dx(i), p.y + search_dy(i))
}

/// Whether the four neighbours of `p` have `i32` coordinates.
pub open spec fn neighbours_fit(p: IVec2) -> bool {
    fits_i32(p.x - 1) && fits_i32(p.x + 1) && fits_i32(p.y - 1) && fits_i32(p.y + 1)
}

/// The queue and the seen cells of the search after the neighbours of `p`
/// in its first `i` directions were offered to them: a neighbour not seen
/// yet is marked seen and joins the back of the queue.
pub open spec fn offer_neighbours(queue: Seq<IVec2>, seen: Set<IVec2>, p: IVec2, i: nat) -> (Seq<IVec2>, Set<IVec2>)
    decreases i,
{
    if i == 0 {
        (queue, seen)
    } else {
        let before = offer_neighbours(queue, seen, p, (i - 1) as nat);
        let next = search_step(p, i - 1);
        if before.1.contains(next) {
            before
        } else {
            (before.0.push(next), before.1.insert(next))
        }
    }
}

/// The first empty cell that a breadth-first search over the `occupied`
/// cells takes from the front of its queue, if it does so while taking at
/// most `steps` occupied cells; each occupied cell taken offers its
/// neighbours to the queue.
pub open spec fn search_from(occupied: Set<IVec2>, queue: Seq<IVec2>, seen: Set<IVec2>, steps: nat) -> Option<IVec2>
    decreases steps,
{
    if steps == 0 || queue.len() == 0 {
        None
    } else if !occupied.contains(queue[0]) {
        Some(queue[0])
    } else {
        let next = offer_neighbours(queue.drop_first(), seen, queue[0], 4);
        search_from(occupied, next.0, next.1, (steps - 1) as nat)
    }
}

/// Whether every occupied cell that the search of `search_from` takes has
/// neighbours with `i32` coordinates.
pub open spec fn search_fits(occupied: Set<IVec2>, queue: Seq<IVec2>, seen: Set<IVec2>, steps: nat) -> bool
    decreases steps,
{
    if steps == 0 || queue.len() == 0 || !occupied.contains(queue[0]) {
        true
    } else {
        let next = offer_neighbours(queue.drop_first(), seen, queue[0], 4);
        neighbours_fit(queue[0]) && search_fits(occupied, next.0, next.1, (steps - 1) as nat)
    }
}

/// The empty cell that the search from `start` finds. It takes each
/// occupied cell at most once, so `occupied.len() + 1` steps are enough.
pub open spec fn nearest_empty(occupied: Set<IVec2>, start: IVec2) -> Option<IVec2> {
    search_from(occupied, seq![start], set![start], (occupied.len() + 1) as nat)
}

/// Whether the search from `start` computes every neighbour it offers
/// without overflow.
pub open spec fn nearest_empty_fits(occupied: Set<IVec2>, start: IVec2) -> bool {
    search_fits(occupied, seq![start], set![start], (occupied.len() + 1) as nat)
}

/// A search that starts on an empty cell finds that cell at once.
pub proof fn lemma_empty_start_is_found(occupied: Set<IVec2>, start: IVec2)
    requires
        !occupied.contains(start),
    ensures
        nearest_empty_fits(occupied, start),
        nearest_empty(occupied, start) == Some(start),
{
}

/// Whether the cells within Manhattan distance `r` of `s` all have `i32`
/// coordinates.
pub open spec fn radius_fits(s: IVec2, r: int) -> bool {
    fits_i32(s.x - r) && fits_i32(s.x + r) && fits_i32(s.y - r) && fits_i32(s.y + r)
}

/// The search from `start` computes every neighbour it offers without
/// overflow when `start` is at least as many cells from the `i32` bounds as
/// there are occupied cells.
pub proof fn lemma_nearest_empty_fits_far_from_edges(occupied: Set<IVec2>, start: IVec2)
    requires
        occupied.finite(),
        radius_fits(start, occupied.len() as int),
    ensures
        nearest_empty_fits(occupied, start),
{
    let popped = Set::<IVec2>::empty();
    assert(seq![start].no_duplicates());
    lemma_search_fits_near(occupied, start, seq![start], set![start], popped, (occupied.len() + 1) as nat);
}

/// The search's queue holds each cell once, each seen and not yet taken,
/// each at most `k` from `start`; every taken cell is seen.
spec fn queue_ok(queue: Seq<IVec2>, seen: Set<IVec2>, popped: Set<IVec2>, start: IVec2, k: int) -> bool {
    &&& queue.no_duplicates()
    &&& forall|i: int| 0 <= i < queue.len() ==> seen.contains(#[trigger] queue[i]) && !popped.contains(queue[i])
        && spec_manhattan(queue[i], start) <= k
    &&& forall|x: IVec2| #[trigger] popped.contains(x) ==> seen.contains(x)
}

/// Offering the neighbours of a cell at most `k - 1` from `start` keeps the
/// queue as `queue_ok` says.
proof fn lemma_offer_keeps(queue: Seq<IVec2>, seen: Set<IVec2>, popped: Set<IVec2>, start: IVec2, p: IVec2, i: nat, k: int)
    requires
        i <= 4,
        neighbours_fit(p),
        spec_manhattan(p, start) + 1 <= k,
        queue_ok(queue, seen, popped, start, k),
    ensures
        queue_ok(offer_neighbours(queue, seen, p, i).0, offer_neighbours(queue, seen, p, i).1, popped, start, k),
        forall|x: IVec2| #[trigger] seen.contains(x) ==> offer_neighbours(queue, seen, p, i).1.contains(x),
    decreases i,
{
    if i > 0 {
        lemma_offer_keeps(queue, seen, popped, start, p, (i - 1) as nat, k);
        let before = offer_neighbours(queue, seen, p, (i - 1) as nat);
        let next = search_step(p, i - 1);
        lemma_step_distance(p, start, i - 1);
        if !before.1.contains(next) {
            let q2 = before.0.push(next);
            let s2 = before.1.insert(next);
            assert forall|a: int| 0 <= a < q2.len() implies s2.contains(#[trigger] q2[a]) && !popped.contains(q2[a])
                && spec_manhattan(q2[a], start) <= k by {
                if a < before.0.len() {
                    assert(q2[a] == before.0[a]);
                }
            }
            assert forall|a: int, b: int| 0 <= a < b < q2.len() implies q2[a] != q2[b] by {
                if b == q2.len() - 1 {
                    assert(before.1.contains(before.0[a]));
                } else {
                    assert(q2[a] == before.0[a] && q2[b] == before.0[b]);
                }
            }
            assert(q2.no_duplicates());
        }
    }
}

/// The search never takes a cell farther from `start` than the number of
/// cells it has taken before, so far from the edges it computes every
/// neighbour without overflow.
proof fn lemma_search_fits_near(
    occupied: Set<IVec2>,
    start: IVec2,
    queue: Seq<IVec2>,
    seen: Set<IVec2>,
    popped: Set<IVec2>,
    steps: nat,
)
    requires
        occupied.finite(),
        radius_fits(start, occupied.len() as int),
        popped.finite(),
        forall|x: IVec2| #[trigger] popped.contains(x) ==> occupied.contains(x),
        queue_ok(queue, seen, popped, start, popped.len() as int),
    ensures
        search_fits(occupied, queue, seen, steps),
    decreases steps,
{
    if steps > 0 && queue.len() > 0 && occupied.contains(queue[0]) {
        let q = queue[0];
        assert(seen.contains(queue[0]) && !popped.contains(queue[0]));
        let popped2 = popped.insert(q);
        vstd::set_lib::lemma_len_subset(popped2, occupied);
        assert(popped2.len() == popped.len() + 1);
        assert(neighbours_fit(q));
        let rest = queue.drop_first();
        assert forall|a: int| 0 <= a < rest.len() implies seen.contains(#[trigger] rest[a]) && !popped2.contains(rest[a])
            && spec_manhattan(rest[a], start) <= popped2.len() by {
            assert(rest[a] == queue[a + 1]);
            assert(queue[a + 1] != queue[0]);
        }
        assert forall|a: int, b: int| 0 <= a < b < rest.len() implies rest[a] != rest[b] by {
            assert(rest[a] == queue[a + 1] && rest[b] == queue[b + 1]);
        }
        assert(queue_ok(rest, seen, popped2, start, popped2.len() as int));
        lemma_offer_keeps(rest, seen, popped2, start, q, 4, popped2.len() as int);
        let next = offer_neighbours(rest, seen, q, 4);
        lemma_search_fits_near(occupied, start, next.0, next.1, popped2, (steps - 1) as nat);
    }
}

/// A step from a cell whose neighbours fit changes its distance to `s` by
/// exactly one.
proof fn lemma_step_distance(p: IVec2, s: IVec2, i: int)
    requires
        0 <= i < 4,
        neighbours_fit(p),
    ensures
        search_step(p, i).x == p.x + search_dx(i),
        search_step(p, i).y == p.y + search_dy(i),
        spec_manhattan(search_step(p, i), s) == spec_manhattan(p, s) + 1
            || spec_manhattan(search_step(p, i), s) == spec_manhattan(p, s) - 1,
{
}

/// Every cell but `s` is one step away from a cell nearer to `s`.
proof fn lemma_step_from_nearer(p: IVec2, s: IVec2) -> (qi: (IVec2, int))
    requires
        p != s,
    ensures
        0 <= qi.1 < 4,
        spec_manhattan(qi.0, s) == spec_manhattan(p, s) - 1,
        search_step(qi.0, qi.1) == p,
{
    if p.x > s.x {
        (ivec(p.x - 1, p.y as int), 0)
    } else if p.x < s.x {
        (ivec(p.x + 1, p.y as int), 2)
    } else if p.y > s.y {
        (ivec(p.x as int, p.y - 1), 3)
    } else {
        (ivec(p.x as int, p.y + 1), 1)
    }
}

/// A set holding the `d` cells to the right of `s` (itself included) has at
/// least `d` elements.
proof fn lemma_ray_count(cells: Set<IVec2>, s: IVec2, d: int)
    requires
        cells.finite(),
        0 <= d,
        fits_i32(s.x + d),
        forall|j: int| 0 <= j < d ==> cells.contains(#[trigger] ivec(s.x + j, s.y as int)),
    ensures
        d <= cells.len(),
{
    let r = vstd::set_lib::set_int_range(0, d);
    vstd::set_lib::lemma_int_range(0, d);
    let f = |j: int| ivec(s.x + j, s.y as int);
    assert forall|a: int, b: int| r.contains(a) && r.contains(b) && f(a) == f(b) implies a == b by {
        assert(f(a).x == s.x + a);
        assert(f(b).x == s.x + b);
    }
    assert(vstd::relations::injective_on(f, r));
    vstd::set_lib::lemma_map_size(r, r.map(f), f);
    assert forall|c: IVec2| r.map(f).contains(c) implies cells.contains(c) by {
        let j = choose|j: int| r.contains(j) && f(j) == c;
        assert(cells.contains(ivec(s.x + j, s.y as int)));
    }
    vstd::set_lib::lemma_len_subset(r.map(f), cells);
}

/// The cell `j` steps along a shortest path from `s` to `r` that first
/// goes along x, then along y.
spec fn path_cell(s: IVec2, r: IVec2, j: int) -> IVec2 {
    let ax = int_abs(r.x - s.x);
    if j <= ax {
        ivec(if r.x >= s.x { s.x + j } else { s.x - j }, s.y as int)
    } else {
        ivec(r.x as int, if r.y >= s.y { s.y + (j - ax) } else { s.y - (j - ax) })
    }
}

/// A set holding every cell nearer to `s` than `r` has at least as many
/// elements as `r` is far from `s`.
proof fn lemma_nearer_count(cells: Set<IVec2>, s: IVec2, r: IVec2)
    requires
        cells.finite(),
        forall|p: IVec2| spec_manhattan(p, s) < spec_manhattan(r, s) ==> #[trigger] cells.contains(p),
    ensures
        spec_manhattan(r, s) <= cells.len(),
{
    let d = spec_manhattan(r, s);
    let range = vstd::set_lib::set_int_range(0, d);
    vstd::set_lib::lemma_int_range(0, d);
    let f = |j: int| path_cell(s, r, j);
    assert forall|j: int| 0 <= j < d implies #[trigger] spec_manhattan(f(j), s) == j by {
        let ax = int_abs(r.x - s.x);
        if j <= ax {
            assert(f(j).x == (if r.x >= s.x { s.x + j } else { s.x - j }));
            assert(f(j).y == s.y);
        } else {
            assert(f(j).x == r.x);
            assert(f(j).y == (if r.y >= s.y { s.y + (j - ax) } else { s.y - (j - ax) }));
        }
    }
    assert forall|a: int, b: int| range.contains(a) && range.contains(b) && f(a) == f(b) implies a == b by {
        assert(spec_manhattan(f(a), s) == a);
        assert(spec_manhattan(f(b), s) == b);
    }
    assert(vstd::relations::injective_on(f, range));
    vstd::set_lib::lemma_map_size(range, range.map(f), f);
    assert forall|c: IVec2| range.map(f).contains(c) implies cells.contains(c) by {
        let j = choose|j: int| range.contains(j) && f(j) == c;
        assert(spec_manhattan(f(j), s) == j);
    }
    vstd::set_lib::lemma_len_subset(range.map(f), cells);
}

/// When the search has no cell left to try, the cells right of `start`
/// have all been taken, and their coordinates fit.
proof fn lemma_bfs_ray(start: IVec2, popped: Set<IVec2>, seen: Set<IVec2>, j: int)
    requires
        0 <= j,
        forall|p: IVec2| #[trigger] seen.contains(p) ==> popped.contains(p),
        forall|p: IVec2| #[trigger] popped.contains(p) ==> neighbours_fit(p),
        forall|p: IVec2, i: int| #[trigger] popped.contains(p) && 0 <= i < 4 ==> seen.contains(#[trigger] search_step(p, i)),
        seen.contains(start),
    ensures
        popped.contains(ivec(start.x + j, start.y as int)),
        fits_i32(start.x + j),
    decreases j,
{
    if j == 0 {
        assert(ivec(start.x + 0, start.y as int) == start);
    } else {
        lemma_bfs_ray(start, popped, seen, j - 1);
        let prev = ivec(start.x + j - 1, start.y as int);
        assert(neighbours_fit(prev));
        assert(search_step(prev, 0) == ivec(start.x + j, start.y as int));
        assert(seen.contains(search_step(prev, 0)));
    }
}

/// Once a layer of the search is done, every cell at that distance has
/// been taken.
proof fn lemma_bfs_layer(
    start: IVec2,
    popped: Set<IVec2>,
    seen: Set<IVec2>,
    queue: Seq<IVec2>,
    curr: IVec2,
    d0: int,
    p: IVec2,
)
    requires
        queue.len() > 0,
        spec_manhattan(p, start) == d0,
        spec_manhattan(queue[0], start) == d0 + 1,
        popped.contains(curr),
        forall|a: int, b: int| 0 <= a <= b < queue.len()
            ==> spec_manhattan(#[trigger] queue[a], start) <= spec_manhattan(#[trigger] queue[b], start),
        forall|q: IVec2| #[trigger] seen.contains(q) ==> popped.contains(q) || queue.contains(q),
        forall|q: IVec2| spec_manhattan(q, start) < d0 ==> #[trigger] popped.contains(q),
        forall|q: IVec2, j: int| #[trigger] popped.contains(q) && 0 <= j < 4 ==> seen.contains(#[trigger] search_step(q, j)),
        seen.contains(start),
    ensures
        popped.contains(p),
{
    if p == start {
        assert(seen.contains(p));
    } else {
        let (q, j) = lemma_step_from_nearer(p, start);
        assert(popped.contains(q));
        assert(seen.contains(search_step(q, j)));
        assert(seen.contains(p));
    }
    if queue.contains(p) {
        let a = choose|a: int| 0 <= a < queue.len() && queue[a] == p;
        assert(spec_manhattan(queue[0], start) <= spec_manhattan(queue[a], start));
    }
}

/// The windows of the workspace, each in a cell of an unbounded grid.
pub struct Grid<W> {
    cells: HashMap<u64, W>,
}

impl<W> View for Grid<W> {
    type V = Map<IVec2, W>;

    /// The window in each occupied cell.
    closed spec fn view(&self) -> Map<IVec2, W> {
        table_view(self.cells@)
    }
}

/// The cells of `m` with the contents of `a` and `b` exchanged, an empty
/// cell counting as a content of its own.
pub open spec fn swapped<W>(m: Map<IVec2, W>, a: IVec2, b: IVec2) -> Map<IVec2, W> {
    if a == b {
        m
    } else {
        let without = m.remove(a).remove(b);
        let with_b = if m.contains_key(a) { without.insert(b, m[a]) } else { without };
        if m.contains_key(b) { with_b.insert(a, m[b]) } else { with_b }
    }
}

/// A cell holds the window last put in it, and putting a window in a cell
/// leaves every other cell as it was.
pub proof fn lemma_get_after_insert<W>(m: Map<IVec2, W>, p: IVec2, w: W, q: IVec2)
    ensures
        m.insert(p, w).contains_key(p),
        m.insert(p, w)[p] == w,
        q != p ==> (m.insert(p, w).contains_key(q) == m.contains_key(q)),
        q != p && m.contains_key(q) ==> m.insert(p, w)[q] == m[q],
{
}

/// Swapping the same two cells twice restores the grid.
pub proof fn lemma_swap_twice<W>(m: Map<IVec2, W>, a: IVec2, b: IVec2)
    ensures
        swapped(swapped(m, a, b), a, b) == m,
{
    assert(swapped(swapped(m, a, b), a, b) =~= m);
}

/// Swapping `a` with `b` is swapping `b` with `a`.
pub proof fn lemma_swap_symmetric<W>(m: Map<IVec2, W>, a: IVec2, b: IVec2)
    ensures
        swapped(m, a, b) == swapped(m, b, a),
{
    assert(swapped(m, a, b) =~= swapped(m, b, a));
}

/// Swapping keeps the number of windows and moves no other cell.
pub proof fn lemma_swap_keeps_others<W>(m: Map<IVec2, W>, a: IVec2, b: IVec2)
    requires
        m.dom().finite(),
    ensures
        swapped(m, a, b).dom().finite(),
        swapped(m, a, b).dom().len() == m.dom().len(),
        forall|p: IVec2| p != a && p != b ==> (#[trigger] swapped(m, a, b).contains_key(p) == m.contains_key(p)
            && (m.contains_key(p) ==> swapped(m, a, b)[p] == m[p])),
{
    if a != b {
        let without = m.remove(a).remove(b);
        assert(without.dom().finite());
        if m.contains_key(a) && m.contains_key(b) {
            assert(swapped(m, a, b).dom() =~= without.dom().insert(b).insert(a));
            assert(m.dom() =~= without.dom().insert(a).insert(b));
        } else if m.contains_key(a) {
            assert(swapped(m, a, b).dom() =~= without.dom().insert(b));
            assert(m.dom() =~= without.dom().insert(a));
        } else if m.contains_key(b) {
            assert(swapped(m, a, b).dom() =~= without.dom().insert(a));
            assert(m.dom() =~= without.dom().insert(b));
        } else {
            assert(swapped(m, a, b).dom() =~= without.dom());
            assert(m.dom() =~= without.dom());
        }
    }
}

/// When the starting cell is empty, the nearest empty cell is the start.
pub proof fn lemma_nearest_empty_of_empty_start<W>(m: Map<IVec2, W>, start: IVec2, r: IVec2)
    requires
        !m.contains_key(start),
        !m.contains_key(r),
        forall|p: IVec2| spec_manhattan(p, start) < spec_manhattan(r, start) ==> #[trigger] m.contains_key(p),
    ensures
        r == start,
{
    if spec_manhattan(r, start) > 0 {
        assert(spec_manhattan(start, start) == 0);
        assert(m.contains_key(start));
    }
}

impl<W> Grid<W> {
    /// The occupied cells are finitely many, as many as the table holds.
    proof fn lemma_view_dom(&self)
        ensures
            self@.dom().finite(),
            self@.dom().len() == self.cells@.dom().len(),
            forall|p: IVec2| #[trigger] self@.contains_key(p) <==> self.cells@.contains_key(cell_key(p)),
    {
        let kdom = self.cells@.dom();
        assert(kdom.finite());
        assert forall|p: IVec2| #[trigger] self@.contains_key(p) <==> kdom.map(|k: u64| key_cell(k)).contains(p) by {
            lemma_cell_key_bijective(p, p, cell_key(p));
            if self@.contains_key(p) {
                assert(kdom.contains(cell_key(p)));
            }
            if kdom.map(|k: u64| key_cell(k)).contains(p) {
                let k = choose|k: u64| kdom.contains(k) && key_cell(k) == p;
                lemma_cell_key_bijective(p, p, k);
            }
        }
        assert(self@.dom() =~= kdom.map(|k: u64| key_cell(k)));
        assert forall|k1: u64, k2: u64| kdom.contains(k1) && kdom.contains(k2) && key_cell(k1) == key_cell(k2) implies k1 == k2 by {
            lemma_cell_key_bijective(key_cell(k1), key_cell(k2), k1);
            lemma_cell_key_bijective(key_cell(k1), key_cell(k2), k2);
        }
        vstd::set_lib::lemma_map_size(kdom, self@.dom(), |k: u64| key_cell(k));
    }

    /// The occupied cells are finitely many.
    pub proof fn lemma_finite(&self)
        ensures
            self@.dom().finite(),
    {
        self.lemma_view_dom();
    }

    /// The keys of all occupied cells, each once.
    fn keys(&self) -> (r: Vec<u64>)
        ensures
            r@.to_set() == self.cells@.dom(),
            r@.no_duplicates(),
    {
        let mut out: Vec<u64> = Vec::new();
        let ghost ks = vstd::std_specs::hash::spec_keys_iter(&self.cells).remaining();
        for k in it: self.cells.keys()
            invariant
                it.seq() == ks,
                out@.len() == it.index(),
                forall|j: int| 0 <= j < it.index() ==> out@[j] == *it.seq()[j],
        {
            out.push(*k);
        }
        proof {
            assert(out@ =~= ks.map_values(|r: &u64| *r));
            assert(ks.map_values(|r: &u64| *r) =~= ks.unref());
        }
        out
    }

    /// The occupied cells, each once, in no particular order.
    pub fn positions(&self) -> (r: Vec<IVec2>)
        ensures
            r@.to_set() == self@.dom(),
            r@.no_duplicates(),
    {
        let keys = self.keys();
        let mut out: Vec<IVec2> = Vec::new();
        for i in 0..keys.len()
            invariant
                out@ == keys@.take(i as int).map_values(|k: u64| key_cell(k)),
        {
            let p = cell_of(keys[i]);
            proof {
                assert(keys@.take(i + 1) =~= keys@.take(i as int).push(keys@[i as int]));
            }
            out.push(p);
        }
        proof {
            assert(keys@.take(keys@.len() as int) =~= keys@);
            assert forall|p: IVec2| #[trigger] out@.contains(p) <==> self@.contains_key(p) by {
                lemma_table_view_get(self.cells@, p);
                if out@.contains(p) {
                    let j = choose|j: int| 0 <= j < out@.len() && out@[j] == p;
                    lemma_cell_key_bijective(p, p, keys@[j]);
                    assert(keys@.to_set().contains(keys@[j]));
                }
                if self@.contains_key(p) {
                    assert(keys@.to_set().contains(cell_key(p)));
                    let j = choose|j: int| 0 <= j < keys@.len() && keys@[j] == cell_key(p);
                    lemma_cell_key_bijective(p, p, keys@[j]);
                    assert(out@[j] == p);
                }
            }
            assert(out@.to_set() =~= self@.dom());
            assert forall|a: int, b: int| 0 <= a < b < out@.len() implies out@[a] != out@[b] by {
                lemma_cell_key_bijective(out@[a], out@[b], keys@[a]);
                lemma_cell_key_bijective(out@[a], out@[b], keys@[b]);
            }
        }
        out
    }

    /// Removes every window for which `alive` answers `false`, keeping the
    /// others in their cells.
    pub fn cleanup<F>(&mut self, alive: F) where F: Fn(&W) -> bool
        requires
            forall|p: IVec2| #[trigger] old(self)@.contains_key(p) ==> alive.requires((&old(self)@[p],)),
        ensures
            forall|p: IVec2| #[trigger] final(self)@.contains_key(p) ==> old(self)@.contains_key(p)
                && final(self)@[p] == old(self)@[p] && alive.ensures((&old(self)@[p],), true),
            forall|p: IVec2| #[trigger] old(self)@.contains_key(p) && !final(self)@.contains_key(p)
                ==> alive.ensures((&old(self)@[p],), false),
    {
        let ghost old_cells = self.cells@;
        proof {
            assert forall|k: u64| #[trigger] old_cells.contains_key(k) implies alive.requires((&old_cells[k],)) by {
                let p = key_cell(k);
                lemma_cell_key_bijective(p, p, k);
                lemma_table_view_get(old_cells, p);
                assert(old(self)@.contains_key(p));
            }
        }
        let keys = self.keys();
        for i in 0..keys.len()
            invariant
                keys@.to_set() == old_cells.dom(),
                keys@.no_duplicates(),
                forall|k: u64| #[trigger] old_cells.contains_key(k) ==> alive.requires((&old_cells[k],)),
                forall|k: u64| #[trigger] self.cells@.contains_key(k) ==> old_cells.contains_key(k)
                    && self.cells@[k] == old_cells[k],
                forall|j: int| i <= j < keys@.len() ==> #[trigger] self.cells@.contains_key(keys@[j]),
                forall|j: int| 0 <= j < i && #[trigger] self.cells@.contains_key(keys@[j])
                    ==> alive.ensures((&old_cells[keys@[j]],), true),
                forall|j: int| 0 <= j < i && !#[trigger] self.cells@.contains_key(keys@[j])
                    ==> alive.ensures((&old_cells[keys@[j]],), false),
        {
            let k = keys[i];
            assert(keys@.to_set().contains(k));
            let keep = match self.cells.get(&k) {
                Some(w) => alive(w),
                None => true,
            };
            if !keep {
                self.cells.remove(&k);
            }
            assert forall|j: int| i < j < keys@.len() implies #[trigger] self.cells@.contains_key(keys@[j]) by {
                assert(keys@[j] != keys@[i as int]);
            }
        }
        proof {
            assert forall|p: IVec2| #[trigger] self@.contains_key(p) implies old(self)@.contains_key(p)
                && self@[p] == old(self)@[p] && alive.ensures((&old(self)@[p],), true) by {
                lemma_table_view_get(self.cells@, p);
                lemma_table_view_get(old_cells, p);
                assert(keys@.to_set().contains(cell_key(p)));
                let j = choose|j: int| 0 <= j < keys@.len() && keys@[j] == cell_key(p);
                assert(self.cells@.contains_key(keys@[j]));
            }
            assert forall|p: IVec2| #[trigger] old(self)@.contains_key(p) && !self@.contains_key(p)
                implies alive.ensures((&old(self)@[p],), false) by {
                lemma_table_view_get(self.cells@, p);
                lemma_table_view_get(old_cells, p);
                assert(keys@.to_set().contains(cell_key(p)));
                let j = choose|j: int| 0 <= j < keys@.len() && keys@[j] == cell_key(p);
                assert(!self.cells@.contains_key(keys@[j]));
            }
        }
    }

    /// The empty cell nearest to `start` by Manhattan distance, found by a
    /// breadth-first search that tries the neighbours of each cell in the
    /// order right, up, left, down (y growing downwards); of several equally
    /// near empty cells it is the one that search reaches first.
    pub fn find_nearest_empty(&self, start: IVec2) -> (r: IVec2)
        requires
            nearest_empty_fits(self@.dom(), start),
        ensures
            nearest_empty(self@.dom(), start) == Some(r),
            !self@.contains_key(r),
            forall|p: IVec2| spec_manhattan(p, start) < spec_manhattan(r, start) ==> #[trigger] self@.contains_key(p),
            spec_manhattan(r, start) <= self@.dom().len(),
    {
        proof {
            self.lemma_view_dom();
        }
        let ghost dom = self@.dom();
        let ghost n: nat = self@.dom().len();
        let mut queue: VecDeque<IVec2> = VecDeque::new();
        let mut visited: HashSet<u64> = HashSet::new();
        queue.push_back(start);
        visited.insert(key_of(start));
        let ghost mut seen: Set<IVec2> = set![start];
        let ghost mut popped: Set<IVec2> = Set::empty();
        let ghost mut steps: nat = n + 1;
        proof {
            assert(queue@ =~= seq![start]);
            assert forall|p: IVec2| #[trigger] visited@.contains(cell_key(p)) <==> seen.contains(p) by {
                lemma_cell_key_bijective(p, start, cell_key(p));
            }
        }
        loop
            invariant
                dom == self@.dom(),
                dom.finite(),
                n == dom.len(),
                forall|p: IVec2| #[trigger] self@.contains_key(p) <==> self.cells@.contains_key(cell_key(p)),
                forall|p: IVec2| #[trigger] visited@.contains(cell_key(p)) <==> seen.contains(p),
                popped.finite(),
                steps + popped.len() == n + 1,
                search_from(dom, queue@, seen, steps) == nearest_empty(dom, start),
                search_fits(dom, queue@, seen, steps),
                forall|p: IVec2| #[trigger] popped.contains(p) ==> self@.contains_key(p) && seen.contains(p)
                    && neighbours_fit(p),
                forall|i: int| 0 <= i < queue@.len() ==> seen.contains(#[trigger] queue@[i]) && !popped.contains(queue@[i]),
                queue@.no_duplicates(),
                forall|p: IVec2| #[trigger] seen.contains(p) ==> popped.contains(p) || queue@.contains(p),
                forall|i: int, j: int| 0 <= i <= j < queue@.len()
                    ==> spec_manhattan(#[trigger] queue@[i], start) <= spec_manhattan(#[trigger] queue@[j], start),
                queue@.len() > 0 ==> forall|i: int| 0 <= i < queue@.len()
                    ==> spec_manhattan(#[trigger] queue@[i], start) <= spec_manhattan(queue@[0], start) + 1,
                queue@.len() > 0 ==> forall|p: IVec2| spec_manhattan(p, start) < spec_manhattan(queue@[0], start)
                    ==> #[trigger] popped.contains(p),
                forall|p: IVec2, i: int| #[trigger] popped.contains(p) && 0 <= i < 4
                    ==> seen.contains(#[trigger] search_step(p, i)),
                seen.contains(start),
            decreases steps,
        {
            proof {
                vstd::set_lib::lemma_len_subset(popped, dom);
            }
            let ghost queue_before = queue@;
            let ghost seen_before = seen;
            let front = queue.pop_front();
            match front {
                None => {
                    // The grid is finite, so the search never runs out of cells:
                    // an empty queue would mean the cells right of `start` were
                    // all taken, more of them than the grid holds.
                    proof {
                        assert forall|j: int| 0 <= j <= n implies popped.contains(#[trigger] ivec(start.x + j, start.y as int))
                            && fits_i32(start.x + j) by {
                            lemma_bfs_ray(start, popped, seen, j);
                        }
                        assert(neighbours_fit(ivec(start.x + n, start.y as int)));
                        lemma_ray_count(popped, start, n + 1 as int);
                        assert(false);
                    }
                    return start;
                }
                Some(curr) => {
                    let ghost d0 = spec_manhattan(curr, start);
                    proof {
                        assert(queue_before.drop_first() =~= queue@);
                        assert(steps >= 1);
                    }
                    if !self.cells.contains_key(&key_of(curr)) {
                        proof {
                            assert forall|p: IVec2| spec_manhattan(p, start) < spec_manhattan(curr, start)
                                implies #[trigger] self@.contains_key(p) by {
                                assert(popped.contains(p));
                            }
                            assert forall|p: IVec2| spec_manhattan(p, start) < spec_manhattan(curr, start)
                                implies #[trigger] popped.contains(p) by {
                            }
                            lemma_nearer_count(popped, start, curr);
                        }
                        return curr;
                    }
                    proof {
                        assert(neighbours_fit(curr));
                        popped = popped.insert(curr);
                        steps = (steps - 1) as nat;
                        assert forall|p: IVec2| #[trigger] seen.contains(p) implies popped.contains(p) || queue@.contains(p) by {
                            if !popped.contains(p) {
                                assert(queue_before.contains(p));
                                let a = choose|a: int| 0 <= a < queue_before.len() && queue_before[a] == p;
                                assert(a != 0);
                                assert(queue@[a - 1] == p);
                            }
                        }
                    }
                    let ghost rest = queue@;
                    let axes = IVec2::axes();
                    let flip = IVec2::flip_y();
                    let mut i: usize = 0;
                    while i < 4
                        invariant
                            0 <= i <= 4,
                            axes@ == seq![ivec(1, 0), ivec(0, 1), ivec(-1, 0), ivec(0, -1)],
                            flip == ivec(1, -1),
                            dom == self@.dom(),
                            dom.finite(),
                            n == dom.len(),
                            (queue@, seen) == offer_neighbours(rest, seen_before, curr, i as nat),
                            forall|p: IVec2| #[trigger] visited@.contains(cell_key(p)) <==> seen.contains(p),
                            d0 == spec_manhattan(curr, start),
                            neighbours_fit(curr),
                            self@.contains_key(curr),
                            popped.contains(curr),
                            popped.finite(),
                            forall|p: IVec2| #[trigger] popped.contains(p) ==> self@.contains_key(p) && seen.contains(p)
                                && neighbours_fit(p),
                            forall|j: int| 0 <= j < queue@.len() ==> seen.contains(#[trigger] queue@[j])
                                && !popped.contains(queue@[j]) && d0 <= spec_manhattan(queue@[j], start) <= d0 + 1,
                            queue@.no_duplicates(),
                            forall|p: IVec2| #[trigger] seen.contains(p) ==> popped.contains(p) || queue@.contains(p),
                            forall|a: int, b: int| 0 <= a <= b < queue@.len()
                                ==> spec_manhattan(#[trigger] queue@[a], start) <= spec_manhattan(#[trigger] queue@[b], start),
                            forall|p: IVec2| spec_manhattan(p, start) < d0 ==> #[trigger] popped.contains(p),
                            forall|p: IVec2, j: int| #[trigger] popped.contains(p) && p != curr && 0 <= j < 4
                                ==> seen.contains(#[trigger] search_step(p, j)),
                            forall|j: int| 0 <= j < i ==> seen.contains(#[trigger] search_step(curr, j)),
                            seen.contains(start),
                        decreases 4 - i,
                    {
                        proof {
                            assert(i == 0 || i == 1 || i == 2 || i == 3);
                            assert(axes@[i as int] == ivec(search_dx(i as int), -search_dy(i as int)));
                            assert(flip.x == 1 && flip.y == -1);
                            let a = axes@[i as int];
                            assert(a.x * flip.x == a.x);
                            assert(a.y * flip.y == -a.y);
                        }
                        let dir = axes[i] * flip;
                        proof {
                            lemma_step_distance(curr, start, i as int);
                            assert(dir == ivec(search_dx(i as int), search_dy(i as int)));
                        }
                        let next = curr + dir;
                        assert(next == search_step(curr, i as int));
                        let k = key_of(next);
                        let ghost offered = offer_neighbours(rest, seen_before, curr, (i + 1) as nat);
                        if !visited.contains(&k) {
                            proof {
                                if spec_manhattan(next, start) < d0 {
                                    assert(popped.contains(next));
                                }
                                assert(!queue@.contains(next));
                            }
                            let ghost queue_mid = queue@;
                            visited.insert(k);
                            queue.push_back(next);
                            proof {
                                seen = seen.insert(next);
                                assert(offered == (queue@, seen));
                                assert forall|p: IVec2| #[trigger] visited@.contains(cell_key(p)) <==> seen.contains(p) by {
                                    lemma_cell_key_bijective(p, next, k);
                                }
                                assert forall|p: IVec2| #[trigger] seen.contains(p) implies popped.contains(p) || queue@.contains(p) by {
                                    if p == next {
                                        assert(queue@[queue@.len() - 1] == next);
                                    } else if queue_mid.contains(p) {
                                        let a = choose|a: int| 0 <= a < queue_mid.len() && queue_mid[a] == p;
                                        assert(queue@[a] == p);
                                    }
                                }
                            }
                        } else {
                            assert(offered == (queue@, seen));
                        }
                        i = i + 1;
                    }
                    proof {
                        assert(search_from(dom, queue_before, seen_before, steps + 1) == search_from(dom, queue@, seen, steps));
                        assert(search_fits(dom, queue_before, seen_before, steps + 1));
                        if queue@.len() > 0 {
                            assert forall|p: IVec2| spec_manhattan(p, start) < spec_manhattan(queue@[0], start)
                                implies #[trigger] popped.contains(p) by {
                                if spec_manhattan(p, start) >= d0 {
                                    lemma_bfs_layer(start, popped, seen, queue@, curr, d0, p);
                                }
                            }
                        }
                    }
                }
            }
        }
    }

    /// An empty grid.
    pub fn new() -> (g: Grid<W>)
        ensures
            g@ == Map::<IVec2, W>::empty(),
    {
        let g = Grid { cells: HashMap::new() };
        assert(g@ =~= Map::<IVec2, W>::empty());
        g
    }

    /// Puts `window` in the cell `pos`, replacing what was there.
    pub fn insert(&mut self, pos: IVec2, window: W)
        ensures
            final(self)@ == old(self)@.insert(pos, window),
    {
        let k = key_of(pos);
        proof {
            lemma_table_view_insert(self.cells@, pos, window);
        }
        self.cells.insert(k, window);
    }

    /// A copy of the window in the cell `pos`, if it holds one.
    pub fn get(&self, pos: &IVec2) -> (r: Option<W>) where W: Clone
        ensures
            r is Some == self@.contains_key(*pos),
            r matches Some(w) ==> cloned(self@[*pos], w),
    {
        let k = key_of(*pos);
        proof {
            lemma_table_view_get(self.cells@, *pos);
        }
        match self.cells.get(&k) {
            Some(w) => Some(w.clone()),
            None => None,
        }
    }

    /// Exchanges the contents of the cells `src` and `dst`; an empty cell
    /// takes part as well, so that a window moves into it.
    pub fn swap(&mut self, src: IVec2, dst: IVec2)
        ensures
            final(self)@ == swapped(old(self)@, src, dst),
    {
        if src == dst {
            return;
        }
        let ks = key_of(src);
        let kd = key_of(dst);
        proof {
            lemma_cell_key_bijective(src, dst, ks);
            lemma_table_view_remove(self.cells@, src);
            lemma_table_view_remove(self.cells@.remove(ks), dst);
        }
        let src_window = self.cells.remove(&ks);
        let dst_window = self.cells.remove(&kd);
        let ghost mid = self.cells@;
        if let Some(src_window) = src_window {
            proof {
                lemma_table_view_insert(self.cells@, dst, src_window);
            }
            self.cells.insert(kd, src_window);
        }
        if let Some(dst_window) = dst_window {
            proof {
                lemma_table_view_insert(self.cells@, src, dst_window);
            }
            self.cells.insert(ks, dst_window);
        }
        proof {
            assert(self@ =~= swapped(old(self)@, src, dst));
        }
    }
}

} // verus!
