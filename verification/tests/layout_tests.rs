use enki::layout::Grid;
use enki::math::IVec2;

fn v(x: i32, y: i32) -> IVec2 {
    IVec2::new(x, y)
}

#[test]
fn insert_then_get() {
    let mut g: Grid<&str> = Grid::new();
    assert_eq!(g.get(&v(0, 0)), None);
    g.insert(v(0, 0), "a");
    g.insert(v(-3, 7), "b");
    assert_eq!(g.get(&v(0, 0)), Some("a"));
    assert_eq!(g.get(&v(-3, 7)), Some("b"));
    g.insert(v(0, 0), "c");
    assert_eq!(g.get(&v(0, 0)), Some("c"));
    assert_eq!(g.get(&v(7, -3)), None);
}

#[test]
fn extreme_cells_are_distinct() {
    let mut g: Grid<u8> = Grid::new();
    g.insert(v(i32::MIN, i32::MAX), 1);
    g.insert(v(i32::MAX, i32::MIN), 2);
    g.insert(v(-1, 0), 3);
    g.insert(v(0, -1), 4);
    assert_eq!(g.get(&v(i32::MIN, i32::MAX)), Some(1));
    assert_eq!(g.get(&v(i32::MAX, i32::MIN)), Some(2));
    assert_eq!(g.get(&v(-1, 0)), Some(3));
    assert_eq!(g.get(&v(0, -1)), Some(4));
    let mut cells = g.positions();
    cells.sort_by_key(|c| (c.x, c.y));
    assert_eq!(cells, vec![v(i32::MIN, i32::MAX), v(-1, 0), v(0, -1), v(i32::MAX, i32::MIN)]);
}

#[test]
fn swap_exchanges_and_moves_into_empty_cells() {
    let mut g: Grid<&str> = Grid::new();
    g.insert(v(0, 0), "a");
    g.insert(v(1, 0), "b");
    g.swap(v(0, 0), v(1, 0));
    assert_eq!(g.get(&v(0, 0)), Some("b"));
    assert_eq!(g.get(&v(1, 0)), Some("a"));
    g.swap(v(1, 0), v(5, 5));
    assert_eq!(g.get(&v(1, 0)), None);
    assert_eq!(g.get(&v(5, 5)), Some("a"));
    g.swap(v(0, 0), v(0, 0));
    assert_eq!(g.get(&v(0, 0)), Some("b"));
    g.swap(v(9, 9), v(8, 8));
    assert_eq!(g.positions().len(), 2);
}

#[test]
fn swapping_twice_restores() {
    let mut g: Grid<u32> = Grid::new();
    g.insert(v(2, 3), 23);
    g.insert(v(4, 4), 44);
    g.swap(v(2, 3), v(4, 4));
    g.swap(v(2, 3), v(4, 4));
    assert_eq!(g.get(&v(2, 3)), Some(23));
    assert_eq!(g.get(&v(4, 4)), Some(44));
    g.swap(v(2, 3), v(0, 0));
    g.swap(v(0, 0), v(2, 3));
    assert_eq!(g.get(&v(2, 3)), Some(23));
    assert_eq!(g.get(&v(0, 0)), None);
}

#[test]
fn cleanup_drops_dead_windows() {
    let mut g: Grid<i32> = Grid::new();
    for i in 0..6 {
        g.insert(v(i, -i), i);
    }
    g.cleanup(|w: &i32| w % 2 == 0);
    for i in 0..6 {
        let expected = if i % 2 == 0 { Some(i) } else { None };
        assert_eq!(g.get(&v(i, -i)), expected);
    }
    assert_eq!(g.positions().len(), 3);
}

#[test]
fn nearest_empty_is_the_start_when_free() {
    let mut g: Grid<u8> = Grid::new();
    assert_eq!(g.find_nearest_empty(v(4, -2)), v(4, -2));
    g.insert(v(0, 0), 1);
    assert_eq!(g.find_nearest_empty(v(4, -2)), v(4, -2));
}

#[test]
fn nearest_empty_tries_right_then_up_then_left_then_down() {
    let mut g: Grid<u8> = Grid::new();
    g.insert(v(0, 0), 1);
    assert_eq!(g.find_nearest_empty(v(0, 0)), v(1, 0));
    g.insert(v(1, 0), 1);
    assert_eq!(g.find_nearest_empty(v(0, 0)), v(0, -1));
    g.insert(v(0, -1), 1);
    assert_eq!(g.find_nearest_empty(v(0, 0)), v(-1, 0));
    g.insert(v(-1, 0), 1);
    assert_eq!(g.find_nearest_empty(v(0, 0)), v(0, 1));
    g.insert(v(0, 1), 1);
    // The whole diamond of radius one is full: the next ring is searched in
    // the order its cells were queued.
    assert_eq!(g.find_nearest_empty(v(0, 0)), v(2, 0));
}

#[test]
fn nearest_empty_is_nearest_in_a_crowded_grid() {
    let mut g: Grid<u8> = Grid::new();
    for x in -3..=3 {
        for y in -3..=3 {
            if (x as i32).abs() + (y as i32).abs() <= 3 && !(x == -2 && y == 1) {
                g.insert(v(x, y), 0);
            }
        }
    }
    let r = g.find_nearest_empty(v(0, 0));
    assert_eq!(r, v(-2, 1));
    let r = g.find_nearest_empty(v(3, 0));
    assert_eq!(r.manhattan_distance(v(3, 0)), 1);
    assert_eq!(g.get(&r), None);
}

#[test]
fn nearest_empty_near_the_edge_of_the_plane() {
    let mut g: Grid<u8> = Grid::new();
    g.insert(v(i32::MAX - 1, 0), 0);
    assert_eq!(g.find_nearest_empty(v(i32::MAX - 1, 0)), v(i32::MAX, 0));
}

#[test]
fn nearest_empty_at_the_edge_when_the_start_is_free() {
    let mut g: Grid<u8> = Grid::new();
    g.insert(v(5, 5), 0);
    assert_eq!(g.find_nearest_empty(v(i32::MAX, 0)), v(i32::MAX, 0));
    assert_eq!(g.find_nearest_empty(v(i32::MIN, i32::MIN)), v(i32::MIN, i32::MIN));
}

#[test]
fn nearest_empty_takes_the_first_free_neighbour_in_order() {
    let mut g: Grid<u8> = Grid::new();
    g.insert(v(10, 10), 0);
    g.insert(v(11, 10), 0);
    g.insert(v(10, 9), 0);
    assert_eq!(g.find_nearest_empty(v(10, 10)), v(9, 10));
    let mut g: Grid<u8> = Grid::new();
    g.insert(v(0, 0), 0);
    g.insert(v(1, 0), 0);
    g.insert(v(0, -1), 0);
    g.insert(v(-1, 0), 0);
    g.insert(v(0, 1), 0);
    g.insert(v(2, 0), 0);
    assert_eq!(g.find_nearest_empty(v(0, 0)), v(1, -1));
}

#[test]
fn nearest_empty_as_far_from_the_edge_as_there_are_windows() {
    let mut g: Grid<u8> = Grid::new();
    g.insert(v(i32::MAX - 2, 0), 0);
    g.insert(v(i32::MAX - 1, 0), 1);
    assert_eq!(g.find_nearest_empty(v(i32::MAX - 2, 0)), v(i32::MAX - 2, -1));
}
