use life::engine::{get_neighbour_num, step};
use life::Grid;

fn grid_from(width: usize, height: usize, live: &[(usize, usize)]) -> Grid {
    let mut g = Grid::new(width, height);
    for &(x, y) in live {
        g.set(x, y, true);
    }
    g
}

fn snapshot(g: &Grid) -> Vec<bool> {
    let mut cells = Vec::new();
    for x in 0..g.width() {
        for y in 0..g.height() {
            cells.push(g.get(x, y));
        }
    }
    cells
}

#[test]
fn neighbour_count_is_exact() {
    let g = grid_from(3, 3, &[(0, 0), (1, 0)]);
    assert_eq!(get_neighbour_num(&g, 1, 1), 2);
    assert_eq!(get_neighbour_num(&g, 2, 0), 1);
    assert_eq!(get_neighbour_num(&g, 2, 2), 0);
    assert_eq!(get_neighbour_num(&g, 0, 0), 1);

    let all = grid_from(
        3,
        3,
        &[
            (0, 0),
            (1, 0),
            (2, 0),
            (0, 1),
            (1, 1),
            (2, 1),
            (0, 2),
            (1, 2),
            (2, 2),
        ],
    );
    assert_eq!(get_neighbour_num(&all, 1, 1), 8);
}

#[test]
fn border_cells_have_fewer_neighbours() {
    let all = grid_from(
        3,
        3,
        &[
            (0, 0),
            (1, 0),
            (2, 0),
            (0, 1),
            (1, 1),
            (2, 1),
            (0, 2),
            (1, 2),
            (2, 2),
        ],
    );
    // corner: at most 3 possible neighbours
    assert_eq!(get_neighbour_num(&all, 0, 0), 3);
    assert_eq!(get_neighbour_num(&all, 2, 2), 3);
    // edge, non-corner: at most 5
    assert_eq!(get_neighbour_num(&all, 1, 0), 5);
    assert_eq!(get_neighbour_num(&all, 0, 1), 5);
}

#[test]
fn dead_grid_stays_dead() {
    let g = Grid::new(4, 4);
    let mut out = Grid::new(4, 4);
    step(&g, &mut out);
    for x in 0..4 {
        for y in 0..4 {
            assert!(!out.get(x, y));
        }
    }
}

#[test]
fn isolated_cell_dies() {
    let g = grid_from(5, 5, &[(2, 2)]);
    let mut out = Grid::new(5, 5);
    step(&g, &mut out);
    for x in 0..5 {
        for y in 0..5 {
            assert!(!out.get(x, y));
        }
    }
}

#[test]
fn live_cell_survives_with_two_or_three() {
    // centre (1, 1) alive, with 0 to 4 live neighbours in turn
    let neighbours = [(0, 0), (2, 0), (0, 2), (2, 2)];
    for n in 0..=4 {
        let mut live = vec![(1, 1)];
        live.extend_from_slice(&neighbours[..n]);
        let g = grid_from(3, 3, &live);
        assert_eq!(get_neighbour_num(&g, 1, 1) as usize, n);
        let mut out = Grid::new(3, 3);
        step(&g, &mut out);
        let expected = n == 2 || n == 3;
        assert_eq!(out.get(1, 1), expected, "live cell with {} neighbours", n);
    }
}

#[test]
fn dead_cell_born_with_exactly_three() {
    let neighbours = [(0, 0), (2, 0), (0, 2), (2, 2)];
    for n in 0..=4 {
        let g = grid_from(3, 3, &neighbours[..n]);
        assert_eq!(get_neighbour_num(&g, 1, 1) as usize, n);
        let mut out = Grid::new(3, 3);
        step(&g, &mut out);
        assert_eq!(out.get(1, 1), n == 3, "dead cell with {} neighbours", n);
    }
}

#[test]
fn block_is_a_fixed_point() {
    let g = grid_from(4, 4, &[(1, 1), (2, 1), (1, 2), (2, 2)]);
    let mut out = Grid::new(4, 4);
    step(&g, &mut out);
    assert_eq!(snapshot(&g), snapshot(&out));
}

#[test]
fn blinker_oscillates_with_period_two() {
    let vertical = grid_from(3, 3, &[(1, 0), (1, 1), (1, 2)]);
    let mut mid = Grid::new(3, 3);
    step(&vertical, &mut mid);
    let horizontal = grid_from(3, 3, &[(0, 1), (1, 1), (2, 1)]);
    assert_eq!(snapshot(&mid), snapshot(&horizontal));
    let mut back = Grid::new(3, 3);
    step(&mid, &mut back);
    assert_eq!(snapshot(&back), snapshot(&vertical));
}

#[test]
fn step_leaves_input_unchanged() {
    let g = grid_from(4, 3, &[(0, 0), (1, 1), (3, 2), (2, 0)]);
    let before = snapshot(&g);
    let mut out = Grid::new(4, 3);
    step(&g, &mut out);
    assert_eq!(snapshot(&g), before);
}
