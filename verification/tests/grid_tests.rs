use life::render::cell_rect;
use life::world::gen_world;
use life::Grid;

#[test]
fn new_grid_is_all_dead_with_given_dimensions() {
    let g = Grid::new(6, 4);
    assert_eq!(g.width(), 6);
    assert_eq!(g.height(), 4);
    for x in 0..6 {
        for y in 0..4 {
            assert!(!g.get(x, y));
        }
    }
}

#[test]
fn set_then_get_round_trips() {
    let mut g = Grid::new(5, 5);
    g.set(2, 3, true);
    assert!(g.get(2, 3));
    assert!(!g.get(3, 2));
    g.set(2, 3, false);
    assert!(!g.get(2, 3));
}

#[test]
fn get_is_idempotent() {
    let mut g = Grid::new(4, 4);
    g.set(1, 2, true);
    let first = g.get(1, 2);
    let second = g.get(1, 2);
    assert_eq!(first, second);
    let first_dead = g.get(0, 0);
    let second_dead = g.get(0, 0);
    assert_eq!(first_dead, second_dead);
}

#[test]
fn gen_world_has_requested_dimensions() {
    let g = gen_world(10, 5, 1, 2);
    assert_eq!(g.width(), 10);
    assert_eq!(g.height(), 5);
}

#[test]
fn gen_world_probability_zero_is_all_dead() {
    let g = gen_world(8, 8, 0, 1);
    for x in 0..8 {
        for y in 0..8 {
            assert!(!g.get(x, y));
        }
    }
}

#[test]
fn gen_world_probability_one_is_all_live() {
    let g = gen_world(8, 8, 1, 1);
    for x in 0..8 {
        for y in 0..8 {
            assert!(g.get(x, y));
        }
    }
}

#[test]
fn cell_rect_scales_coordinates() {
    assert_eq!(cell_rect(0, 0, 8), (0, 0, 8, 8));
    assert_eq!(cell_rect(3, 2, 8), (24, 16, 8, 8));
    assert_eq!(cell_rect(99, 49, 8), (792, 392, 8, 8));
}
