use cell_simulation::grid::Grid;

#[test]
fn a_new_grid_holds_default_cells() {
    let grid: Grid<u32> = Grid::new(4, 3);
    assert_eq!(grid.width(), 4);
    assert_eq!(grid.height(), 3);
    for x in 0..4 {
        for y in 0..3 {
            assert_eq!(grid.get(x, y), Some(&0));
        }
    }
}

#[test]
fn lookups_outside_the_grid_find_nothing() {
    let mut grid: Grid<u32> = Grid::new(4, 3);
    assert_eq!(grid.get(4, 0), None);
    assert_eq!(grid.get(0, 3), None);
    assert_eq!(grid.get(4, 3), None);
    assert_eq!(grid.get(usize::MAX, usize::MAX), None);
    assert!(grid.get_mut(4, 0).is_none());
    assert!(grid.get_mut(0, 3).is_none());
    assert!(grid.get_mut(3, 2).is_some());
}

#[test]
fn set_replaces_one_cell() {
    let mut grid: Grid<u32> = Grid::new(4, 3);
    grid.set(1, 2, 7);
    for x in 0..4 {
        for y in 0..3 {
            let expected = if (x, y) == (1, 2) { 7 } else { 0 };
            assert_eq!(grid.get(x, y), Some(&expected));
        }
    }
    // Columns and rows are not confused.
    assert_eq!(grid.get(2, 1), Some(&0));
}

#[test]
fn get_mut_writes_through() {
    let mut grid: Grid<u32> = Grid::new(2, 2);
    *grid.get_mut(1, 0).unwrap() = 9;
    assert_eq!(grid.get(1, 0), Some(&9));
    assert_eq!(grid.get(0, 1), Some(&0));
    *grid.get_mut(1, 0).unwrap() += 1;
    assert_eq!(grid.get(1, 0), Some(&10));
}

#[test]
fn a_clone_holds_the_same_cells() {
    let mut grid: Grid<u32> = Grid::new(3, 2);
    grid.set(0, 0, 1);
    grid.set(2, 1, 5);
    let copy = grid.clone();
    grid.set(1, 1, 8);
    assert_eq!(copy.width(), 3);
    assert_eq!(copy.height(), 2);
    assert_eq!(copy.get(0, 0), Some(&1));
    assert_eq!(copy.get(2, 1), Some(&5));
    assert_eq!(copy.get(1, 1), Some(&0));
}

#[test]
fn the_default_grid_is_without_cells() {
    let grid: Grid<u32> = Grid::default();
    assert_eq!(grid.width(), 0);
    assert_eq!(grid.height(), 0);
    assert_eq!(grid.get(0, 0), None);
}

#[test]
fn a_grid_without_rows() {
    let grid: Grid<u32> = Grid::new(3, 0);
    assert_eq!(grid.width(), 3);
    assert_eq!(grid.height(), 0);
    assert_eq!(grid.get(0, 0), None);
}
