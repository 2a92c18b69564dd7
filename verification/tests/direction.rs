use cell_simulation::config::Config;
use cell_simulation::direction::Direction;

fn field(width: usize, height: usize) -> Config {
    Config { width, height, ..Config::default() }
}

#[test]
fn left_from_first_column_wraps_to_last() {
    let config = field(7, 5);
    for y in 0..5 {
        assert_eq!(Direction::Left.apply_direction(0, y, &config), (6, y));
    }
}

#[test]
fn right_from_last_column_wraps_to_first() {
    let config = field(7, 5);
    for y in 0..5 {
        assert_eq!(Direction::Right.apply_direction(6, y, &config), (0, y));
    }
}

#[test]
fn up_from_first_row_wraps_to_last() {
    let config = field(7, 5);
    for x in 0..7 {
        assert_eq!(Direction::Up.apply_direction(x, 0, &config), (x, 4));
    }
}

#[test]
fn down_from_last_row_wraps_to_first() {
    let config = field(7, 5);
    for x in 0..7 {
        assert_eq!(Direction::Down.apply_direction(x, 4, &config), (x, 0));
    }
}

#[test]
fn steps_inside_the_grid_move_by_one() {
    let config = field(7, 5);
    assert_eq!(Direction::Left.apply_direction(3, 2, &config), (2, 2));
    assert_eq!(Direction::Right.apply_direction(3, 2, &config), (4, 2));
    assert_eq!(Direction::Up.apply_direction(3, 2, &config), (3, 1));
    assert_eq!(Direction::Down.apply_direction(3, 2, &config), (3, 3));
}

#[test]
fn steps_on_a_single_cell_stay() {
    let config = field(1, 1);
    for direction in [Direction::Left, Direction::Right, Direction::Up, Direction::Down] {
        assert_eq!(direction.apply_direction(0, 0, &config), (0, 0));
    }
}

#[test]
fn opposite_steps_lead_back() {
    let config = field(4, 3);
    for x in 0..4 {
        for y in 0..3 {
            let (lx, ly) = Direction::Left.apply_direction(x, y, &config);
            assert_eq!(Direction::Right.apply_direction(lx, ly, &config), (x, y));
            let (ux, uy) = Direction::Up.apply_direction(x, y, &config);
            assert_eq!(Direction::Down.apply_direction(ux, uy, &config), (x, y));
        }
    }
}

#[test]
fn left_turns_cycle() {
    assert_eq!(Direction::Left.left(), Direction::Down);
    assert_eq!(Direction::Down.left(), Direction::Right);
    assert_eq!(Direction::Right.left(), Direction::Up);
    assert_eq!(Direction::Up.left(), Direction::Left);
}

#[test]
fn right_turns_cycle() {
    assert_eq!(Direction::Left.right(), Direction::Up);
    assert_eq!(Direction::Up.right(), Direction::Right);
    assert_eq!(Direction::Right.right(), Direction::Down);
    assert_eq!(Direction::Down.right(), Direction::Left);
}

#[test]
fn turns_undo_each_other() {
    for direction in [Direction::Left, Direction::Right, Direction::Up, Direction::Down] {
        assert_eq!(direction.left().right(), direction);
        assert_eq!(direction.right().left(), direction);
        assert_eq!(direction.left().left().left().left(), direction);
    }
}

#[test]
fn directions_by_index() {
    assert_eq!(Direction::from_index(0), Direction::Left);
    assert_eq!(Direction::from_index(1), Direction::Right);
    assert_eq!(Direction::from_index(2), Direction::Up);
    assert_eq!(Direction::from_index(3), Direction::Down);
    assert_eq!(Direction::from_index(9), Direction::Down);
}

#[test]
fn random_directions_vary() {
    let mut seen = [false; 4];
    for _ in 0..400 {
        match Direction::new_random() {
            Direction::Left => seen[0] = true,
            Direction::Right => seen[1] = true,
            Direction::Up => seen[2] = true,
            Direction::Down => seen[3] = true,
        }
    }
    assert_eq!(seen, [true; 4]);
}
