use raytracer::checker::{checker_tile, Tile};

#[test]
fn even_sum_is_brown() {
    assert_eq!(checker_tile(0, 0), Tile::Brown);
    assert_eq!(checker_tile(1003, -5), Tile::Brown);
    assert_eq!(checker_tile(-2, -4), Tile::Brown);
}

#[test]
fn odd_sum_is_gray() {
    assert_eq!(checker_tile(1, 0), Tile::Gray);
    assert_eq!(checker_tile(-1, 0), Tile::Gray);
    assert_eq!(checker_tile(998, -7), Tile::Gray);
}

#[test]
fn extreme_coordinates_do_not_overflow() {
    assert_eq!(checker_tile(isize::MAX, isize::MAX), Tile::Brown);
    assert_eq!(checker_tile(isize::MAX, 0), Tile::Gray);
    assert_eq!(checker_tile(isize::MIN, isize::MIN), Tile::Brown);
    assert_eq!(checker_tile(isize::MIN, isize::MAX), Tile::Gray);
}
