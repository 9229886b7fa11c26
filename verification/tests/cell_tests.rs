use game_of_life::cell::Cell;

#[test]
fn cell_keeps_its_coordinates() {
    let cell = Cell::new(3, 4, "black");
    assert_eq!(cell.get_x(), 3);
    assert_eq!(cell.get_y(), 4);
}

#[test]
fn cell_keeps_its_color() {
    let cell = Cell::new(0, 0, "white");
    assert_eq!(cell.get_color(), "white");
}
