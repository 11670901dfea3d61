use morpion::coords::cell_from_coord;
use morpion::coords::id_from_coord;
use morpion::coords::sprite_dest;
use morpion::coords::CELL_SIZE;
use morpion::coords::PADDING;

const ANCHOR: (u32, u32) = (PADDING, PADDING);

#[test]
fn test_cell_center_maps_back_to_index() {
    for i in 0..9 {
        let (x, y) = sprite_dest(i);
        let cx = x + CELL_SIZE / 2;
        let cy = y + CELL_SIZE / 2;
        assert_eq!(cell_from_coord(cx, cy, ANCHOR, CELL_SIZE), Some(i));
        assert_eq!(id_from_coord(cx, cy, ANCHOR, CELL_SIZE), i);
    }
}

#[test]
fn test_sprite_dest_placement_formula() {
    assert_eq!(sprite_dest(0), (50, 50));
    assert_eq!(sprite_dest(1), (200, 50));
    assert_eq!(sprite_dest(4), (200, 200));
    assert_eq!(sprite_dest(5), (350, 200));
    assert_eq!(sprite_dest(8), (350, 350));
}

#[test]
fn test_cell_from_coord_inside_grid() {
    assert_eq!(cell_from_coord(50, 50, ANCHOR, CELL_SIZE), Some(0));
    assert_eq!(cell_from_coord(199, 199, ANCHOR, CELL_SIZE), Some(0));
    assert_eq!(cell_from_coord(200, 200, ANCHOR, CELL_SIZE), Some(4));
    assert_eq!(cell_from_coord(499, 499, ANCHOR, CELL_SIZE), Some(8));
    assert_eq!(cell_from_coord(499, 50, ANCHOR, CELL_SIZE), Some(2));
    assert_eq!(cell_from_coord(50, 499, ANCHOR, CELL_SIZE), Some(6));
}

#[test]
fn test_cell_from_coord_outside_grid() {
    assert_eq!(cell_from_coord(0, 0, ANCHOR, CELL_SIZE), None);
    assert_eq!(cell_from_coord(49, 200, ANCHOR, CELL_SIZE), None);
    assert_eq!(cell_from_coord(200, 49, ANCHOR, CELL_SIZE), None);
    assert_eq!(cell_from_coord(500, 200, ANCHOR, CELL_SIZE), None);
    assert_eq!(cell_from_coord(200, 500, ANCHOR, CELL_SIZE), None);
}

#[test]
fn test_id_from_coord_one_based_trick_matches() {
    assert_eq!(id_from_coord(60, 60, ANCHOR, CELL_SIZE), 0);
    assert_eq!(id_from_coord(210, 60, ANCHOR, CELL_SIZE), 1);
    assert_eq!(id_from_coord(360, 60, ANCHOR, CELL_SIZE), 2);
    assert_eq!(id_from_coord(60, 210, ANCHOR, CELL_SIZE), 3);
    assert_eq!(id_from_coord(360, 360, ANCHOR, CELL_SIZE), 8);
}
