use pixedit::geom::point_in_rect;
use pixedit::sprite_bank::atlas_origin;
use pixedit::sprite_bank::bank_of;

#[test]
fn rect_containment_is_half_open() {
    assert!(point_in_rect(0, 0, 0, 0, 10, 10));
    assert!(point_in_rect(9, 9, 0, 0, 10, 10));
    assert!(!point_in_rect(10, 5, 0, 0, 10, 10));
    assert!(!point_in_rect(5, 10, 0, 0, 10, 10));
    assert!(!point_in_rect(-1, 5, 0, 0, 10, 10));
}

#[test]
fn bank_decomposition() {
    assert_eq!(bank_of(0), 0);
    assert_eq!(bank_of(63), 0);
    assert_eq!(bank_of(64), 1);
    assert_eq!(bank_of(147), 2);
    assert_eq!(bank_of(255), 3);
}

#[test]
fn atlas_origin_formula() {
    assert_eq!(atlas_origin(0), (0, 0));
    assert_eq!(atlas_origin(15), (120, 0));
    assert_eq!(atlas_origin(16), (0, 8));
    // the sprite picked by bank 2, thumbnail column 3, row 1
    assert_eq!(atlas_origin(147), (24, 72));
    assert_eq!(atlas_origin(255), (120, 120));
}
