use snake_core::board::body_contains;
use snake_core::board::empty_coordinates;
use snake_core::geometry::Coordinates;

#[test]
fn empty_body_leaves_every_cell_free() {
    let free = empty_coordinates(&Vec::new());
    assert_eq!(free.len(), 121);
    assert_eq!((free[0].x, free[0].y), (0, 0));
    assert_eq!((free[120].x, free[120].y), (10, 10));
}

#[test]
fn free_cells_come_in_row_major_order() {
    let free = empty_coordinates(&Vec::new());
    for (i, c) in free.iter().enumerate() {
        assert_eq!(c.y as usize, i / 11);
        assert_eq!(c.x as usize, i % 11);
    }
}

#[test]
fn occupied_cells_are_left_out() {
    let body = vec![
        Coordinates { x: 0, y: 0 },
        Coordinates { x: 5, y: 5 },
        Coordinates { x: 10, y: 10 },
    ];
    let free = empty_coordinates(&body);
    assert_eq!(free.len(), 118);
    assert!(!free.iter().any(|c| c.x == 0 && c.y == 0));
    assert!(!free.iter().any(|c| c.x == 5 && c.y == 5));
    assert!(!free.iter().any(|c| c.x == 10 && c.y == 10));
    assert_eq!((free[0].x, free[0].y), (1, 0));
}

#[test]
fn duplicate_segments_block_one_cell() {
    let body = vec![Coordinates { x: 4, y: 4 }, Coordinates { x: 4, y: 4 }];
    let free = empty_coordinates(&body);
    assert_eq!(free.len(), 120);
    assert!(!free.iter().any(|c| c.x == 4 && c.y == 4));
}

#[test]
fn body_contains_finds_segments() {
    let body = vec![Coordinates { x: 2, y: 3 }, Coordinates { x: 7, y: 1 }];
    assert!(body_contains(&body, Coordinates { x: 2, y: 3 }));
    assert!(body_contains(&body, Coordinates { x: 7, y: 1 }));
    assert!(!body_contains(&body, Coordinates { x: 3, y: 2 }));
    assert!(!body_contains(&Vec::new(), Coordinates { x: 0, y: 0 }));
}
