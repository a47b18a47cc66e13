use snake_core::geometry::key_of_char;
use snake_core::geometry::movement;
use snake_core::geometry::update_coordinates;
use snake_core::geometry::Coordinates;
use snake_core::geometry::Direction;
use snake_core::geometry::Key;

#[test]
fn steering_from_rest() {
    for (key, expected) in [
        (Key::Left, (-1, 0)),
        (Key::Right, (1, 0)),
        (Key::Up, (0, 1)),
        (Key::Down, (0, -1)),
    ] {
        let mut d = Direction { x: 0, y: 0 };
        movement(&mut d, key);
        assert_eq!((d.x, d.y), expected);
    }
}

#[test]
fn steering_never_reverses() {
    let mut d = Direction { x: 1, y: 0 };
    movement(&mut d, Key::Left);
    assert_eq!((d.x, d.y), (1, 0));

    let mut d = Direction { x: -1, y: 0 };
    movement(&mut d, Key::Right);
    assert_eq!((d.x, d.y), (-1, 0));

    let mut d = Direction { x: 0, y: 1 };
    movement(&mut d, Key::Down);
    assert_eq!((d.x, d.y), (0, 1));

    let mut d = Direction { x: 0, y: -1 };
    movement(&mut d, Key::Up);
    assert_eq!((d.x, d.y), (0, -1));
}

#[test]
fn steering_turns_sideways() {
    let mut d = Direction { x: 1, y: 0 };
    movement(&mut d, Key::Up);
    assert_eq!((d.x, d.y), (0, 1));
    movement(&mut d, Key::Left);
    assert_eq!((d.x, d.y), (-1, 0));
    movement(&mut d, Key::Down);
    assert_eq!((d.x, d.y), (0, -1));
    movement(&mut d, Key::Right);
    assert_eq!((d.x, d.y), (1, 0));
}

#[test]
fn plain_step_moves_one_cell() {
    let mut c = Coordinates { x: 4, y: 7 };
    update_coordinates(&mut c, &Direction { x: 1, y: 0 });
    assert_eq!((c.x, c.y), (5, 7));
    update_coordinates(&mut c, &Direction { x: 0, y: -1 });
    assert_eq!((c.x, c.y), (5, 6));
}

#[test]
fn step_wraps_at_every_edge() {
    let mut c = Coordinates { x: 10, y: 5 };
    update_coordinates(&mut c, &Direction { x: 1, y: 0 });
    assert_eq!((c.x, c.y), (0, 5));

    let mut c = Coordinates { x: 0, y: 5 };
    update_coordinates(&mut c, &Direction { x: -1, y: 0 });
    assert_eq!((c.x, c.y), (10, 5));

    let mut c = Coordinates { x: 5, y: 10 };
    update_coordinates(&mut c, &Direction { x: 0, y: 1 });
    assert_eq!((c.x, c.y), (5, 0));

    let mut c = Coordinates { x: 5, y: 0 };
    update_coordinates(&mut c, &Direction { x: 0, y: -1 });
    assert_eq!((c.x, c.y), (5, 10));
}

#[test]
fn zero_direction_stays_put() {
    let mut c = Coordinates { x: 2, y: 9 };
    update_coordinates(&mut c, &Direction { x: 0, y: 0 });
    assert_eq!((c.x, c.y), (2, 9));
}

#[test]
fn movement_characters_decode() {
    assert_eq!(key_of_char('h'), Some(Key::Left));
    assert_eq!(key_of_char('j'), Some(Key::Down));
    assert_eq!(key_of_char('k'), Some(Key::Up));
    assert_eq!(key_of_char('l'), Some(Key::Right));
}

#[test]
fn other_characters_are_ignored() {
    assert_eq!(key_of_char('a'), None);
    assert_eq!(key_of_char('H'), None);
    assert_eq!(key_of_char(' '), None);
    assert_eq!(key_of_char('\n'), None);
}
