//! Grid coordinates, movement directions, and the wrap-around step rule.

use vstd::prelude::*;

verus! {

/// Largest x coordinate of the playfield; cells span `0..=WIDTH`.
pub const WIDTH: i32 = 10;

/// Largest y coordinate of the playfield; cells span `0..=HEIGHT`.
pub const HEIGHT: i32 = 10;

/// A cell of the playfield.
#[derive(Clone, Copy, PartialEq, Eq, Structural, Debug)]
pub struct Coordinates {
    pub x: i32,
    pub y: i32,
}

/// The direction the snake moves in each tick, one of the four axis unit
/// vectors, or zero before the first key press.
#[derive(Clone, Copy, PartialEq, Eq, Structural, Debug)]
pub struct Direction {
    pub x: i32,
    pub y: i32,
}

/// A movement key press.
#[derive(Clone, Copy, PartialEq, Eq, Structural, Debug)]
pub enum Key {
    Left,
    Right,
    Up,
    Down,
}

/// The cell lies on the playfield.
pub open spec fn in_grid(c: Coordinates) -> bool {
    0 <= c.x <= WIDTH && 0 <= c.y <= HEIGHT
}

/// The direction is zero or an axis unit vector.
pub open spec fn dir_valid(d: Direction) -> bool {
    (d.x == 0 || d.y == 0) && -1 <= d.x <= 1 && -1 <= d.y <= 1
}

/// The direction after a key press: a key turns the snake towards its axis
/// unless that would reverse the current direction, in which case it is
/// ignored.
pub open spec fn steered(d: Direction, k: Key) -> Direction {
    match k {
        Key::Left => if d.x != 1 { Direction { x: -1i32, y: 0 } } else { d },
        Key::Right => if d.x != -1 { Direction { x: 1, y: 0 } } else { d },
        Key::Up => if d.y != -1 { Direction { x: 0, y: 1 } } else { d },
        Key::Down => if d.y != 1 { Direction { x: 0, y: -1i32 } } else { d },
    }
}

/// One coordinate after moving and wrapping: a value past `max` comes back
/// as `0`, a negative value comes back as `max`.
pub open spec fn wrap(v: int, max: int) -> int {
    if v > max {
        0
    } else if v < 0 {
        max
    } else {
        v
    }
}

/// Runtime check of `in_grid`.
pub fn check_in_grid(c: &Coordinates) -> (b: bool)
    ensures
        b == in_grid(*c),
{
    0 <= c.x && c.x <= WIDTH && 0 <= c.y && c.y <= HEIGHT
}

/// Runtime check of `dir_valid`.
pub fn check_dir_valid(d: &Direction) -> (b: bool)
    ensures
        b == dir_valid(*d),
{
    (d.x == 0 || d.y == 0) && -1 <= d.x && d.x <= 1 && -1 <= d.y && d.y <= 1
}

/// Which key a movement character stands for in the text variant: the
/// classic `h`, `j`, `k`, `l` for left, down, up, right; anything else is
/// ignored.
pub open spec fn key_of_char_spec(c: char) -> Option<Key> {
    if c == 'h' {
        Some(Key::Left)
    } else if c == 'j' {
        Some(Key::Down)
    } else if c == 'k' {
        Some(Key::Up)
    } else if c == 'l' {
        Some(Key::Right)
    } else {
        None
    }
}

/// Decode one movement character of the text variant.
pub fn key_of_char(c: char) -> (k: Option<Key>)
    ensures
        k == key_of_char_spec(c),
{
    if c == 'h' {
        Some(Key::Left)
    } else if c == 'j' {
        Some(Key::Down)
    } else if c == 'k' {
        Some(Key::Up)
    } else if c == 'l' {
        Some(Key::Right)
    } else {
        None
    }
}

/// Apply one key press to the direction.
pub fn movement(direction: &mut Direction, key: Key)
    ensures
        *final(direction) == steered(*old(direction), key),
{
    match key {
        Key::Left => {
            if direction.x != 1 {
                direction.x = -1;
                direction.y = 0;
            }
        },
        Key::Right => {
            if direction.x != -1 {
                direction.x = 1;
                direction.y = 0;
            }
        },
        Key::Up => {
            if direction.y != -1 {
                direction.y = 1;
                direction.x = 0;
            }
        },
        Key::Down => {
            if direction.y != 1 {
                direction.y = -1;
                direction.x = 0;
            }
        },
    }
}

/// Advance the coordinates one step in the given direction and wrap them
/// at the playfield edges. The result always lies on the grid.
pub fn update_coordinates(coordinates: &mut Coordinates, direction: &Direction)
    requires
        i32::MIN <= old(coordinates).x + direction.x <= i32::MAX,
        i32::MIN <= old(coordinates).y + direction.y <= i32::MAX,
    ensures
        final(coordinates).x == wrap(old(coordinates).x + direction.x, WIDTH as int),
        final(coordinates).y == wrap(old(coordinates).y + direction.y, HEIGHT as int),
        in_grid(*final(coordinates)),
{
    coordinates.x = coordinates.x + direction.x;
    coordinates.y = coordinates.y + direction.y;
    if coordinates.y > HEIGHT {
        coordinates.y = 0;
    }
    if coordinates.y < 0 {
        coordinates.y = HEIGHT;
    }
    if coordinates.x > WIDTH {
        coordinates.x = 0;
    }
    if coordinates.x < 0 {
        coordinates.x = WIDTH;
    }
}

} // verus!
