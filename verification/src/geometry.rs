//! Grid positions, movement directions and key events.

use vstd::prelude::*;

verus! {

/// A grid cell, addressed by integer coordinates. Equality is exact.
#[derive(Clone, Copy, Debug, PartialEq, Eq, Structural)]
pub struct Position {
    pub x: i32,
    pub y: i32,
}

/// One of the four axis-aligned movement directions.
#[derive(Clone, Copy, Debug, PartialEq, Eq, Structural)]
pub enum Direction {
    Up,
    Down,
    Left,
    Right,
}

/// A key event as the driver loop hands it to the state machine.
/// `Other` stands for every key the game does not react to.
#[derive(Clone, Copy, Debug, PartialEq, Eq, Structural)]
pub enum Key {
    Up,
    Down,
    Left,
    Right,
    Restart,
    Other,
}

/// The exact reverse of a direction; moving there from a standstill would
/// drive the head straight into the first body segment.
pub open spec fn opposite(d: Direction) -> Direction {
    match d {
        Direction::Up => Direction::Down,
        Direction::Down => Direction::Up,
        Direction::Left => Direction::Right,
        Direction::Right => Direction::Left,
    }
}

/// Unit offset a direction adds to the head each tick: up decreases y,
/// down increases y, left decreases x, right increases x.
pub open spec fn spec_offset(d: Direction) -> (int, int) {
    match d {
        Direction::Up => (0int, -1int),
        Direction::Down => (0int, 1int),
        Direction::Left => (-1int, 0int),
        Direction::Right => (1int, 0int),
    }
}

/// The direction a key asks for, if it asks for one.
pub open spec fn key_direction(k: Key) -> Option<Direction> {
    match k {
        Key::Up => Some(Direction::Up),
        Key::Down => Some(Direction::Down),
        Key::Left => Some(Direction::Left),
        Key::Right => Some(Direction::Right),
        Key::Restart => None,
        Key::Other => None,
    }
}

/// Runtime counterpart of [`key_direction`].
pub fn key_direction_of(k: Key) -> (r: Option<Direction>)
    ensures
        r == key_direction(k),
{
    match k {
        Key::Up => Some(Direction::Up),
        Key::Down => Some(Direction::Down),
        Key::Left => Some(Direction::Left),
        Key::Right => Some(Direction::Right),
        Key::Restart => None,
        Key::Other => None,
    }
}

/// Runtime counterpart of [`opposite`].
pub fn opposite_of(d: Direction) -> (r: Direction)
    ensures
        r == opposite(d),
{
    match d {
        Direction::Up => Direction::Down,
        Direction::Down => Direction::Up,
        Direction::Left => Direction::Right,
        Direction::Right => Direction::Left,
    }
}

/// Runtime counterpart of [`spec_offset`].
pub fn direction_offset(d: Direction) -> (r: (i32, i32))
    ensures
        (r.0 as int, r.1 as int) == spec_offset(d),
{
    match d {
        Direction::Up => (0i32, -1i32),
        Direction::Down => (0i32, 1i32),
        Direction::Left => (-1i32, 0i32),
        Direction::Right => (1i32, 0i32),
    }
}

} // verus!
