use vstd::prelude::*;

verus! {

/// Number of composite actions: four verbs, each in four directions.
pub const N_ACTIONS: i64 = 16;

/// Length of an observation: five feature groups of four directions.
pub const N_OBSERVATIONS: i64 = 20;

/// A compass direction, in the order in which the feature groups list them.
#[derive(Clone, Copy, Debug, PartialEq, Eq, Structural)]
pub enum Direction {
    Up,
    Right,
    Down,
    Left,
}

/// What the robot tries to do in a tick.
#[derive(Clone, Copy, Debug, PartialEq, Eq, Structural)]
pub enum Verb {
    /// Step onto the neighbouring tile.
    Move,
    /// Destroy the coins on the neighbouring tile and pick them up.
    Consume,
    /// Put the coins of the backpack into the neighbouring bank.
    Deposit,
    /// Look at a rectangle of tiles in one direction.
    Scan,
}

/// The direction that the low two bits of an action name.
pub open spec fn direction_of(action: int) -> Direction {
    let d = action % 4;
    if d == 0 {
        Direction::Up
    } else if d == 1 {
        Direction::Right
    } else if d == 2 {
        Direction::Down
    } else {
        Direction::Left
    }
}

/// The verb of an action; every action past the third verb scans.
pub open spec fn verb_of(action: int) -> Verb {
    let v = action / 4;
    if v == 0 {
        Verb::Move
    } else if v == 1 {
        Verb::Consume
    } else if v == 2 {
        Verb::Deposit
    } else {
        Verb::Scan
    }
}

impl Direction {
    /// Position of the direction inside a feature group.
    pub open spec fn spec_index(self) -> int {
        match self {
            Direction::Up => 0,
            Direction::Right => 1,
            Direction::Down => 2,
            Direction::Left => 3,
        }
    }

    pub fn index(self) -> (r: usize)
        ensures
            r as int == self.spec_index(),
            r < 4,
    {
        match self {
            Direction::Up => 0,
            Direction::Right => 1,
            Direction::Down => 2,
            Direction::Left => 3,
        }
    }
}

/// Splits an action into its verb (`action / 4`) and direction (`action % 4`).
pub fn decode_action(action: i64) -> (r: (Verb, Direction))
    requires
        0 <= action,
    ensures
        r.0 == verb_of(action as int),
        r.1 == direction_of(action as int),
{
    let a = action as u64;
    let d = a % 4;
    let dir = if d == 0 {
        Direction::Up
    } else if d == 1 {
        Direction::Right
    } else if d == 2 {
        Direction::Down
    } else {
        Direction::Left
    };
    let v = a / 4;
    let verb = if v == 0 {
        Verb::Move
    } else if v == 1 {
        Verb::Consume
    } else if v == 2 {
        Verb::Deposit
    } else {
        Verb::Scan
    };
    (verb, dir)
}

} // verus!
