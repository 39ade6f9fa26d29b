use vstd::prelude::*;

use crate::action::Direction;

verus! {

/// One flag per compass direction: a feature group of the observation.
#[derive(Clone, Copy, Debug, PartialEq, Eq, Structural)]
pub struct Dirs {
    pub up: bool,
    pub right: bool,
    pub down: bool,
    pub left: bool,
}

impl Dirs {
    pub open spec fn spec_get(self, d: Direction) -> bool {
        match d {
            Direction::Up => self.up,
            Direction::Right => self.right,
            Direction::Down => self.down,
            Direction::Left => self.left,
        }
    }

    /// The group with the flag of `d` raised and the others as they were.
    pub open spec fn with(self, d: Direction) -> Dirs {
        match d {
            Direction::Up => Dirs { up: true, ..self },
            Direction::Right => Dirs { right: true, ..self },
            Direction::Down => Dirs { down: true, ..self },
            Direction::Left => Dirs { left: true, ..self },
        }
    }

    pub open spec fn spec_none() -> Dirs {
        Dirs { up: false, right: false, down: false, left: false }
    }

    pub open spec fn spec_any(self) -> bool {
        self.up || self.right || self.down || self.left
    }

    /// The flags in feature order: up, right, down, left.
    pub open spec fn flags(self) -> Seq<bool> {
        seq![self.up, self.right, self.down, self.left]
    }

    pub fn none() -> (r: Dirs)
        ensures
            r == Dirs::spec_none(),
    {
        Dirs { up: false, right: false, down: false, left: false }
    }

    pub fn get(&self, d: Direction) -> (r: bool)
        ensures
            r == self.spec_get(d),
    {
        match d {
            Direction::Up => self.up,
            Direction::Right => self.right,
            Direction::Down => self.down,
            Direction::Left => self.left,
        }
    }

    pub fn set(&mut self, d: Direction)
        ensures
            *final(self) == old(self).with(d),
    {
        match d {
            Direction::Up => self.up = true,
            Direction::Right => self.right = true,
            Direction::Down => self.down = true,
            Direction::Left => self.left = true,
        }
    }

    pub fn any(&self) -> (r: bool)
        ensures
            r == self.spec_any(),
    {
        self.up || self.right || self.down || self.left
    }
}

/// What a tick earned, before it is weighed into a number.
#[derive(Clone, Copy, Debug, PartialEq, Eq, Structural)]
pub enum Reward {
    /// Nothing earned: before the first step, and on the tick that reaches a target.
    Zero,
    /// The action was refused or failed.
    Illegal,
    /// A move onto a tile whose traversal cost is `cost`.
    Go { cost: usize },
    /// `amount` coins were destroyed or stored.
    Transaction { amount: usize },
    /// A scan found `count` goal objects that were not known before.
    Discovered { count: usize },
    /// A scan found nothing new.
    NothingFound,
}

/// The per-episode record that the state machine writes and the environment reads.
#[derive(Clone, Copy, Debug, PartialEq, Eq, Structural)]
pub struct State {
    /// The action chosen for the next tick.
    pub action: i64,
    /// What the last tick earned.
    pub reward: Reward,
    /// Whether a target of the episode has been reached.
    pub done: bool,
    pub danger: Dirs,
    pub coin_dir: Dirs,
    pub bank_dir: Dirs,
    pub coin_adj: Dirs,
    pub bank_adj: Dirs,
}

impl State {
    /// The record at the start of an episode.
    pub open spec fn initial() -> State {
        State {
            action: -1i64,
            reward: Reward::Zero,
            done: false,
            danger: Dirs::spec_none(),
            coin_dir: Dirs::spec_none(),
            bank_dir: Dirs::spec_none(),
            coin_adj: Dirs::spec_none(),
            bank_adj: Dirs::spec_none(),
        }
    }

    /// The observation: danger, coin direction, bank direction, coin adjacency,
    /// bank adjacency, four flags each.
    pub open spec fn features(self) -> Seq<bool> {
        self.danger.flags() + self.coin_dir.flags() + self.bank_dir.flags()
            + self.coin_adj.flags() + self.bank_adj.flags()
    }

    /// The same record with every feature group cleared.
    pub open spec fn cleared(self) -> State {
        State {
            action: self.action,
            reward: self.reward,
            done: self.done,
            ..State::initial()
        }
    }

    /// Builds the observation vector of the current features.
    pub fn build(&self) -> (r: Vec<bool>)
        ensures
            r@ == self.features(),
            r@.len() == 20,
    {
        let mut r: Vec<bool> = Vec::new();
        push_group(&mut r, &self.danger);
        push_group(&mut r, &self.coin_dir);
        push_group(&mut r, &self.bank_dir);
        push_group(&mut r, &self.coin_adj);
        push_group(&mut r, &self.bank_adj);
        assert(r@ =~= self.features());
        r
    }

    /// Clears every feature group, keeping action, reward and done.
    pub fn reset(&mut self)
        ensures
            *final(self) == old(self).cleared(),
    {
        self.danger = Dirs::none();
        self.coin_dir = Dirs::none();
        self.bank_dir = Dirs::none();
        self.coin_adj = Dirs::none();
        self.bank_adj = Dirs::none();
    }
}

impl Default for State {
    fn default() -> (r: State)
        ensures
            r == State::initial(),
    {
        State {
            action: -1,
            reward: Reward::Zero,
            done: false,
            danger: Dirs::none(),
            coin_dir: Dirs::none(),
            bank_dir: Dirs::none(),
            coin_adj: Dirs::none(),
            bank_adj: Dirs::none(),
        }
    }
}

fn push_group(v: &mut Vec<bool>, g: &Dirs)
    ensures
        final(v)@ == old(v)@ + g.flags(),
{
    v.push(g.up);
    v.push(g.right);
    v.push(g.down);
    v.push(g.left);
    assert(v@ =~= old(v)@ + g.flags());
}

} // verus!
