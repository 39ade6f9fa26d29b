use vstd::prelude::*;

use crate::action::{decode_action, direction_of, verb_of, Direction, Verb};
use crate::functions::{
    is_view, new_in_rect, scan_outcome, scan_reward, update_closest, update_danger, with_closest,
    with_danger, Cell, Content,
};
use crate::state::{Reward, State};

verus! {

/// Energy that buys one tile of scan distance: a scan spends at most 4% of a
/// third of the robot's energy.
pub const SCAN_ENERGY_PER_TILE: usize = 75;

/// Shortest scan distance worth its energy.
pub const MIN_SCAN_DISTANCE: usize = 2;

/// How far a scan reaches with the given energy.
pub open spec fn scan_distance(energy: usize) -> usize {
    energy / SCAN_ENERGY_PER_TILE
}

/// Which moves are refused.
#[derive(Clone, Copy, Debug, PartialEq, Eq, Structural)]
pub struct MoveRule {
    /// Refuse a move while a goal is at hand.
    pub near_goal: bool,
    /// Refuse a move in a direction that leads towards no goal.
    pub away_from_goal: bool,
}

/// Which scans are refused besides those too short to be worth their energy.
#[derive(Clone, Copy, Debug, PartialEq, Eq, Structural)]
pub struct ScanRule {
    /// Refuse a scan while a goal is at hand.
    pub near_goal: bool,
}

/// What the robot attempts in the world during a tick.
#[derive(Clone, Copy, Debug, PartialEq, Eq, Structural)]
pub enum Command {
    /// The first tick of an episode: attempt nothing, only look around.
    Observe,
    /// The chosen action breaks a rule: attempt nothing.
    Refuse,
    /// Step towards the direction.
    Go(Direction),
    /// Destroy the content of the neighbouring tile.
    Destroy(Direction),
    /// Put this many coins into the neighbouring tile.
    Put(Direction, usize),
    /// Scan this many tiles towards the direction.
    Scan(Direction, usize),
}

/// What came of the attempted command.
#[derive(Debug)]
pub enum Outcome {
    /// Nothing was attempted, or the attempt failed.
    Nothing,
    /// The robot moved onto a tile of this base traversal cost.
    Moved { cost: usize },
    /// This many coins were destroyed and picked up.
    Destroyed { amount: usize },
    /// This many coins were stored.
    Stored { amount: usize },
    /// A rectangle was scanned towards `dir`; `coins` and `banks` are the
    /// positions of the goal objects known before the scan.
    Scanned {
        dir: Direction,
        rect: Vec<Vec<Content>>,
        coins: Vec<(usize, usize)>,
        banks: Vec<(usize, usize)>,
    },
}

/// What the robot perceives of the world at the end of a tick.
#[derive(Debug)]
pub struct Sensing {
    /// The 3x3 view around the robot.
    pub view: Vec<Vec<Option<Cell>>>,
    pub energy: usize,
    pub row: usize,
    pub col: usize,
    /// Position of the nearest coin, if one is known.
    pub nearest_coin: Option<(usize, usize)>,
    /// Position of the nearest bank, if one is known.
    pub nearest_bank: Option<(usize, usize)>,
}

impl Sensing {
    pub open spec fn wf(&self) -> bool {
        is_view(self.view@)
    }
}

/// The policy state machine of one robot during one episode.
pub struct GymRobot {
    pub state: State,
    /// The nearest coin seen so far, as (row, column).
    pub closest_coin: Option<(usize, usize)>,
    /// The nearest bank seen so far, as (row, column).
    pub closest_bank: Option<(usize, usize)>,
    pub coins_destroyed: usize,
    pub coins_stored: usize,
    pub coins_destroyed_goal: usize,
    pub coins_stored_goal: usize,
    /// True until the first tick, which only observes.
    pub setup: bool,
    pub move_rule: MoveRule,
    pub scan_rule: ScanRule,
}

impl GymRobot {
    /// The robot at the start of an episode.
    pub open spec fn fresh(coins_destroyed_goal: usize, coins_stored_goal: usize) -> GymRobot {
        GymRobot {
            state: State::initial(),
            closest_coin: None,
            closest_bank: None,
            coins_destroyed: 0,
            coins_stored: 0,
            coins_destroyed_goal,
            coins_stored_goal,
            setup: true,
            move_rule: MoveRule { near_goal: true, away_from_goal: true },
            scan_rule: ScanRule { near_goal: false },
        }
    }

    /// Whether the rule refuses a move towards `d`.
    pub open spec fn move_refused(self, backpack_coins: usize, d: Direction) -> bool {
        (self.move_rule.near_goal && self.spec_can_destroy_or_put(backpack_coins))
            || (self.move_rule.away_from_goal && self.spec_wrong_dir(d))
    }

    pub open spec fn spec_can_destroy_or_put(self, backpack_coins: usize) -> bool {
        self.state.coin_adj.spec_any() || (self.state.bank_adj.spec_any() && backpack_coins != 0)
    }

    pub open spec fn spec_wrong_dir(self, d: Direction) -> bool {
        !self.state.coin_dir.spec_get(d) && !self.state.bank_dir.spec_get(d)
    }

    /// The command for this tick, given the coins in the backpack and the energy.
    pub open spec fn spec_plan(self, backpack_coins: usize, energy: usize) -> Command {
        if self.setup {
            Command::Observe
        } else {
            let a = self.state.action as int;
            let d = direction_of(a);
            match verb_of(a) {
                Verb::Move => if self.move_refused(backpack_coins, d) {
                    Command::Refuse
                } else {
                    Command::Go(d)
                },
                Verb::Consume => Command::Destroy(d),
                Verb::Deposit => Command::Put(d, backpack_coins),
                Verb::Scan => if (self.scan_rule.near_goal && self.spec_can_destroy_or_put(backpack_coins))
                    || scan_distance(energy) < MIN_SCAN_DISTANCE {
                    Command::Refuse
                } else {
                    Command::Scan(d, scan_distance(energy))
                },
            }
        }
    }

    /// The robot after a transaction of `amount` coins, given whether its
    /// count has reached the target, and the reward of it.
    pub open spec fn settled(self, reached: bool, amount: usize) -> (GymRobot, Reward) {
        if reached {
            (GymRobot { state: State { done: true, ..self.state }, ..self }, Reward::Zero)
        } else if amount == 0 {
            (self, Reward::Illegal)
        } else {
            (self, Reward::Transaction { amount })
        }
    }

    /// The robot after it looked around: danger flags from its view and energy,
    /// then the nearest goals.
    pub open spec fn sensed(self, s: Sensing) -> GymRobot {
        with_closest(with_danger(self, s.view@, s.energy), s.row, s.col, s.nearest_coin, s.nearest_bank)
    }

    /// The robot after a tick past the first, and what the tick earned. Every
    /// attempt that succeeded is followed by a look around.
    pub open spec fn stepped(self, outcome: Outcome, s: Sensing) -> (GymRobot, Reward) {
        let seen = self.sensed(s);
        match outcome {
            Outcome::Nothing => (self, Reward::Illegal),
            Outcome::Moved { cost } => (seen, Reward::Go { cost }),
            Outcome::Destroyed { amount } => {
                let total = seen.coins_destroyed.saturating_add(amount);
                let r = GymRobot { coins_destroyed: total, ..seen };
                r.settled(total >= r.coins_destroyed_goal, amount)
            },
            Outcome::Stored { amount } => {
                let total = seen.coins_stored.saturating_add(amount);
                let r = GymRobot { coins_stored: total, ..seen };
                r.settled(total >= r.coins_stored_goal, amount)
            },
            Outcome::Scanned { dir, rect, coins, banks } => (
                seen,
                scan_outcome(new_in_rect(s.row, s.col, dir, rect@, coins@, banks@)),
            ),
        }
    }

    /// The robot after one tick of the world.
    pub open spec fn ticked(self, outcome: Outcome, s: Sensing) -> GymRobot {
        if self.setup {
            GymRobot { setup: false, ..self.sensed(s) }
        } else {
            let (r, w) = self.stepped(outcome, s);
            GymRobot { state: State { reward: w, ..r.state }, ..r }
        }
    }

    pub fn new(coins_destroyed_goal: usize, coins_stored_goal: usize) -> (r: GymRobot)
        ensures
            r == GymRobot::fresh(coins_destroyed_goal, coins_stored_goal),
    {
        GymRobot {
            state: State::default(),
            closest_coin: None,
            closest_bank: None,
            coins_destroyed: 0,
            coins_stored: 0,
            coins_destroyed_goal,
            coins_stored_goal,
            setup: true,
            move_rule: MoveRule { near_goal: true, away_from_goal: true },
            scan_rule: ScanRule { near_goal: false },
        }
    }

    /// Chooses which moves are refused from now on.
    pub fn set_move_rule(&mut self, rule: MoveRule)
        ensures
            *final(self) == (GymRobot { move_rule: rule, ..*old(self) }),
    {
        self.move_rule = rule;
    }

    /// Whether a goal is at hand: a coin next to the robot, or a bank next to
    /// it while the backpack holds coins.
    pub fn can_destroy_or_put(&self, backpack_coins: usize) -> (r: bool)
        ensures
            r == self.spec_can_destroy_or_put(backpack_coins),
    {
        self.state.coin_adj.any() || (self.state.bank_adj.any() && backpack_coins != 0)
    }

    /// Whether `d` points towards neither the nearest coin nor the nearest bank.
    pub fn wrong_dir(&self, d: Direction) -> (r: bool)
        ensures
            r == self.spec_wrong_dir(d),
    {
        !self.state.coin_dir.get(d) && !self.state.bank_dir.get(d)
    }

    /// Records the action to carry out on the next tick.
    pub fn set_action(&mut self, action: i64)
        ensures
            *final(self) == (GymRobot { state: State { action, ..old(self).state }, ..*old(self) }),
    {
        self.state.action = action;
    }

    /// Decides what to attempt this tick. A move is refused as the move rule
    /// says: by default while a goal is at hand or when it leads towards no
    /// goal; a scan is refused when the energy buys less than the shortest
    /// scan, and also while a goal is at hand if the scan rule says so.
    pub fn plan(&self, backpack_coins: usize, energy: usize) -> (r: Command)
        requires
            self.setup || self.state.action >= 0,
        ensures
            r == self.spec_plan(backpack_coins, energy),
    {
        if self.setup {
            return Command::Observe;
        }
        let (verb, d) = decode_action(self.state.action);
        match verb {
            Verb::Move => {
                if (self.move_rule.near_goal && self.can_destroy_or_put(backpack_coins))
                    || (self.move_rule.away_from_goal && self.wrong_dir(d)) {
                    Command::Refuse
                } else {
                    Command::Go(d)
                }
            },
            Verb::Consume => Command::Destroy(d),
            Verb::Deposit => Command::Put(d, backpack_coins),
            Verb::Scan => {
                let distance = energy / SCAN_ENERGY_PER_TILE;
                if (self.scan_rule.near_goal && self.can_destroy_or_put(backpack_coins))
                    || distance < MIN_SCAN_DISTANCE {
                    Command::Refuse
                } else {
                    Command::Scan(d, distance)
                }
            },
        }
    }

    /// Folds the outcome of a tick past the first into the robot and returns
    /// its reward. A failed or refused attempt earns the illegal-action
    /// penalty and changes nothing else; every successful one is followed by
    /// a fresh danger scan and goal lookup. A transaction that brings its count to
    /// the target ends the episode with no reward; one of zero coins is illegal.
    pub fn step(&mut self, outcome: Outcome, sensing: &Sensing) -> (r: Reward)
        requires
            sensing.wf(),
        ensures
            (*final(self), r) == old(self).stepped(outcome, *sensing),
    {
        match outcome {
            Outcome::Nothing => Reward::Illegal,
            Outcome::Moved { cost } => {
                self.sense(sensing);
                Reward::Go { cost }
            },
            Outcome::Destroyed { amount } => {
                self.sense(sensing);
                self.coins_destroyed = self.coins_destroyed.saturating_add(amount);
                self.settle(self.coins_destroyed >= self.coins_destroyed_goal, amount)
            },
            Outcome::Stored { amount } => {
                self.sense(sensing);
                self.coins_stored = self.coins_stored.saturating_add(amount);
                self.settle(self.coins_stored >= self.coins_stored_goal, amount)
            },
            Outcome::Scanned { dir, rect, coins, banks } => {
                self.sense(sensing);
                scan_reward(sensing.row, sensing.col, &rect, dir, &coins, &banks)
            },
        }
    }

    fn sense(&mut self, sensing: &Sensing)
        requires
            sensing.wf(),
        ensures
            *final(self) == old(self).sensed(*sensing),
    {
        update_danger(self, &sensing.view, sensing.energy);
        update_closest(self, sensing.row, sensing.col, sensing.nearest_coin, sensing.nearest_bank);
    }

    /// Chooses which scans are refused from now on.
    pub fn set_scan_rule(&mut self, rule: ScanRule)
        ensures
            *final(self) == (GymRobot { scan_rule: rule, ..*old(self) }),
    {
        self.scan_rule = rule;
    }

    fn settle(&mut self, reached: bool, amount: usize) -> (r: Reward)
        ensures
            (*final(self), r) == old(self).settled(reached, amount),
    {
        if reached {
            self.state.done = true;
            Reward::Zero
        } else if amount == 0 {
            Reward::Illegal
        } else {
            Reward::Transaction { amount }
        }
    }

    /// Runs one tick. The first tick of an episode scans for danger and goals
    /// and earns nothing; every later one folds in the outcome of the planned
    /// command and records its reward.
    pub fn process_tick(&mut self, outcome: Outcome, sensing: &Sensing)
        requires
            sensing.wf(),
        ensures
            *final(self) == old(self).ticked(outcome, *sensing),
    {
        if self.setup {
            self.sense(sensing);
            self.setup = false;
        } else {
            let reward = self.step(outcome, sensing);
            self.state.reward = reward;
        }
    }
}

/// Right after a reset, a step whose action was refused or failed earns the
/// illegal-action penalty, leaves the episode running, and keeps every feature
/// of the observation that the reset produced.
pub proof fn lemma_illegal_step_after_reset(
    coins_destroyed_goal: usize,
    coins_stored_goal: usize,
    first: Outcome,
    s0: Sensing,
    action: i64,
    s1: Sensing,
)
    ensures
        ({
            let reset = GymRobot::fresh(coins_destroyed_goal, coins_stored_goal).ticked(first, s0);
            let chosen = GymRobot { state: State { action, ..reset.state }, ..reset };
            let after = chosen.ticked(Outcome::Nothing, s1);
            &&& after.state.reward == Reward::Illegal
            &&& !after.state.done
            &&& after.state.features() == reset.state.features()
        }),
{
}

/// A tick past the first ends the episode exactly when a transaction brings
/// the count of destroyed or of stored coins to its target; an episode that
/// has ended stays ended.
pub proof fn lemma_done_exactly_at_target(robot: GymRobot, outcome: Outcome, s: Sensing)
    requires
        !robot.setup,
    ensures
        robot.ticked(outcome, s).state.done == (robot.state.done || match outcome {
            Outcome::Destroyed { amount } => robot.coins_destroyed.saturating_add(amount)
                >= robot.coins_destroyed_goal,
            Outcome::Stored { amount } => robot.coins_stored.saturating_add(amount)
                >= robot.coins_stored_goal,
            _ => false,
        }),
{
}

} // verus!
