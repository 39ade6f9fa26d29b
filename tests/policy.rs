use robogym::action::{decode_action, Direction, Verb};
use robogym::functions::{is_closer, scan_reward, update_closest, update_danger, Cell, Content};
use robogym::robot::{Command, GymRobot, MoveRule, Outcome, ScanRule, Sensing};
use robogym::state::{Dirs, Reward, State};

fn flat(cost: usize) -> Option<Cell> {
    Some(Cell { walkable: true, cost, elevation: 0 })
}

fn view_of(up: Option<Cell>, right: Option<Cell>, down: Option<Cell>, left: Option<Cell>) -> Vec<Vec<Option<Cell>>> {
    vec![
        vec![flat(1), up, flat(1)],
        vec![left, flat(1), right],
        vec![flat(1), down, flat(1)],
    ]
}

fn open_view() -> Vec<Vec<Option<Cell>>> {
    view_of(flat(1), flat(1), flat(1), flat(1))
}

fn sensing(row: usize, col: usize, coin: Option<(usize, usize)>, bank: Option<(usize, usize)>) -> Sensing {
    Sensing { view: open_view(), energy: 1000, row, col, nearest_coin: coin, nearest_bank: bank }
}

const NO: Dirs = Dirs { up: false, right: false, down: false, left: false };

#[test]
fn decode_splits_verb_and_direction() {
    assert_eq!(decode_action(0), (Verb::Move, Direction::Up));
    assert_eq!(decode_action(5), (Verb::Consume, Direction::Right));
    assert_eq!(decode_action(10), (Verb::Deposit, Direction::Down));
    assert_eq!(decode_action(15), (Verb::Scan, Direction::Left));
    assert_eq!(decode_action(20), (Verb::Scan, Direction::Up));
}

#[test]
fn default_state_builds_twenty_zero_features() {
    let s = State::default();
    assert_eq!(s.action, -1);
    assert_eq!(s.reward, Reward::Zero);
    assert!(!s.done);
    assert_eq!(s.build(), vec![false; 20]);
}

#[test]
fn build_lists_groups_in_order() {
    let mut s = State::default();
    s.danger.set(Direction::Left);
    s.coin_dir.set(Direction::Up);
    s.bank_dir.set(Direction::Right);
    s.coin_adj.set(Direction::Down);
    s.bank_adj.set(Direction::Up);
    let obs = s.build();
    let raised: Vec<usize> = (0..20).filter(|&k| obs[k]).collect();
    assert_eq!(raised, vec![3, 4, 9, 14, 16]);
}

#[test]
fn reset_clears_features_and_keeps_the_rest() {
    let mut s = State::default();
    s.action = 7;
    s.done = true;
    s.reward = Reward::Illegal;
    s.danger.set(Direction::Up);
    s.bank_adj.set(Direction::Left);
    s.reset();
    assert_eq!(s.action, 7);
    assert!(s.done);
    assert_eq!(s.reward, Reward::Illegal);
    assert_eq!(s.build(), vec![false; 20]);
}

#[test]
fn border_on_all_sides_is_danger_everywhere() {
    let mut robot = GymRobot::new(1, 1);
    update_danger(&mut robot, &view_of(None, None, None, None), 0);
    assert_eq!(robot.state.danger, Dirs { up: true, right: true, down: true, left: true });
    let mut rich = GymRobot::new(1, 1);
    update_danger(&mut rich, &view_of(None, None, None, None), usize::MAX);
    assert_eq!(rich.state.danger, Dirs { up: true, right: true, down: true, left: true });
}

#[test]
fn danger_weighs_walkability_cost_and_climb() {
    let mut robot = GymRobot::new(1, 1);
    let view = view_of(
        Some(Cell { walkable: false, cost: 0, elevation: 0 }),
        Some(Cell { walkable: true, cost: 5, elevation: 0 }),
        Some(Cell { walkable: true, cost: 1, elevation: 3 }),
        Some(Cell { walkable: true, cost: 10, elevation: 0 }),
    );
    // energy 9: cost 5 is fine, 1 + 3*3 = 10 is too much, 10 is too much
    update_danger(&mut robot, &view, 9);
    assert_eq!(robot.state.danger, Dirs { up: true, right: false, down: true, left: true });
    update_danger(&mut robot, &view, 10);
    assert_eq!(robot.state.danger, Dirs { up: true, right: false, down: false, left: false });
}

#[test]
fn descending_costs_no_climb() {
    let mut robot = GymRobot::new(1, 1);
    let mut view = open_view();
    view[1][1] = Some(Cell { walkable: true, cost: 1, elevation: 10 });
    view[0][1] = Some(Cell { walkable: true, cost: 4, elevation: 0 });
    view[1][2] = Some(Cell { walkable: true, cost: 1, elevation: 12 });
    update_danger(&mut robot, &view, 4);
    assert!(!robot.state.danger.up);
    assert!(robot.state.danger.right);
}

#[test]
fn closeness_compares_euclidean_distance() {
    assert!(is_closer(5, 5, (5, 6), (7, 7)));
    assert!(!is_closer(5, 5, (7, 7), (5, 6)));
    assert!(!is_closer(5, 5, (5, 6), (6, 5)));
    assert!(is_closer(0, 0, (usize::MAX - 1, 0), (usize::MAX, usize::MAX)));
}

#[test]
fn first_goal_found_sets_direction_and_adjacency() {
    let mut robot = GymRobot::new(1, 1);
    update_closest(&mut robot, 5, 5, Some((4, 5)), Some((8, 2)));
    assert_eq!(robot.closest_coin, Some((4, 5)));
    assert_eq!(robot.state.coin_dir, Dirs { up: true, ..NO });
    assert_eq!(robot.state.coin_adj, Dirs { up: true, ..NO });
    assert_eq!(robot.closest_bank, Some((8, 2)));
    assert_eq!(robot.state.bank_dir, Dirs { down: true, left: true, ..NO });
    assert_eq!(robot.state.bank_adj, NO);
}

#[test]
fn farther_goal_does_not_replace_nearer_one() {
    let mut robot = GymRobot::new(1, 1);
    update_closest(&mut robot, 5, 5, Some((5, 6)), None);
    assert_eq!(robot.state.coin_adj, Dirs { right: true, ..NO });
    update_closest(&mut robot, 5, 5, Some((9, 9)), None);
    assert_eq!(robot.closest_coin, Some((5, 6)));
    assert_eq!(robot.state.coin_dir, Dirs { right: true, ..NO });
    assert_eq!(robot.state.coin_adj, Dirs { right: true, ..NO });
    // nothing found: the followed goal stays, its flags are cleared
    update_closest(&mut robot, 5, 5, None, None);
    assert_eq!(robot.closest_coin, Some((5, 6)));
    assert_eq!(robot.state.coin_dir, NO);
    assert_eq!(robot.state.coin_adj, NO);
}

#[test]
fn nearer_goal_replaces_followed_one() {
    let mut robot = GymRobot::new(1, 1);
    update_closest(&mut robot, 5, 5, None, Some((9, 9)));
    update_closest(&mut robot, 5, 5, None, Some((5, 4)));
    assert_eq!(robot.closest_bank, Some((5, 4)));
    assert_eq!(robot.state.bank_dir, Dirs { left: true, ..NO });
    assert_eq!(robot.state.bank_adj, Dirs { left: true, ..NO });
}

#[test]
fn scan_counts_only_unknown_goals() {
    // scanning up from (5, 5): row 0 of the rectangle is map row 4, columns 4..=6
    let rect = vec![
        vec![Content::Coin, Content::Other, Content::Bank],
        vec![Content::Coin, Content::Coin, Content::Other],
    ];
    let coins = vec![(4, 4)];
    let banks = vec![];
    assert_eq!(scan_reward(5, 5, &rect, Direction::Up, &coins, &banks), Reward::Discovered { count: 3 });
    let all_coins = vec![(4, 4), (3, 4), (3, 5)];
    let all_banks = vec![(4, 6)];
    assert_eq!(scan_reward(5, 5, &rect, Direction::Up, &all_coins, &all_banks), Reward::NothingFound);
}

#[test]
fn scan_positions_follow_the_direction() {
    let rect = vec![vec![Content::Bank, Content::Other, Content::Other]];
    // right from (5, 5): tile (0, 0) lies at (4, 6)
    assert_eq!(scan_reward(5, 5, &rect, Direction::Right, &vec![], &vec![(4, 6)]), Reward::NothingFound);
    // left from (5, 5): tile (0, 0) lies at (4, 4)
    assert_eq!(scan_reward(5, 5, &rect, Direction::Left, &vec![], &vec![(4, 4)]), Reward::NothingFound);
    // down from (5, 5): tile (0, 0) lies at (6, 4)
    assert_eq!(scan_reward(5, 5, &rect, Direction::Down, &vec![], &vec![(6, 4)]), Reward::NothingFound);
    assert_eq!(scan_reward(5, 5, &rect, Direction::Down, &vec![], &vec![(4, 6)]), Reward::Discovered { count: 1 });
}

#[test]
fn scan_of_nothing_is_penalised() {
    let rect: Vec<Vec<Content>> = vec![];
    assert_eq!(scan_reward(0, 0, &rect, Direction::Up, &vec![], &vec![]), Reward::NothingFound);
}

fn started(coins_destroyed_goal: usize, coins_stored_goal: usize, s: &Sensing) -> GymRobot {
    let mut robot = GymRobot::new(coins_destroyed_goal, coins_stored_goal);
    assert_eq!(robot.plan(0, 1000), Command::Observe);
    robot.process_tick(Outcome::Nothing, s);
    assert!(!robot.setup);
    assert_eq!(robot.state.reward, Reward::Zero);
    robot
}

#[test]
fn moves_are_refused_near_goals_or_away_from_them() {
    let s = sensing(5, 5, Some((2, 5)), None);
    let mut robot = started(10, 10, &s);
    robot.set_action(2); // move down, away from the coin
    assert_eq!(robot.plan(0, 1000), Command::Refuse);
    robot.set_action(0); // move up, towards it
    assert_eq!(robot.plan(0, 1000), Command::Go(Direction::Up));
    let near = sensing(5, 5, Some((4, 5)), None);
    let mut close = started(10, 10, &near);
    close.set_action(0);
    assert_eq!(close.plan(0, 1000), Command::Refuse);
}

#[test]
fn scans_need_energy_and_no_goal_at_hand() {
    let s = sensing(5, 5, Some((1, 1)), None);
    let mut robot = started(10, 10, &s);
    robot.set_action(13); // scan right
    assert_eq!(robot.plan(0, 149), Command::Refuse);
    assert_eq!(robot.plan(0, 150), Command::Scan(Direction::Right, 2));
    assert_eq!(robot.plan(0, 1000), Command::Scan(Direction::Right, 13));
    robot.set_action(9); // deposit right
    assert_eq!(robot.plan(4, 1000), Command::Put(Direction::Right, 4));
}

#[test]
fn moving_rewards_the_entered_tile_and_rescans() {
    let s = sensing(5, 5, Some((2, 5)), None);
    let mut robot = started(10, 10, &s);
    robot.set_action(0);
    let mut after = sensing(4, 5, Some((2, 5)), None);
    after.view = view_of(None, flat(1), flat(1), flat(1));
    robot.process_tick(Outcome::Moved { cost: 3 }, &after);
    assert_eq!(robot.state.reward, Reward::Go { cost: 3 });
    assert!(robot.state.danger.up);
    assert!(!robot.state.done);
}

#[test]
fn three_single_coins_complete_the_destroy_target() {
    let s = sensing(5, 5, Some((4, 5)), None);
    let mut robot = started(3, 0, &s);
    robot.set_action(4); // consume up
    assert_eq!(robot.plan(0, 1000), Command::Destroy(Direction::Up));
    robot.process_tick(Outcome::Destroyed { amount: 1 }, &s);
    assert_eq!(robot.state.reward, Reward::Transaction { amount: 1 });
    assert!(!robot.state.done);
    robot.process_tick(Outcome::Destroyed { amount: 1 }, &s);
    assert_eq!(robot.state.reward, Reward::Transaction { amount: 1 });
    assert!(!robot.state.done);
    robot.process_tick(Outcome::Destroyed { amount: 1 }, &s);
    assert_eq!(robot.coins_destroyed, 3);
    assert_eq!(robot.state.reward, Reward::Zero);
    assert!(robot.state.done);
}

#[test]
fn empty_transaction_is_illegal() {
    let s = sensing(5, 5, None, Some((5, 6)));
    let mut robot = started(10, 10, &s);
    robot.set_action(9);
    robot.process_tick(Outcome::Stored { amount: 0 }, &s);
    assert_eq!(robot.state.reward, Reward::Illegal);
    robot.process_tick(Outcome::Stored { amount: 2 }, &s);
    assert_eq!(robot.state.reward, Reward::Transaction { amount: 2 });
    assert_eq!(robot.coins_stored, 2);
}

#[test]
fn storing_up_to_the_target_ends_the_episode() {
    let s = sensing(5, 5, None, Some((5, 6)));
    let mut robot = started(10, 5, &s);
    robot.process_tick(Outcome::Stored { amount: 5 }, &s);
    assert_eq!(robot.state.reward, Reward::Zero);
    assert!(robot.state.done);
}

#[test]
fn scan_outcome_is_rewarded_by_new_goals() {
    let s = sensing(5, 5, None, None);
    let mut robot = started(10, 10, &s);
    robot.set_action(12);
    let rect = vec![vec![Content::Coin, Content::Coin, Content::Other]];
    robot.process_tick(Outcome::Scanned { dir: Direction::Up, rect, coins: vec![], banks: vec![] }, &s);
    assert_eq!(robot.state.reward, Reward::Discovered { count: 2 });
}

#[test]
fn illegal_step_after_reset_keeps_observation() {
    let s = sensing(5, 5, Some((2, 5)), Some((5, 9)));
    let mut robot = started(10, 10, &s);
    let before = robot.state.build();
    robot.set_action(2); // move down: towards no goal
    assert_eq!(robot.plan(0, 1000), Command::Refuse);
    robot.process_tick(Outcome::Nothing, &s);
    assert_eq!(robot.state.reward, Reward::Illegal);
    assert!(!robot.state.done);
    assert_eq!(robot.state.build(), before);
}

#[test]
fn relaxed_move_rule_allows_moves_near_goals() {
    let near = sensing(5, 5, Some((4, 5)), None);
    let mut robot = started(10, 10, &near);
    robot.set_action(0);
    assert_eq!(robot.plan(0, 1000), Command::Refuse);
    robot.set_move_rule(MoveRule { near_goal: false, away_from_goal: true });
    assert_eq!(robot.plan(0, 1000), Command::Go(Direction::Up));
    robot.set_action(3); // left: no goal that way
    assert_eq!(robot.plan(0, 1000), Command::Refuse);
    robot.set_move_rule(MoveRule { near_goal: false, away_from_goal: false });
    assert_eq!(robot.plan(0, 1000), Command::Go(Direction::Left));
}

#[test]
fn direction_flags_follow_the_robot() {
    let mut robot = GymRobot::new(1, 1);
    update_closest(&mut robot, 3, 3, Some((3, 5)), None);
    assert_eq!(robot.state.coin_dir, Dirs { right: true, ..NO });
    // the robot moved to (5, 5); the same coin is still the nearest
    update_closest(&mut robot, 5, 5, Some((3, 5)), None);
    assert_eq!(robot.closest_coin, Some((3, 5)));
    assert_eq!(robot.state.coin_dir, Dirs { up: true, ..NO });
    assert_eq!(robot.state.coin_adj, NO);
    // a farther coin keeps the followed one, whose flags are recomputed
    update_closest(&mut robot, 4, 5, Some((9, 9)), None);
    assert_eq!(robot.closest_coin, Some((3, 5)));
    assert_eq!(robot.state.coin_dir, Dirs { up: true, ..NO });
    assert_eq!(robot.state.coin_adj, Dirs { up: true, ..NO });
}

#[test]
fn scans_near_goals_follow_the_scan_rule() {
    let near = sensing(5, 5, Some((4, 5)), None);
    let mut robot = started(10, 10, &near);
    robot.set_action(14); // scan down
    assert_eq!(robot.plan(0, 1000), Command::Scan(Direction::Down, 13));
    robot.set_scan_rule(ScanRule { near_goal: true });
    assert_eq!(robot.plan(0, 1000), Command::Refuse);
    assert_eq!(robot.plan(0, 100), Command::Refuse);
}

#[test]
fn danger_is_rescanned_after_every_success() {
    let s = sensing(5, 5, Some((4, 5)), None);
    let mut robot = started(10, 10, &s);
    assert_eq!(robot.state.danger, NO);
    robot.set_action(4);
    let mut after = sensing(5, 5, None, None);
    after.view = view_of(flat(1), flat(1), None, flat(1));
    robot.process_tick(Outcome::Destroyed { amount: 1 }, &after);
    assert_eq!(robot.state.danger, Dirs { down: true, ..NO });
    after.view = view_of(flat(1), None, flat(1), flat(1));
    robot.process_tick(Outcome::Stored { amount: 1 }, &after);
    assert_eq!(robot.state.danger, Dirs { right: true, ..NO });
    after.view = view_of(None, flat(1), flat(1), flat(1));
    let rect = vec![vec![Content::Other]];
    robot.process_tick(Outcome::Scanned { dir: Direction::Up, rect, coins: vec![], banks: vec![] }, &after);
    assert_eq!(robot.state.danger, Dirs { up: true, ..NO });
    // a failed attempt leaves danger as it was
    after.view = open_view();
    robot.process_tick(Outcome::Nothing, &after);
    assert_eq!(robot.state.danger, Dirs { up: true, ..NO });
}
