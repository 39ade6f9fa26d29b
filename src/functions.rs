use vstd::prelude::*;

use crate::action::Direction;
use crate::robot::GymRobot;
use crate::state::{Dirs, Reward, State};

verus! {

/// A tile next to the robot, as the danger scan reads it.
#[derive(Clone, Copy, Debug, PartialEq, Eq, Structural)]
pub struct Cell {
    /// Whether the robot may stand on the tile at all.
    pub walkable: bool,
    /// The cost of entering the tile under the current weather, before elevation.
    pub cost: usize,
    pub elevation: usize,
}

/// What a scanned tile holds, as far as the goals are concerned.
#[derive(Clone, Copy, Debug, PartialEq, Eq, Structural)]
pub enum Content {
    Coin,
    Bank,
    Other,
}

/// Energy needed to step from `from` onto `to`: the tile's cost, plus the
/// square of the climb when `to` lies higher.
pub open spec fn entry_cost(from: Cell, to: Cell) -> int {
    if to.elevation > from.elevation {
        to.cost + (to.elevation - from.elevation) * (to.elevation - from.elevation)
    } else {
        to.cost as int
    }
}

/// A neighbour is dangerous when it is off the map, not walkable, or costs
/// more energy than the robot has.
pub open spec fn is_dangerous(tile: Option<Cell>, center: Cell, energy: usize) -> bool {
    match tile {
        None => true,
        Some(c) => !c.walkable || (energy as int) < entry_cost(center, c),
    }
}

/// A 3x3 view around the robot, the robot's own tile in the middle.
pub open spec fn is_view(view: Seq<Vec<Option<Cell>>>) -> bool {
    &&& view.len() == 3
    &&& forall|r: int| 0 <= r < 3 ==> #[trigger] view[r]@.len() == 3
    &&& view[1]@[1].is_some()
}

/// The danger flags of a 3x3 view: one per orthogonal neighbour.
pub open spec fn danger_of(view: Seq<Vec<Option<Cell>>>, energy: usize) -> Dirs {
    let center = view[1]@[1].unwrap();
    Dirs {
        up: is_dangerous(view[0]@[1], center, energy),
        right: is_dangerous(view[1]@[2], center, energy),
        down: is_dangerous(view[2]@[1], center, energy),
        left: is_dangerous(view[1]@[0], center, energy),
    }
}

/// The robot after a danger scan of `view`.
pub open spec fn with_danger(robot: GymRobot, view: Seq<Vec<Option<Cell>>>, energy: usize) -> GymRobot {
    GymRobot { state: State { danger: danger_of(view, energy), ..robot.state }, ..robot }
}

/// Square of the Euclidean distance from the robot at `(row, col)` to `p`.
pub open spec fn sq_dist(row: usize, col: usize, p: (usize, usize)) -> int {
    (row - p.0) * (row - p.0) + (col - p.1) * (col - p.1)
}

/// Direction flags pointing from the robot towards `p`.
pub open spec fn dir_toward(row: usize, col: usize, p: (usize, usize)) -> Dirs {
    Dirs { up: p.0 < row, right: p.1 > col, down: p.0 > row, left: p.1 < col }
}

/// Adjacency flags: the one direction in which `p` is a direct neighbour, if any.
pub open spec fn adj_toward(row: usize, col: usize, p: (usize, usize)) -> Dirs {
    Dirs {
        up: p.0 + 1 == row && p.1 == col,
        right: p.0 == row && p.1 == col + 1,
        down: p.0 == row + 1 && p.1 == col,
        left: p.0 == row && p.1 + 1 == col,
    }
}

/// Whether the nearest goal just found replaces the one followed so far.
pub open spec fn replaces(row: usize, col: usize, current: Option<(usize, usize)>, found: (usize, usize)) -> bool {
    match current {
        None => true,
        Some(t) => sq_dist(row, col, found) < sq_dist(row, col, t),
    }
}

/// Followed goal, direction flags and adjacency flags after the nearest goal
/// of one kind was looked up and `found` came back. A found goal replaces the
/// followed one only when strictly nearer; both flag groups then describe the
/// goal followed after the update, seen from the robot's current position.
/// When no goal of the kind is found, the followed one is kept and both flag
/// groups are cleared.
pub open spec fn track_goal(
    row: usize,
    col: usize,
    current: Option<(usize, usize)>,
    found: Option<(usize, usize)>,
) -> (Option<(usize, usize)>, Dirs, Dirs) {
    match found {
        None => (current, Dirs::spec_none(), Dirs::spec_none()),
        Some(f) => {
            let p = if replaces(row, col, current, f) { f } else { current.unwrap() };
            (Some(p), dir_toward(row, col, p), adj_toward(row, col, p))
        },
    }
}

/// The robot after the nearest coin and bank were looked up.
pub open spec fn with_closest(
    robot: GymRobot,
    row: usize,
    col: usize,
    coin: Option<(usize, usize)>,
    bank: Option<(usize, usize)>,
) -> GymRobot {
    let c = track_goal(row, col, robot.closest_coin, coin);
    let b = track_goal(row, col, robot.closest_bank, bank);
    GymRobot {
        closest_coin: c.0,
        closest_bank: b.0,
        state: State { coin_dir: c.1, coin_adj: c.2, bank_dir: b.1, bank_adj: b.2, ..robot.state },
        ..robot
    }
}

fn too_costly(energy: usize, from: &Cell, to: &Cell) -> (r: bool)
    ensures
        r == ((energy as int) < entry_cost(*from, *to)),
{
    if energy < to.cost {
        true
    } else if to.elevation > from.elevation {
        let d = (to.elevation - from.elevation) as u128;
        assert(d <= 0xffff_ffff_ffff_ffffu128);
        assert(d * d <= 0xffff_ffff_ffff_ffffu128 * 0xffff_ffff_ffff_ffffu128) by (nonlinear_arith)
            requires
                d <= 0xffff_ffff_ffff_ffffu128,
        ;
        ((energy - to.cost) as u128) < d * d
    } else {
        false
    }
}

fn tile_danger(tile: &Option<Cell>, center: &Cell, energy: usize) -> (r: bool)
    ensures
        r == is_dangerous(*tile, *center, energy),
{
    match tile {
        None => true,
        Some(c) => !c.walkable || too_costly(energy, center, c),
    }
}

/// The direction of the neighbour at row `i`, column `j` of a 3x3 view, if it
/// is an orthogonal one.
pub open spec fn neighbour_dir(i: usize, j: usize) -> Option<Direction> {
    if i == 0 && j == 1 {
        Some(Direction::Up)
    } else if i == 1 && j == 2 {
        Some(Direction::Right)
    } else if i == 2 && j == 1 {
        Some(Direction::Down)
    } else if i == 1 && j == 0 {
        Some(Direction::Left)
    } else {
        None
    }
}

/// The robot with the danger flag of the view position `(i, j)` raised.
pub open spec fn with_danger_at(robot: GymRobot, i: usize, j: usize) -> GymRobot {
    match neighbour_dir(i, j) {
        Some(d) => GymRobot { state: State { danger: robot.state.danger.with(d), ..robot.state }, ..robot },
        None => robot,
    }
}

/// Raises the danger flag of the neighbour at row `i`, column `j` of a 3x3 view;
/// any other position changes nothing.
pub fn update_danger_adj(robot: &mut GymRobot, i: usize, j: usize)
    ensures
        *final(robot) == with_danger_at(*old(robot), i, j),
{
    if i == 0 && j == 1 {
        robot.state.danger.set(Direction::Up);
    } else if i == 1 && j == 2 {
        robot.state.danger.set(Direction::Right);
    } else if i == 2 && j == 1 {
        robot.state.danger.set(Direction::Down);
    } else if i == 1 && j == 0 {
        robot.state.danger.set(Direction::Left);
    }
}

/// Recomputes the danger flags from the 3x3 view around the robot and its energy.
pub fn update_danger(robot: &mut GymRobot, view: &Vec<Vec<Option<Cell>>>, energy: usize)
    requires
        is_view(view@),
    ensures
        *final(robot) == with_danger(*old(robot), view@, energy),
{
    let center = view[1][1].unwrap();
    let up = tile_danger(&view[0][1], &center, energy);
    let right = tile_danger(&view[1][2], &center, energy);
    let down = tile_danger(&view[2][1], &center, energy);
    let left = tile_danger(&view[1][0], &center, energy);
    let ghost d = danger_of(view@, energy);
    assert(up == d.up && right == d.right && down == d.down && left == d.left);
    robot.state.danger = Dirs::none();
    if up {
        update_danger_adj(robot, 0, 1);
    }
    if right {
        update_danger_adj(robot, 1, 2);
    }
    if down {
        update_danger_adj(robot, 2, 1);
    }
    if left {
        update_danger_adj(robot, 1, 0);
    }
    assert(robot.state.danger == d);
}

fn abs_diff(a: usize, b: usize) -> (r: usize)
    ensures
        r as int == (if a >= b { a - b } else { b - a }),
{
    if a >= b {
        a - b
    } else {
        b - a
    }
}

fn square(a: usize) -> (r: u128)
    ensures
        r as int == a * a,
{
    let x = a as u128;
    assert(x <= 0xffff_ffff_ffff_ffffu128);
    assert(x * x <= 0xffff_ffff_ffff_ffffu128 * 0xffff_ffff_ffff_ffffu128) by (nonlinear_arith)
        requires
            x <= 0xffff_ffff_ffff_ffffu128,
    ;
    x * x
}

proof fn lemma_square_of_diff(a: usize, b: usize)
    ensures
        (a - b) * (a - b) == (b - a) * (b - a),
{
    assert((a - b) * (a - b) == (b - a) * (b - a)) by (nonlinear_arith);
}

/// Whether `p` lies strictly nearer to the robot at `(row, col)` than `q`.
pub fn is_closer(row: usize, col: usize, p: (usize, usize), q: (usize, usize)) -> (r: bool)
    ensures
        r == (sq_dist(row, col, p) < sq_dist(row, col, q)),
{
    proof {
        lemma_square_of_diff(row, p.0);
        lemma_square_of_diff(col, p.1);
        lemma_square_of_diff(row, q.0);
        lemma_square_of_diff(col, q.1);
    }
    let a2 = square(abs_diff(row, p.0));
    let b2 = square(abs_diff(col, p.1));
    let c2 = square(abs_diff(row, q.0));
    let d2 = square(abs_diff(col, q.1));
    // a2 + b2 < c2 + d2, without forming either sum
    if a2 >= c2 {
        b2 < d2 && a2 - c2 < d2 - b2
    } else {
        b2 <= d2 || b2 - d2 < c2 - a2
    }
}

fn adj_flags(row: usize, col: usize, p: (usize, usize)) -> (r: Dirs)
    ensures
        r == adj_toward(row, col, p),
{
    Dirs {
        up: row > 0 && p.0 == row - 1 && p.1 == col,
        right: p.0 == row && col < usize::MAX && p.1 == col + 1,
        down: row < usize::MAX && p.0 == row + 1 && p.1 == col,
        left: p.0 == row && col > 0 && p.1 == col - 1,
    }
}

fn track(
    row: usize,
    col: usize,
    current: Option<(usize, usize)>,
    found: Option<(usize, usize)>,
) -> (r: (Option<(usize, usize)>, Dirs, Dirs))
    ensures
        r == track_goal(row, col, current, found),
{
    match found {
        None => (current, Dirs::none(), Dirs::none()),
        Some(f) => {
            let p = match current {
                None => f,
                Some(t) => if is_closer(row, col, f, t) {
                    f
                } else {
                    t
                },
            };
            let d = Dirs { up: p.0 < row, right: p.1 > col, down: p.0 > row, left: p.1 < col };
            (Some(p), d, adj_flags(row, col, p))
        },
    }
}

/// Folds the nearest coin and bank that a lookup from `(row, col)` returned
/// into the goals followed so far, and recomputes their flags. A found goal
/// replaces the followed one only when strictly nearer. Direction flags then
/// compare the followed goal's row and column with the robot's; adjacency
/// flags mark it when it lies at Manhattan distance one. A kind of goal that
/// the lookup did not find gets no flags.
pub fn update_closest(
    robot: &mut GymRobot,
    row: usize,
    col: usize,
    coin: Option<(usize, usize)>,
    bank: Option<(usize, usize)>,
)
    ensures
        *final(robot) == with_closest(*old(robot), row, col, coin, bank),
{
    let c = track(row, col, robot.closest_coin, coin);
    let b = track(row, col, robot.closest_bank, bank);
    robot.closest_coin = c.0;
    robot.state.coin_dir = c.1;
    robot.state.coin_adj = c.2;
    robot.closest_bank = b.0;
    robot.state.bank_dir = b.1;
    robot.state.bank_adj = b.2;
}

/// Map position of the tile at row `i`, column `j` of a rectangle scanned
/// from `(row, col)` towards `dir`.
pub open spec fn scanned_pos(row: usize, col: usize, dir: Direction, i: int, j: int) -> (int, int) {
    match dir {
        Direction::Up => (row - i - 1, col + j - 1),
        Direction::Right => (row + i - 1, col + j + 1),
        Direction::Down => (row + i + 1, col + j - 1),
        Direction::Left => (row + i - 1, col - j - 1),
    }
}

/// Whether `p` is among the positions of `list`.
pub open spec fn known(list: Seq<(usize, usize)>, p: (int, int)) -> bool {
    exists|k: int| 0 <= k < list.len() && list[k].0 == p.0 && list[k].1 == p.1
}

/// Whether a scanned tile holds a goal object that was not known before.
pub open spec fn is_new(c: Content, p: (int, int), coins: Seq<(usize, usize)>, banks: Seq<(usize, usize)>) -> bool {
    match c {
        Content::Coin => !known(coins, p),
        Content::Bank => !known(banks, p),
        Content::Other => false,
    }
}

/// Number of new goal objects among the first `cells.len()` tiles of row `i`.
pub open spec fn new_in_row(
    row: usize,
    col: usize,
    dir: Direction,
    i: int,
    cells: Seq<Content>,
    coins: Seq<(usize, usize)>,
    banks: Seq<(usize, usize)>,
) -> nat
    decreases cells.len(),
{
    if cells.len() == 0 {
        0
    } else {
        let j = cells.len() - 1;
        new_in_row(row, col, dir, i, cells.drop_last(), coins, banks)
            + if is_new(cells.last(), scanned_pos(row, col, dir, i, j), coins, banks) { 1nat } else { 0nat }
    }
}

/// Number of new goal objects in a scanned rectangle.
pub open spec fn new_in_rect(
    row: usize,
    col: usize,
    dir: Direction,
    rect: Seq<Vec<Content>>,
    coins: Seq<(usize, usize)>,
    banks: Seq<(usize, usize)>,
) -> nat
    decreases rect.len(),
{
    if rect.len() == 0 {
        0
    } else {
        new_in_rect(row, col, dir, rect.drop_last(), coins, banks)
            + new_in_row(row, col, dir, rect.len() - 1, rect.last()@, coins, banks)
    }
}

/// `n`, or `usize::MAX` where `n` does not fit.
pub open spec fn capped(n: nat) -> usize {
    if n <= usize::MAX {
        n as usize
    } else {
        usize::MAX
    }
}

/// The reward of a scan that found `n` new goal objects.
pub open spec fn scan_outcome(n: nat) -> Reward {
    if n == 0 {
        Reward::NothingFound
    } else {
        Reward::Discovered { count: capped(n) }
    }
}

fn scanned_position(row: usize, col: usize, dir: Direction, i: usize, j: usize) -> (r: Option<(usize, usize)>)
    ensures
        match r {
            Some(p) => p.0 as int == scanned_pos(row, col, dir, i as int, j as int).0
                && p.1 as int == scanned_pos(row, col, dir, i as int, j as int).1,
            None => {
                let q = scanned_pos(row, col, dir, i as int, j as int);
                !(0 <= q.0 <= usize::MAX && 0 <= q.1 <= usize::MAX)
            },
        },
{
    let (r0, c0): (i128, i128) = match dir {
        Direction::Up => (row as i128 - i as i128 - 1, col as i128 + j as i128 - 1),
        Direction::Right => (row as i128 + i as i128 - 1, col as i128 + j as i128 + 1),
        Direction::Down => (row as i128 + i as i128 + 1, col as i128 + j as i128 - 1),
        Direction::Left => (row as i128 + i as i128 - 1, col as i128 - j as i128 - 1),
    };
    if 0 <= r0 && r0 <= usize::MAX as i128 && 0 <= c0 && c0 <= usize::MAX as i128 {
        Some((r0 as usize, c0 as usize))
    } else {
        None
    }
}

fn is_known(list: &Vec<(usize, usize)>, p: (usize, usize)) -> (r: bool)
    ensures
        r == known(list@, (p.0 as int, p.1 as int)),
{
    let mut k: usize = 0;
    while k < list.len()
        invariant
            k <= list@.len(),
            forall|m: int| 0 <= m < k ==> !(list@[m].0 == p.0 && list@[m].1 == p.1),
        decreases list@.len() - k,
    {
        if list[k].0 == p.0 && list[k].1 == p.1 {
            return true;
        }
        k += 1;
    }
    false
}

fn tile_is_new(
    c: Content,
    pos: Option<(usize, usize)>,
    coins: &Vec<(usize, usize)>,
    banks: &Vec<(usize, usize)>,
    Ghost(q): Ghost<(int, int)>,
) -> (r: bool)
    requires
        match pos {
            Some(p) => p.0 as int == q.0 && p.1 as int == q.1,
            None => !(0 <= q.0 <= usize::MAX && 0 <= q.1 <= usize::MAX),
        },
    ensures
        r == is_new(c, q, coins@, banks@),
{
    let list = match c {
        Content::Coin => coins,
        Content::Bank => banks,
        Content::Other => {
            return false;
        },
    };
    match pos {
        Some(p) => !is_known(list, p),
        None => {
            assert(!known(list@, q));
            true
        },
    }
}

/// Rewards a scan: counts the coins and banks of the rectangle `rect`, scanned
/// from `(row, col)` towards `dir`, whose positions are not among the known
/// ones.
pub fn scan_reward(
    row: usize,
    col: usize,
    rect: &Vec<Vec<Content>>,
    dir: Direction,
    coins: &Vec<(usize, usize)>,
    banks: &Vec<(usize, usize)>,
) -> (r: Reward)
    ensures
        r == scan_outcome(new_in_rect(row, col, dir, rect@, coins@, banks@)),
{
    let mut count: usize = 0;
    let mut i: usize = 0;
    while i < rect.len()
        invariant
            i <= rect@.len(),
            count == capped(new_in_rect(row, col, dir, rect@.take(i as int), coins@, banks@)),
            count == 0 <==> new_in_rect(row, col, dir, rect@.take(i as int), coins@, banks@) == 0,
        decreases rect@.len() - i,
    {
        let cells = &rect[i];
        let ghost before = new_in_rect(row, col, dir, rect@.take(i as int), coins@, banks@);
        let mut j: usize = 0;
        while j < cells.len()
            invariant
                i < rect@.len(),
                cells == rect@[i as int],
                j <= cells@.len(),
                count == capped(before + new_in_row(row, col, dir, i as int, cells@.take(j as int), coins@, banks@)),
                count == 0 <==> before + new_in_row(row, col, dir, i as int, cells@.take(j as int), coins@, banks@) == 0,
            decreases cells@.len() - j,
        {
            let ghost q = scanned_pos(row, col, dir, i as int, j as int);
            let pos = scanned_position(row, col, dir, i, j);
            let fresh = tile_is_new(cells[j], pos, coins, banks, Ghost(q));
            assert(cells@.take(j + 1).drop_last() =~= cells@.take(j as int));
            if fresh && count < usize::MAX {
                count = count + 1;
            }
            j += 1;
        }
        assert(cells@.take(j as int) =~= cells@);
        assert(rect@.take(i + 1).drop_last() =~= rect@.take(i as int));
        i += 1;
    }
    assert(rect@.take(i as int) =~= rect@);
    if count == 0 {
        Reward::NothingFound
    } else {
        Reward::Discovered { count }
    }
}

/// A view whose four orthogonal neighbours all lie off the map marks every
/// direction as dangerous, whatever the costs, elevations and energy.
pub proof fn lemma_border_is_danger(view: Seq<Vec<Option<Cell>>>, energy: usize)
    requires
        is_view(view),
        view[0]@[1].is_none(),
        view[1]@[2].is_none(),
        view[2]@[1].is_none(),
        view[1]@[0].is_none(),
    ensures
        danger_of(view, energy) == (Dirs { up: true, right: true, down: true, left: true }),
{
}

} // verus!
