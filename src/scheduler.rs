use vstd::prelude::*;

verus! {

/// Number of independent workers, one per map.
pub const N_WORKERS: usize = 4;
/// Episodes per training worker.
pub const EP: usize = 1000;
/// Longest episode, in ticks.
pub const MAX_EP: usize = 100;
/// Transitions per learning step.
pub const BATCH: usize = 30;
/// Learning steps after each episode.
pub const TRAIN_N: usize = 100;
pub const COINS_STORED_TARGET: usize = 50;
pub const COINS_DESTROYED_TARGET: usize = 60;
/// Hidden layer sizes of the actor, as the command line takes them.
pub const ACTOR_LAYERS: &'static str = "1000 600";
/// Hidden layer sizes of the critic, as the command line takes them.
pub const CRITIC_LAYERS: &'static str = "1000 600";
/// Learning rate of the actor, as the command line takes it.
pub const LR_A: &'static str = "0.0001";
/// Learning rate of the critic, as the command line takes it.
pub const LR_C: &'static str = "0.0004";
pub const TRAIN_BASE: &'static str = "src/save/train/train";
pub const EVAL_BASE: &'static str = "src/save/eval/eval";
pub const MODEL_BASE: &'static str = "src/save/models/model";
pub const MAP_BASE: &'static str = "src/save/maps";

/// The decimal digit `d`.
pub open spec fn digit_char(d: nat) -> char {
    if d == 0 {
        '0'
    } else if d == 1 {
        '1'
    } else if d == 2 {
        '2'
    } else if d == 3 {
        '3'
    } else if d == 4 {
        '4'
    } else if d == 5 {
        '5'
    } else if d == 6 {
        '6'
    } else if d == 7 {
        '7'
    } else if d == 8 {
        '8'
    } else {
        '9'
    }
}

/// `n` written in decimal, without leading zeros.
pub open spec fn decimal(n: nat) -> Seq<char>
    decreases n,
{
    if n < 10 {
        seq![digit_char(n)]
    } else {
        decimal(n / 10) + seq![digit_char(n % 10)]
    }
}

/// File name of the map of worker `i`.
pub open spec fn map_file(i: nat) -> Seq<char> {
    if i == 0 {
        "adj_danger_map.bin"@
    } else if i == 1 {
        "coin_bank_1_away_map.bin"@
    } else if i == 2 {
        "coin_bank_adj_map.bin"@
    } else {
        "test_normal_map.bin"@
    }
}

/// The command line that trains worker `i`.
pub open spec fn train_command(i: nat) -> Seq<char> {
    "cargo run -- -i "@ + decimal(i) + " train -e "@ + decimal(EP as nat) + " -m "@ + decimal(
        MAX_EP as nat,
    ) + " -b "@ + decimal(BATCH as nat) + " -t "@ + decimal(TRAIN_N as nat) + " -s "@ + MAP_BASE@
        + "/"@ + map_file(i) + " -p "@ + MODEL_BASE@ + "_"@ + decimal(i) + ".pt -a "@
        + ACTOR_LAYERS@ + " -c "@ + CRITIC_LAYERS@ + " --lra "@ + LR_A@ + " --lrc "@ + LR_C@
        + " --cst "@ + decimal(COINS_STORED_TARGET as nat) + " --cdt "@ + decimal(
        COINS_DESTROYED_TARGET as nat,
    ) + " --tpp "@ + TRAIN_BASE@ + "_plot_"@ + decimal(i) + ".png --tlp "@ + TRAIN_BASE@
        + "_log_"@ + decimal(i) + ".log --tsp "@ + TRAIN_BASE@ + "_state_"@ + decimal(i)
        + ".log"@
}

/// The command line that evaluates the model of worker `i`.
pub open spec fn eval_command(i: nat) -> Seq<char> {
    "cargo run -- -i "@ + decimal(i) + " eval -m "@ + decimal(MAX_EP as nat) + " -s "@ + MAP_BASE@
        + "/"@ + map_file(i) + " -p "@ + MODEL_BASE@ + "_"@ + decimal(i) + ".pt --cst "@
        + decimal(COINS_STORED_TARGET as nat) + " --cdt "@ + decimal(COINS_DESTROYED_TARGET as nat)
        + " --epp "@ + EVAL_BASE@ + "_plot_"@ + decimal(i) + ".png --elp "@ + EVAL_BASE@ + "_log_"@
        + decimal(i) + ".log --esp "@ + EVAL_BASE@ + "_state_"@ + decimal(i) + ".log"@
}

fn digit_str(d: usize) -> (r: &'static str)
    requires
        d < 10,
    ensures
        r@ == seq![digit_char(d as nat)],
{
    proof {
        reveal_strlit("0");
        reveal_strlit("1");
        reveal_strlit("2");
        reveal_strlit("3");
        reveal_strlit("4");
        reveal_strlit("5");
        reveal_strlit("6");
        reveal_strlit("7");
        reveal_strlit("8");
        reveal_strlit("9");
    }
    let r = if d == 0 {
        "0"
    } else if d == 1 {
        "1"
    } else if d == 2 {
        "2"
    } else if d == 3 {
        "3"
    } else if d == 4 {
        "4"
    } else if d == 5 {
        "5"
    } else if d == 6 {
        "6"
    } else if d == 7 {
        "7"
    } else if d == 8 {
        "8"
    } else {
        "9"
    };
    assert(r@ =~= seq![digit_char(d as nat)]);
    r
}

/// Appends `n` in decimal.
pub fn append_decimal(s: &mut String, n: usize)
    ensures
        final(s)@ == old(s)@ + decimal(n as nat),
    decreases n,
{
    if n >= 10 {
        append_decimal(s, n / 10);
    }
    s.append(digit_str(n % 10));
    assert(final(s)@ =~= old(s)@ + decimal(n as nat));
}

fn map_name(i: usize) -> (r: &'static str)
    requires
        i < N_WORKERS,
    ensures
        r@ == map_file(i as nat),
{
    if i == 0 {
        "adj_danger_map.bin"
    } else if i == 1 {
        "coin_bank_1_away_map.bin"
    } else if i == 2 {
        "coin_bank_adj_map.bin"
    } else {
        "test_normal_map.bin"
    }
}

/// The shell command that trains worker `i` on its map.
pub fn create_train_arg(i: usize) -> (r: String)
    requires
        i < N_WORKERS,
    ensures
        r@ == train_command(i as nat),
{
    let mut s = String::from_str("cargo run -- -i ");
    append_decimal(&mut s, i);
    s.append(" train -e ");
    append_decimal(&mut s, EP);
    s.append(" -m ");
    append_decimal(&mut s, MAX_EP);
    s.append(" -b ");
    append_decimal(&mut s, BATCH);
    s.append(" -t ");
    append_decimal(&mut s, TRAIN_N);
    s.append(" -s ");
    s.append(MAP_BASE);
    s.append("/");
    s.append(map_name(i));
    s.append(" -p ");
    s.append(MODEL_BASE);
    s.append("_");
    append_decimal(&mut s, i);
    s.append(".pt -a ");
    s.append(ACTOR_LAYERS);
    s.append(" -c ");
    s.append(CRITIC_LAYERS);
    s.append(" --lra ");
    s.append(LR_A);
    s.append(" --lrc ");
    s.append(LR_C);
    s.append(" --cst ");
    append_decimal(&mut s, COINS_STORED_TARGET);
    s.append(" --cdt ");
    append_decimal(&mut s, COINS_DESTROYED_TARGET);
    s.append(" --tpp ");
    s.append(TRAIN_BASE);
    s.append("_plot_");
    append_decimal(&mut s, i);
    s.append(".png --tlp ");
    s.append(TRAIN_BASE);
    s.append("_log_");
    append_decimal(&mut s, i);
    s.append(".log --tsp ");
    s.append(TRAIN_BASE);
    s.append("_state_");
    append_decimal(&mut s, i);
    s.append(".log");
    s
}

/// The shell command that evaluates the model of worker `i` on its map.
pub fn create_eval_arg(i: usize) -> (r: String)
    requires
        i < N_WORKERS,
    ensures
        r@ == eval_command(i as nat),
{
    let mut s = String::from_str("cargo run -- -i ");
    append_decimal(&mut s, i);
    s.append(" eval -m ");
    append_decimal(&mut s, MAX_EP);
    s.append(" -s ");
    s.append(MAP_BASE);
    s.append("/");
    s.append(map_name(i));
    s.append(" -p ");
    s.append(MODEL_BASE);
    s.append("_");
    append_decimal(&mut s, i);
    s.append(".pt --cst ");
    append_decimal(&mut s, COINS_STORED_TARGET);
    s.append(" --cdt ");
    append_decimal(&mut s, COINS_DESTROYED_TARGET);
    s.append(" --epp ");
    s.append(EVAL_BASE);
    s.append("_plot_");
    append_decimal(&mut s, i);
    s.append(".png --elp ");
    s.append(EVAL_BASE);
    s.append("_log_");
    append_decimal(&mut s, i);
    s.append(".log --esp ");
    s.append(EVAL_BASE);
    s.append("_state_");
    append_decimal(&mut s, i);
    s.append(".log");
    s
}

} // verus!
