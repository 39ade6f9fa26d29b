use vstd::prelude::*;

verus! {

/// Settings of an evaluation run.
pub struct EvalParameters {
    /// Map path
    pub save_map_path: String,
    /// Model load path
    pub path_model: String,
    /// Maximum episode length
    pub max_ep_len: usize,
    /// How many coins the robot has to destroy to mark an episode as done
    pub coins_destroyed_target: usize,
    /// How many coins the robot has to store to mark an episode as done
    pub coins_stored_target: usize,
    /// Eval plot path
    pub eval_plot_path: String,
    /// Eval log path
    pub eval_log_path: String,
    /// Eval state path
    pub eval_state_path: String,
}

} // verus!
