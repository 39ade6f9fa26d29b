//! Decision logic of a reinforcement-learning robot in a tick-driven grid world:
//! action decoding, observation features, the per-tick policy state machine,
//! the transition buffer, and the command lines of the training scheduler.

pub mod action;
pub mod state;
pub mod functions;
pub mod robot;
pub mod memory;
pub mod scheduler;
pub mod params;
