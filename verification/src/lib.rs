//! A die-roll controller and a building catalogue, decoupled from any game
//! engine and verified with Verus.
//!
//! Every real-valued quantity is held in fixed point: an integer count of
//! millionths of a unit. Time is held in whole nanoseconds.

pub mod assets;
pub mod classifier;
pub mod die;
pub mod fixed;
pub mod forces;
pub mod laws;
pub mod suburban;
pub mod timer;
