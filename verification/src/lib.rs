//! Turn-based combat resolution: whose turn it is, what a click means,
//! what an attack does to its target, and who gets told about it.

pub mod button;
pub mod combat;
pub mod eventbus;
pub mod eventlog;
pub mod game;
pub mod monster;
pub mod turn_order;
