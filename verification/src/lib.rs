//! Core of a human/robot cooperation study: the synthesis-game graph, the
//! strategy and adviser tables, and the per-step move resolution.

pub mod advisers;
pub mod clock;
pub mod display;
pub mod fault;
pub mod graph;
pub mod grid;
pub mod guard;
pub mod interact;
pub mod invariants;
pub mod moves;
pub mod planner;
pub mod progress;
pub mod resolver;
pub mod results;
pub mod session;
pub mod strategy;
pub mod text;
