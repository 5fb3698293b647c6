//! Stigmergic foraging: agents that find food and carry it home, guided by
//! a diffusing, evaporating pheromone field that they themselves lay.
//!
//! Everything is integer arithmetic:
//! - positions are in sub-units, `geometry::UNIT` of them per world unit,
//!   and one world unit is one field cell;
//! - headings are sixteen compass headings, 22.5 degrees apart
//!   (`geometry::dir_x`, `geometry::dir_y` give their unit vectors);
//! - concentrations are field units, `pheromones::LEVEL_ONE` to one unit;
//! - rates are parts of `pheromones::RATE_ONE`, qualities per-mille;
//! - times are milliseconds.
//!
//! Modules, leaves first: `geometry`, `pheromones` (the field),
//! `components` (agents, sources, obstacles), `navigation` (trail choice,
//! hysteresis, trail memory, stuck recovery), `avoidance` (carriers' path
//! home), `movement`, `foraging`, `deposition`, `swarm` (neighbourhood
//! statistics), `monitor` (counters and termination), `config`, and
//! `simulation` (the tick). `chance` draws random numbers.

pub mod geometry;
pub mod pheromones;
pub mod chance;
pub mod components;
pub mod config;
pub mod navigation;
pub mod avoidance;
pub mod movement;
pub mod monitor;
pub mod foraging;
pub mod deposition;
pub mod swarm;
pub mod simulation;
