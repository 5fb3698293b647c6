use vstd::prelude::*;
use crate::deposition::MAX_LAY_RATE;
use crate::pheromones::{LEVEL_ONE, MAX_SIDE, RATE_ONE};

verus! {

/// The flat configuration of a run. Rates are in parts of `RATE_ONE`,
/// lay rates, threshold and saturation in field units, the quality
/// weight in percent.
#[derive(Clone, Copy, Debug)]
pub struct SimConfig {
    pub world_size: usize,
    pub initial_ants: usize,
    pub food_sources: usize,
    pub evap_food: u64,
    pub evap_nest: u64,
    pub evap_alarm: u64,
    pub diff_food: u64,
    pub diff_nest: u64,
    pub diff_alarm: u64,
    pub lay_rate_food: u64,
    pub lay_rate_nest: u64,
    pub food_quality_weight: u64,
    pub detection_threshold: u64,
    pub saturation_limit: u64,
}

/// Largest number of agents, or of food sources, in a world.
pub const MAX_AGENTS: usize = 10_000;

impl SimConfig {
    /// Every rate within `RATE_ONE`, a world of positive even size within
    /// `MAX_SIDE`, counts within `MAX_AGENTS`, positive saturation.
    pub open spec fn wf(&self) -> bool {
        &&& 0 < self.world_size <= MAX_SIDE
        &&& self.world_size % 2 == 0
        &&& self.initial_ants <= MAX_AGENTS
        &&& self.food_sources <= MAX_AGENTS
        &&& self.evap_food <= RATE_ONE
        &&& self.evap_nest <= RATE_ONE
        &&& self.evap_alarm <= RATE_ONE
        &&& self.diff_food <= RATE_ONE
        &&& self.diff_nest <= RATE_ONE
        &&& self.diff_alarm <= RATE_ONE
        &&& self.lay_rate_food <= MAX_LAY_RATE
        &&& self.lay_rate_nest <= MAX_LAY_RATE
        &&& self.food_quality_weight <= 1000
        &&& 0 < self.saturation_limit
    }

    /// Checks `wf` at run time.
    pub fn is_valid(&self) -> (r: bool)
        ensures
            r == self.wf(),
    {
        0 < self.world_size && self.world_size <= MAX_SIDE && self.world_size % 2 == 0
            && self.initial_ants <= MAX_AGENTS && self.food_sources <= MAX_AGENTS
            && self.evap_food <= RATE_ONE && self.evap_nest <= RATE_ONE && self.evap_alarm <= RATE_ONE
            && self.diff_food <= RATE_ONE && self.diff_nest <= RATE_ONE && self.diff_alarm <= RATE_ONE
            && self.lay_rate_food <= MAX_LAY_RATE && self.lay_rate_nest <= MAX_LAY_RATE
            && self.food_quality_weight <= 1000 && 0 < self.saturation_limit
    }
}

impl Default for SimConfig {
    /// A 1000-unit world with 50 agents and 10 food sources.
    fn default() -> (r: SimConfig)
        ensures
            r.wf(),
            r.world_size == 1000,
            r.initial_ants == 50,
            r.food_sources == 10,
    {
        SimConfig {
            world_size: 1000,
            initial_ants: 50,
            food_sources: 10,
            evap_food: 200,
            evap_nest: 500,
            evap_alarm: 10_000,
            diff_food: 150_000,
            diff_nest: 50_000,
            diff_alarm: 200_000,
            lay_rate_food: 42 * LEVEL_ONE,
            lay_rate_nest: 25 * LEVEL_ONE,
            food_quality_weight: 100,
            detection_threshold: 800,
            saturation_limit: 10 * LEVEL_ONE,
        }
    }
}

} // verus!
