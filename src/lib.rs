//! Bookkeeping and structure of a gradient-ascent search for thruster
//! placements: the score breakdown of a configuration and its weights, the
//! symmetric eight-motor layout, the parameterisations' index structure, the
//! cardinal axes, the bracketing search of a measured motor curve, and the
//! population of seeds with its stagnation rule and ranking.

pub mod heuristic;
pub mod progress;
pub mod population;
pub mod motor_code;
pub mod optimize;
pub mod table;
pub mod axis;
