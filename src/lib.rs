//! A top-down simulation in fixed-point integers: a player moved by keys
//! under acceleration, a speed cap and friction, aimed at a pointer, firing
//! projectiles that expire after a fixed lifespan.
//!
//! `geom` holds integer vectors and their scaling, `sim` the rules for a
//! single entity, `world` the entity store with one system per rule, and
//! `laws` the properties that hold across calls.
use vstd::prelude::*;

pub mod geom;
pub mod laws;
pub mod sim;
pub mod world;

verus! {

} // verus!
