//! Emission state of a particle emitter: the spread index that walks the
//! emission shape from one particle to the next, and the emission mode that
//! decides, for each particle, whether it is sampled at random or from the
//! next slice of the shape.

pub mod mode;
pub mod spread;

pub use mode::{EmissionMode, EmissionPlan};
pub use spread::{EmissionSpread, SpreadLoopMode, INDEX_ONE};
