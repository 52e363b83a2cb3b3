//! Movement ledger and integrator decisions for simulated entities.
//!
//! Every number is held as the bit pattern of an IEEE-754 single-precision
//! value. The library decides what happens to named movement effects from
//! tick to tick; the arithmetic on the numbers themselves is asked of the
//! caller, one piece of work at a time.
//!
//! A tick of one entity: producers submit requests with `Movements::add`;
//! `Movements::begin_tick` folds them into the effects and starts the
//! dynamics pass; for as long as a pass comes back the caller does the work
//! it names and hands the result to `Movements::advance_update`; the sum of
//! `Movements::velocities` is the net velocity, by which
//! `incorporate_velocity` moves the entity.

pub mod scalar;
pub mod vector;
pub mod request;
pub mod effect;
pub mod step;
pub mod named;
pub mod ledger;
pub mod position;
pub mod laws;
