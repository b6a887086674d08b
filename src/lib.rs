//! Light-curve analysis of an orbiting object: the exact, integer-valued parts
//! of period detection (time ordering, data span, randomized baseline order,
//! closed-cycle pairing) and the object's periodicity belief.
pub mod belief;
pub mod estimator;
pub mod timeline;
