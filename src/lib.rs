//! Synchronisation between an entity-component world and a host scene graph:
//! the component schema, the spawn decisions that turn scene templates into
//! host nodes, and the setters that replicate transform state onto them.
//!
//! Floating-point attributes are carried as their IEEE-754 bit patterns
//! (`f32::to_bits` / `f64::to_bits`), so that the logic stays exact.

pub mod components;
pub mod replicate;
pub mod spawn;
