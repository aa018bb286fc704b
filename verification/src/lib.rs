//! Startup wiring for an entity-component-system game: the resource and
//! configuration paths resolved at launch, the ordered plan of systems handed
//! to the engine's dispatcher builder, and the transition rule of the
//! pass-through state wrapper that delegates to an optional inner state.

pub mod config;
pub mod paths;
pub mod plan;
pub mod state;
