//! The remote side of the runtime: the registry bridging wire-level handler
//! names to compiled handler implementations.

pub mod actor;
