//! Core logic of a small statistics web site: the live counters that a
//! companion process pushes, the authorization of those pushes, the
//! template context built from the counters, and the decisions of the
//! static-file route.

pub mod stats;
pub mod page;
pub mod assets;
