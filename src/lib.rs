//! Planning and rendering of flattened debug representations for sum types.
//!
//! Given the structural description of a sum type ([`model`]), the planner
//! ([`plan`]) reads each variant's `debug(skip)` / `debug(flatten)` directives
//! ([`directive`]) and selects how the variant is shown; the renderer
//! ([`render`]) turns a plan and the payload's own representations into text,
//! in the compact or in the expanded mode ([`layout`]). The laws that relate
//! them are stated and proved in [`laws`].
use vstd::prelude::*;

pub mod directive;
pub mod laws;
pub mod layout;
pub mod model;
pub mod plan;
pub mod render;
pub mod text;

pub use plan::derive_debug_flat;

verus! {

} // verus!
