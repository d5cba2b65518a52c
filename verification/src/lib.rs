//! Ownership and hand-over rules for a binding to a geometry engine that is
//! reached through opaque handles.
//!
//! The engine itself is never called from here. Every function takes what the
//! engine answered as a plain value and decides what the binding owns
//! afterwards, what it reports to its caller, and which handles have to be
//! given back to the engine. A handle is the address that the engine
//! returned, as a number; the null handle is `0`. Coordinates and areas are
//! carried, never computed with, so the types that hold them are generic in
//! the number type.
//!
//! - `resource`: the record of who owns one handle, and what is to be
//!   released where something is refused.
//! - `coord_seq`, `geom`, `prepared`: the values that own a coordinate
//!   sequence, a geometry and a prepared geometry, and the hand-over of
//!   several of them to one engine call.
//! - `reply`: how return codes are read.
//! - `types`: the engine's geometry kinds.
//! - `wkt`: text on its way to the engine.
//! - `from_geo`: plans for building rings, polygons and multi-polygons that
//!   are given as points.
//! - `lifecycle`: the engine's start and shutdown.
//! - `error`: the failures that are reported.

pub mod coord_seq;
pub mod error;
pub mod from_geo;
pub mod geom;
pub mod lifecycle;
pub mod prepared;
pub mod reply;
pub mod resource;
pub mod types;
pub mod wkt;
