//! Tilemap geometry: the mapping between map-grid coordinates and local
//! coordinates under a linear tile projection (rectangular or axonometric),
//! the map's bounding box, the tile-atlas layout, the overhang directions a
//! renderer resamples, and the tile-index grid with its permissive bounds.
//!
//! All coordinates are exact rationals, so the conversions are proved exact.
pub mod map;
pub mod map_builder;
pub mod map_uniform;
pub mod math;
pub mod overhang;
pub mod tile_projection;
