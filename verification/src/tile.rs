//! Markers for what a scene holds.
use vstd::prelude::*;

verus! {

/// Marks a tile of the map.
#[derive(Clone, Copy, Debug, PartialEq, Eq)]
pub struct MapTile;

} // verus!
