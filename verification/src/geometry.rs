//! Packed geometric arguments, in the layout the native calls take them.

use vstd::prelude::*;

verus! {

/// An extent in three dimensions.
#[derive(Copy, Clone, Debug, PartialEq, Eq, Structural)]
pub struct MTLSize {
    pub w: u64,
    pub h: u64,
    pub d: u64,
}

impl MTLSize {
    /// `(width, height, depth)` packed.
    pub open spec fn packed(extent: (u64, u64, u64)) -> MTLSize {
        MTLSize { w: extent.0, h: extent.1, d: extent.2 }
    }

    /// Packs `(width, height, depth)`.
    pub fn from_tuple(extent: (u64, u64, u64)) -> (size: MTLSize)
        ensures
            size == MTLSize::packed(extent),
    {
        MTLSize { w: extent.0, h: extent.1, d: extent.2 }
    }
}

/// A box inside a texture: its origin and its extent.
#[derive(Copy, Clone, Debug, PartialEq, Eq, Structural)]
pub struct MTLRegion {
    pub x: u64,
    pub y: u64,
    pub z: u64,
    pub width: u64,
    pub height: u64,
    pub depth: u64,
}

impl MTLRegion {
    /// The rectangle `(x, y, width, height)` as a region of the first plane: `z` is 0 and
    /// the depth is 1.
    pub open spec fn flat(rectangle: (u64, u64, u64, u64)) -> MTLRegion {
        MTLRegion {
            x: rectangle.0,
            y: rectangle.1,
            z: 0,
            width: rectangle.2,
            height: rectangle.3,
            depth: 1,
        }
    }

    /// The box `(x, y, z, width, height, depth)` as a region.
    pub open spec fn solid(extent: (u64, u64, u64, u64, u64, u64)) -> MTLRegion {
        MTLRegion {
            x: extent.0,
            y: extent.1,
            z: extent.2,
            width: extent.3,
            height: extent.4,
            depth: extent.5,
        }
    }

    /// Packs the rectangle `(x, y, width, height)` as a region of the first plane:
    /// `z` is 0 and the depth is 1.
    pub fn from_rectangle(rectangle: (u64, u64, u64, u64)) -> (region: MTLRegion)
        ensures
            region == MTLRegion::flat(rectangle),
    {
        MTLRegion {
            x: rectangle.0,
            y: rectangle.1,
            z: 0,
            width: rectangle.2,
            height: rectangle.3,
            depth: 1,
        }
    }

    /// Packs the box `(x, y, z, width, height, depth)`.
    pub fn from_box(extent: (u64, u64, u64, u64, u64, u64)) -> (region: MTLRegion)
        ensures
            region == MTLRegion::solid(extent),
    {
        MTLRegion {
            x: extent.0,
            y: extent.1,
            z: extent.2,
            width: extent.3,
            height: extent.4,
            depth: extent.5,
        }
    }
}

} // verus!
