//! Bricks as the scene holds them.

use vstd::prelude::*;
use crate::primitives::{Rect, in_range};

verus! {

/// The world axis a brick's up face points along.
#[derive(Clone, Copy, Debug, PartialEq, Eq, Structural)]
pub enum Direction {
    XPositive,
    XNegative,
    YPositive,
    YNegative,
    ZPositive,
    ZNegative,
}

/// Turn of a brick about its up axis.
#[derive(Clone, Copy, Debug, PartialEq, Eq, Structural)]
pub enum Rotation {
    Deg0,
    Deg90,
    Deg180,
    Deg270,
}

/// Half-extents of a brick, or none for a fixed-mesh asset.
#[derive(Clone, Copy, Debug, PartialEq, Eq, Structural)]
pub enum Size {
    Empty,
    Procedural(u32, u32, u32),
}

/// An 8-bit RGBA colour.
#[derive(Clone, Copy, Debug, PartialEq, Eq, Structural)]
pub struct Rgba {
    pub r: u8,
    pub g: u8,
    pub b: u8,
    pub a: u8,
}

/// A brick's colour: an entry of the scene palette, or its own.
#[derive(Clone, Copy, Debug, PartialEq, Eq, Structural)]
pub enum BrickColor {
    Index(u32),
    Unique(Rgba),
}

/// A brick: position of its centre, half-extents, orientation, asset and
/// colour.
#[derive(Clone, Copy, Debug, PartialEq, Eq)]
pub struct Brick {
    pub asset_name_index: u32,
    pub size: Size,
    pub position: (i32, i32, i32),
    pub direction: Direction,
    pub rotation: Rotation,
    pub visibility: bool,
    pub color: BrickColor,
}

/// Half-extents with an unset size read as zero.
pub open spec fn size_of(b: Brick) -> (u32, u32, u32) {
    match b.size {
        Size::Empty => (0, 0, 0),
        Size::Procedural(x, y, z) => (x, y, z),
    }
}

/// Height of a brick's top face.
pub open spec fn top_of(b: Brick) -> int {
    b.position.2 + size_of(b).2
}

/// Height of a brick's bottom face.
pub open spec fn bottom_of(b: Brick) -> int {
    b.position.2 - size_of(b).2
}

/// The brick's footprint in the world plane.
pub open spec fn footprint_of(b: Brick) -> Rect {
    Rect {
        x1: (b.position.0 - size_of(b).0) as i64,
        y1: (b.position.1 - size_of(b).1) as i64,
        x2: (b.position.0 + size_of(b).0) as i64,
        y2: (b.position.1 + size_of(b).1) as i64,
    }
}

/// Half-extents of a brick, zero when unset.
pub fn sizer(brick: &Brick) -> (r: (u32, u32, u32))
    ensures
        r == size_of(*brick),
{
    match brick.size {
        Size::Empty => (0, 0, 0),
        Size::Procedural(x, y, z) => (x, y, z),
    }
}

/// Height of the brick's top face.
pub fn top_surface(brick: &Brick) -> (r: i64)
    ensures
        r == top_of(*brick),
{
    let size = sizer(brick);
    brick.position.2 as i64 + size.2 as i64
}

/// Height of the brick's bottom face.
pub fn bottom_surface(brick: &Brick) -> (r: i64)
    ensures
        r == bottom_of(*brick),
{
    let size = sizer(brick);
    brick.position.2 as i64 - size.2 as i64
}

/// The brick's footprint: its centre plus and minus its plane half-extents.
pub fn footprint(brick: &Brick) -> (r: Rect)
    ensures
        r == footprint_of(*brick),
        r.valid(),
        r.bounded(),
{
    let size = sizer(brick);
    let (x, y) = (brick.position.0 as i64, brick.position.1 as i64);
    let r = Rect {
        x1: x - size.0 as i64,
        y1: y - size.1 as i64,
        x2: x + size.0 as i64,
        y2: y + size.1 as i64,
    };
    assert(in_range(r.x1 as int) && in_range(r.x2 as int));
    r
}

} // verus!
