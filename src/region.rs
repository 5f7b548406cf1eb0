use vstd::prelude::*;

verus! {

/// A point in the compositor's logical coordinate space.
#[derive(Debug, Clone, Copy, PartialEq, Eq, Structural)]
pub struct Position {
    pub x: i32,
    pub y: i32,
}

/// A width and height in pixels.
#[derive(Debug, Clone, Copy, PartialEq, Eq, Structural)]
pub struct Size {
    pub width: u32,
    pub height: u32,
}

/// A rectangle: its top-left corner and its size.
#[derive(Debug, Clone, Copy, PartialEq, Eq, Structural)]
pub struct Region {
    pub position: Position,
    pub size: Size,
}

/// A region in logical coordinates, that is with the output's transform
/// already applied.
#[derive(Debug, Clone, Copy, PartialEq, Eq, Structural)]
pub struct LogicalRegion {
    pub inner: Region,
}

impl Size {
    /// The empty size.
    pub fn zero() -> (r: Size)
        ensures
            r.width == 0 && r.height == 0,
    {
        Size { width: 0, height: 0 }
    }
}

/// The two rectangles share at least one pixel.
pub open spec fn regions_overlap(a: Region, b: Region) -> bool {
    &&& a.size.width > 0 && a.size.height > 0
    &&& b.size.width > 0 && b.size.height > 0
    &&& a.position.x < b.position.x + b.size.width
    &&& b.position.x < a.position.x + a.size.width
    &&& a.position.y < b.position.y + b.size.height
    &&& b.position.y < a.position.y + a.size.height
}

/// The part of `r` that lies on `output`, in coordinates relative to the
/// output's top-left corner; `None` when they share no pixel or the offset
/// does not fit an `i32`.
pub open spec fn clip_relative(r: Region, output: Region) -> Option<Region> {
    let x0 = if r.position.x >= output.position.x { r.position.x as int } else { output.position.x as int };
    let y0 = if r.position.y >= output.position.y { r.position.y as int } else { output.position.y as int };
    let rx1 = r.position.x + r.size.width;
    let ox1 = output.position.x + output.size.width;
    let ry1 = r.position.y + r.size.height;
    let oy1 = output.position.y + output.size.height;
    let x1 = if rx1 <= ox1 { rx1 } else { ox1 };
    let y1 = if ry1 <= oy1 { ry1 } else { oy1 };
    if !regions_overlap(r, output) || x0 - output.position.x > i32::MAX || y0 - output.position.y
        > i32::MAX {
        None
    } else {
        Some(
            Region {
                position: Position {
                    x: (x0 - output.position.x) as i32,
                    y: (y0 - output.position.y) as i32,
                },
                size: Size { width: (x1 - x0) as u32, height: (y1 - y0) as u32 },
            },
        )
    }
}

impl Region {
    /// Whether the two rectangles share at least one pixel.
    pub fn intersects(&self, other: &Region) -> (r: bool)
        ensures
            r == regions_overlap(*self, *other),
    {
        let ax = self.position.x as i64;
        let ay = self.position.y as i64;
        let bx = other.position.x as i64;
        let by = other.position.y as i64;
        self.size.width > 0 && self.size.height > 0 && other.size.width > 0 && other.size.height
            > 0 && ax < bx + other.size.width as i64 && bx < ax + self.size.width as i64 && ay < by
            + other.size.height as i64 && by < ay + self.size.height as i64
    }

    /// The part of this region that lies on `output`, relative to the
    /// output's top-left corner.
    pub fn relative_to(&self, output: &Region) -> (r: Option<Region>)
        ensures
            r == clip_relative(*self, *output),
    {
        if !self.intersects(output) {
            return None;
        }
        let rx = self.position.x as i64;
        let ry = self.position.y as i64;
        let ox = output.position.x as i64;
        let oy = output.position.y as i64;
        let x0: i64 = if rx >= ox { rx } else { ox };
        let y0: i64 = if ry >= oy { ry } else { oy };
        let rx1: i64 = rx + self.size.width as i64;
        let ox1: i64 = ox + output.size.width as i64;
        let ry1: i64 = ry + self.size.height as i64;
        let oy1: i64 = oy + output.size.height as i64;
        let x1: i64 = if rx1 <= ox1 { rx1 } else { ox1 };
        let y1: i64 = if ry1 <= oy1 { ry1 } else { oy1 };
        if x0 - ox > i32::MAX as i64 || y0 - oy > i32::MAX as i64 {
            return None;
        }
        Some(
            Region {
                position: Position { x: (x0 - ox) as i32, y: (y0 - oy) as i32 },
                size: Size { width: (x1 - x0) as u32, height: (y1 - y0) as u32 },
            },
        )
    }
}

impl LogicalRegion {
    /// The empty region at the origin.
    pub fn zero() -> (r: LogicalRegion)
        ensures
            r.inner.position.x == 0 && r.inner.position.y == 0,
            r.inner.size.width == 0 && r.inner.size.height == 0,
    {
        LogicalRegion { inner: Region { position: Position { x: 0, y: 0 }, size: Size::zero() } }
    }
}

} // verus!
