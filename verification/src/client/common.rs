//! Grid positions and drawing layers.

use vstd::prelude::*;

verus! {

/// A discrete position in the world, with x and y being integral numbers.
/// Used among other things for positioning tiles, which are always snapped
/// to the grid.
#[derive(Clone, Copy, Debug, PartialEq, Eq, Structural, PartialOrd, Ord, Hash)]
pub struct Pos {
    pub x: i32,
    pub y: i32,
}

/// Whether `a + b` is a 32-bit signed number.
pub open spec fn sum_fits(a: i32, b: i32) -> bool {
    i32::MIN <= a + b <= i32::MAX
}

/// Whether `a - b` is a 32-bit signed number.
pub open spec fn difference_fits(a: i32, b: i32) -> bool {
    i32::MIN <= a - b <= i32::MAX
}

impl Pos {
    pub fn new(x: i32, y: i32) -> (p: Self)
        ensures
            p == (Pos { x, y }),
    {
        Pos { x, y }
    }

    /// The position `x` further along the x axis.
    pub fn append_x(self, x: i32) -> (p: Self)
        requires
            sum_fits(self.x, x),
        ensures
            p.x == self.x + x,
            p.y == self.y,
    {
        Pos::new(self.x + x, self.y)
    }

    /// The position `y` further along the y axis.
    pub fn append_y(self, y: i32) -> (p: Self)
        requires
            sum_fits(self.y, y),
        ensures
            p.x == self.x,
            p.y == self.y + y,
    {
        Pos::new(self.x, self.y + y)
    }

    /// The position `x` and `y` further along the two axes.
    pub fn append_xy(self, x: i32, y: i32) -> (p: Self)
        requires
            sum_fits(self.x, x),
            sum_fits(self.y, y),
        ensures
            p.x == self.x + x,
            p.y == self.y + y,
    {
        Pos::new(self.x + x, self.y + y)
    }
}

impl Default for Pos {
    fn default() -> (p: Self)
        ensures
            p == (Pos { x: 0, y: 0 }),
    {
        Pos { x: 0, y: 0 }
    }
}

impl core::ops::Add for Pos {
    type Output = Pos;

    fn add(self, other: Pos) -> (p: Pos) {
        Pos::new(self.x + other.x, self.y + other.y)
    }
}

impl vstd::std_specs::ops::AddSpecImpl for Pos {
    open spec fn obeys_add_spec() -> bool {
        true
    }

    open spec fn add_req(self, other: Pos) -> bool {
        sum_fits(self.x, other.x) && sum_fits(self.y, other.y)
    }

    open spec fn add_spec(self, other: Pos) -> Pos {
        Pos { x: (self.x + other.x) as i32, y: (self.y + other.y) as i32 }
    }
}

impl core::ops::Sub for Pos {
    type Output = Pos;

    fn sub(self, other: Pos) -> (p: Pos) {
        Pos::new(self.x - other.x, self.y - other.y)
    }
}

impl vstd::std_specs::ops::SubSpecImpl for Pos {
    open spec fn obeys_sub_spec() -> bool {
        true
    }

    open spec fn sub_req(self, other: Pos) -> bool {
        difference_fits(self.x, other.x) && difference_fits(self.y, other.y)
    }

    open spec fn sub_spec(self, other: Pos) -> Pos {
        Pos { x: (self.x - other.x) as i32, y: (self.y - other.y) as i32 }
    }
}

/// The layer a thing is drawn on; things on a higher layer cover those below.
#[derive(Debug, Copy, Clone, PartialEq, Eq, Structural)]
pub enum DepthLayer {
    Background,
    DebugLines,
    Blocks,
    Selection,
    Cursor,
    FloatingBlocks,
    Enemies,
    Player,
    Particles,
    /// Any UI elements that exist in world space.
    UiElements,
    Camera,
}

/// How far from the background a layer lies.
pub open spec fn depth_of(layer: DepthLayer) -> u16 {
    match layer {
        DepthLayer::Background => 0,
        DepthLayer::DebugLines => 1,
        DepthLayer::Blocks => 100,
        DepthLayer::Selection => 101,
        DepthLayer::Cursor => 102,
        DepthLayer::FloatingBlocks => 110,
        DepthLayer::Enemies => 120,
        DepthLayer::Player => 130,
        DepthLayer::Particles => 140,
        DepthLayer::UiElements => 200,
        DepthLayer::Camera => 300,
    }
}

impl DepthLayer {
    /// How far from the background this layer lies, as a whole number.
    #[must_use]
    pub fn z_index(self) -> (z: u16)
        ensures
            z == depth_of(self),
    {
        match self {
            DepthLayer::Background => 0,
            DepthLayer::DebugLines => 1,
            DepthLayer::Blocks => 100,
            DepthLayer::Selection => 101,
            DepthLayer::Cursor => 102,
            DepthLayer::FloatingBlocks => 110,
            DepthLayer::Enemies => 120,
            DepthLayer::Player => 130,
            DepthLayer::Particles => 140,
            DepthLayer::UiElements => 200,
            DepthLayer::Camera => 300,
        }
    }
}

impl Default for DepthLayer {
    fn default() -> (layer: Self)
        ensures
            layer == DepthLayer::Blocks,
    {
        DepthLayer::Blocks
    }
}

} // verus!
