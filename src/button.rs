use vstd::prelude::*;

verus! {

/// A rectangular, labelled widget. Its position and size are in whole pixels.
#[derive(Debug)]
pub struct Button {
    pub x: i32,
    pub y: i32,
    pub width: u32,
    pub height: u32,
    pub label: String,
}

/// One non-indexed draw command.
#[derive(Clone, Copy, Debug, PartialEq, Eq, Structural)]
pub struct DrawCall {
    pub vertex_count: u32,
    pub instance_count: u32,
    pub first_vertex: u32,
    pub first_instance: u32,
}

/// Number of vertices the button's quad is drawn with: two triangles.
pub const BUTTON_VERTEX_COUNT: u32 = 6;

impl Button {
    /// The point lies in the button's rectangle, edges included.
    pub open spec fn contains(self, px: int, py: int) -> bool {
        &&& self.x <= px <= self.x + self.width
        &&& self.y <= py <= self.y + self.height
    }

    /// Creates a button at `(x, y)` of the given size and label.
    pub fn new(x: i32, y: i32, width: u32, height: u32, label: &str) -> (r: Button)
        ensures
            r.x == x,
            r.y == y,
            r.width == width,
            r.height == height,
            r.label@ == label@,
    {
        Button { x, y, width, height, label: label.to_owned() }
    }

    /// Whether a click at `(px, py)` hits the button, edges included.
    pub fn handle_click(&self, px: i32, py: i32) -> (r: bool)
        ensures
            r == self.contains(px as int, py as int),
    {
        let right: i64 = self.x as i64 + self.width as i64;
        let bottom: i64 = self.y as i64 + self.height as i64;
        px >= self.x && (px as i64) <= right && py >= self.y && (py as i64) <= bottom
    }

    /// The corners of the button's quad, clockwise from the top left.
    pub fn vertices(&self) -> (r: Vec<(i64, i64)>)
        ensures
            r@ == seq![
                (self.x as i64, self.y as i64),
                ((self.x + self.width) as i64, self.y as i64),
                ((self.x + self.width) as i64, (self.y + self.height) as i64),
                (self.x as i64, (self.y + self.height) as i64),
            ],
    {
        let left: i64 = self.x as i64;
        let top: i64 = self.y as i64;
        let right: i64 = left + self.width as i64;
        let bottom: i64 = top + self.height as i64;
        let mut r: Vec<(i64, i64)> = Vec::new();
        r.push((left, top));
        r.push((right, top));
        r.push((right, bottom));
        r.push((left, bottom));
        r
    }

    /// The draw command that renders the button's quad with the bound pipeline.
    pub fn draw(&self) -> (r: DrawCall)
        ensures
            r == (DrawCall {
                vertex_count: BUTTON_VERTEX_COUNT,
                instance_count: 1,
                first_vertex: 0,
                first_instance: 0,
            }),
    {
        DrawCall {
            vertex_count: BUTTON_VERTEX_COUNT,
            instance_count: 1,
            first_vertex: 0,
            first_instance: 0,
        }
    }
}

/// Every corner of a button lies inside it, so hit testing includes both the
/// lower and the upper edges, and a point one pixel past an edge is outside.
pub proof fn lemma_hit_test_edges(b: Button)
    ensures
        b.contains(b.x as int, b.y as int),
        b.contains(b.x + b.width, b.y + b.height),
        !b.contains(b.x + b.width + 1, b.y as int),
        !b.contains(b.x - 1, b.y as int),
        !b.contains(b.x as int, b.y + b.height + 1),
        !b.contains(b.x as int, b.y - 1),
{
}

} // verus!
