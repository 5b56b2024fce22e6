//! Paddles and ball: a sized box with a position, a velocity and the place
//! it started from.

use vstd::prelude::*;
use crate::state::fixed::{quot, UNIT};

verus! {

/// A point or a displacement of the plane, in fixed-point steps.
#[derive(Clone, Copy, Debug, PartialEq, Eq, Structural)]
pub struct Vec2 {
    pub x: i64,
    pub y: i64,
}

/// What a [`Vec2`] stands for: a pair of integers.
pub struct Vec2View {
    pub x: int,
    pub y: int,
}

impl Vec2View {
    /// The sum of two displacements.
    pub open spec fn plus(self, other: Vec2View) -> Vec2View {
        Vec2View { x: self.x + other.x, y: self.y + other.y }
    }
}

impl View for Vec2 {
    type V = Vec2View;

    open spec fn view(&self) -> Vec2View {
        Vec2View { x: self.x as int, y: self.y as int }
    }
}

impl Vec2 {
    /// The vector with the given coordinates.
    pub fn new(x: i64, y: i64) -> (r: Vec2)
        ensures
            r.x == x,
            r.y == y,
    {
        Vec2 { x, y }
    }

    /// The vector of no displacement.
    pub fn zero() -> (r: Vec2)
        ensures
            r.x == 0,
            r.y == 0,
    {
        Vec2 { x: 0, y: 0 }
    }
}

/// The visual size of an entity, in whole pixels.
#[derive(Clone, Copy, Debug, PartialEq, Eq, Structural)]
pub struct Size {
    pub width: i32,
    pub height: i32,
}

impl Size {
    /// The size of the given width and height.
    pub fn new(width: i32, height: i32) -> (r: Size)
        ensures
            r.width == width,
            r.height == height,
    {
        Size { width, height }
    }
}

/// An axis-aligned box: its top-left corner, its width and its height.
#[derive(Clone, Copy, Debug, PartialEq, Eq, Structural)]
pub struct Rectangle {
    pub x: i64,
    pub y: i64,
    pub width: i64,
    pub height: i64,
}

/// What a [`Rectangle`] stands for.
pub struct RectangleView {
    pub x: int,
    pub y: int,
    pub width: int,
    pub height: int,
}

impl RectangleView {
    /// The coordinate just past the right edge.
    pub open spec fn right(self) -> int {
        self.x + self.width
    }

    /// The coordinate just past the bottom edge.
    pub open spec fn bottom(self) -> int {
        self.y + self.height
    }

    /// Whether the two boxes share a point of their interiors: touching
    /// edges do not count.
    pub open spec fn intersects(self, other: RectangleView) -> bool {
        &&& self.x < other.right()
        &&& self.right() > other.x
        &&& self.y < other.bottom()
        &&& self.bottom() > other.y
    }

    /// Whether the far edges are machine integers, as the near ones are.
    pub open spec fn representable(self) -> bool {
        &&& i64::MIN <= self.right() <= i64::MAX
        &&& i64::MIN <= self.bottom() <= i64::MAX
    }
}

impl View for Rectangle {
    type V = RectangleView;

    open spec fn view(&self) -> RectangleView {
        RectangleView {
            x: self.x as int,
            y: self.y as int,
            width: self.width as int,
            height: self.height as int,
        }
    }
}

impl Rectangle {
    /// The box with the given corner and extent.
    pub fn new(x: i64, y: i64, width: i64, height: i64) -> (r: Rectangle)
        ensures
            r.x == x,
            r.y == y,
            r.width == width,
            r.height == height,
    {
        Rectangle { x, y, width, height }
    }

    /// Whether `other` overlaps this box.
    pub fn intersects(&self, other: &Rectangle) -> (r: bool)
        requires
            self@.representable(),
            other@.representable(),
        ensures
            r == self@.intersects(other@),
    {
        self.x < other.x + other.width && self.x + self.width > other.x && self.y < other.y
            + other.height && self.y + self.height > other.y
    }
}

/// A paddle or the ball.
#[derive(Clone, Copy, Debug, PartialEq, Eq, Structural)]
pub struct Entity {
    /// The visual size; it never changes.
    pub size: Size,
    /// Where the top-left corner is now.
    pub position: Vec2,
    /// Where the entity was created, and returns to on a reset.
    pub original: Vec2,
    /// The displacement per frame.
    pub velocity: Vec2,
}

/// What an [`Entity`] stands for. The extent is in fixed-point steps, like
/// the coordinates.
pub struct EntityView {
    pub width: int,
    pub height: int,
    pub position: Vec2View,
    pub original: Vec2View,
    pub velocity: Vec2View,
}

impl EntityView {
    /// The entity one Euler step later: moved by its velocity.
    pub open spec fn advance(self) -> EntityView {
        EntityView { position: self.position.plus(self.velocity), ..self }
    }

    /// The bounding box.
    pub open spec fn bounds(self) -> RectangleView {
        RectangleView {
            x: self.position.x,
            y: self.position.y,
            width: self.width,
            height: self.height,
        }
    }

    /// Whether the bounding boxes of the two entities overlap.
    pub open spec fn intersects(self, other: EntityView) -> bool {
        self.bounds().intersects(other.bounds())
    }

    /// The vertical coordinate of the middle of the box.
    pub open spec fn y_coordinate_centre(self) -> int {
        self.position.y + quot(self.height, 2)
    }

    /// The entity back where it was created, with the given velocity.
    pub open spec fn reset(self, velocity: Vec2View) -> EntityView {
        EntityView { position: self.original, velocity, ..self }
    }

    /// Whether every coordinate and speed is at most `limit` in magnitude.
    pub open spec fn within(self, limit: int) -> bool {
        &&& -limit <= self.position.x <= limit
        &&& -limit <= self.position.y <= limit
        &&& -limit <= self.original.x <= limit
        &&& -limit <= self.original.y <= limit
        &&& -limit <= self.velocity.x <= limit
        &&& -limit <= self.velocity.y <= limit
    }
}

impl View for Entity {
    type V = EntityView;

    open spec fn view(&self) -> EntityView {
        EntityView {
            width: self.size.width * UNIT,
            height: self.size.height * UNIT,
            position: self.position@,
            original: self.original@,
            velocity: self.velocity@,
        }
    }
}

impl Entity {
    /// An entity at rest at `position`.
    pub fn new(size: Size, position: Vec2) -> (r: Entity)
        ensures
            r.size == size,
            r.position == position,
            r.original == position,
            r.velocity == (Vec2 { x: 0, y: 0 }),
    {
        Entity::with_velocity(size, position, Vec2::zero())
    }

    /// An entity at `position`, moving with `velocity`.
    pub fn with_velocity(size: Size, position: Vec2, velocity: Vec2) -> (r: Entity)
        ensures
            r.size == size,
            r.position == position,
            r.original == position,
            r.velocity == velocity,
    {
        Entity { size, position, original: position, velocity }
    }

    /// Moves the entity by its velocity.
    pub fn update(&mut self)
        requires
            i64::MIN <= old(self).position.x + old(self).velocity.x <= i64::MAX,
            i64::MIN <= old(self).position.y + old(self).velocity.y <= i64::MAX,
        ensures
            final(self)@ == old(self)@.advance(),
            final(self).size == old(self).size,
    {
        self.position.x = self.position.x + self.velocity.x;
        self.position.y = self.position.y + self.velocity.y;
    }

    /// The width in fixed-point steps.
    pub fn width(&self) -> (r: i64)
        ensures
            r == self@.width,
    {
        self.size.width as i64 * UNIT
    }

    /// The height in fixed-point steps.
    pub fn height(&self) -> (r: i64)
        ensures
            r == self@.height,
    {
        self.size.height as i64 * UNIT
    }

    /// The bounding box.
    pub fn bounds(&self) -> (r: Rectangle)
        ensures
            r@ == self@.bounds(),
    {
        Rectangle::new(self.position.x, self.position.y, self.width(), self.height())
    }

    /// Whether the bounding boxes of the two entities overlap.
    pub fn intersects(&self, entity: &Entity) -> (r: bool)
        requires
            self@.bounds().representable(),
            entity@.bounds().representable(),
        ensures
            r == self@.intersects(entity@),
    {
        self.bounds().intersects(&entity.bounds())
    }

    /// The vertical coordinate of the middle of the box.
    pub fn y_coordinate_centre(&self) -> (r: i64)
        requires
            i64::MIN <= self@.y_coordinate_centre() <= i64::MAX,
        ensures
            r == self@.y_coordinate_centre(),
    {
        self.position.y + (self.height() / 2)
    }

    /// Puts the entity back where it was created and gives it `velocity`.
    pub fn reset(&mut self, velocity: Vec2)
        ensures
            final(self)@ == old(self)@.reset(velocity@),
            final(self).size == old(self).size,
    {
        self.position.x = self.original.x;
        self.position.y = self.original.y;
        self.velocity = velocity;
    }
}

} // verus!
