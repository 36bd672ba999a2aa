//! What a visual element exposes to the batch.

use vstd::prelude::*;
use crate::types::{quad_of, Color, Quad, Rectangle, Scalar, Vector2};

verus! {

/// Where a sprite is, how large, in what color, and which region of the
/// texture it shows.
#[derive(Clone, Copy, Debug, PartialEq)]
pub struct SpriteData<S> {
    pub position: Vector2<S>,
    pub size: Vector2<S>,
    pub color: Color<S>,
    pub texture_coords: Rectangle<S>,
}

/// The quad that a sprite expands to: the rectangle of its position and
/// size at depth zero, in its color, textured with its texture region.
pub open spec fn sprite_quad<S: Scalar>(data: SpriteData<S>) -> Quad<S> {
    quad_of(
        Rectangle { x: data.position.x, y: data.position.y, w: data.size.x, h: data.size.y },
        S::origin(),
        data.color,
        data.texture_coords,
    )
}

/// Anything that can be drawn as one textured quad. An implementation in
/// unverified code lets `sprite_data` return a copy of what
/// `get_sprite_data` hands out.
pub trait Sprite<S: Scalar> {
    /// The data that `get_sprite_data` hands out.
    spec fn sprite_data(&self) -> SpriteData<S>;

    fn get_sprite_data(&self) -> (data: &SpriteData<S>)
        ensures
            *data == self.sprite_data(),
    ;
}

impl<S: Scalar> Sprite<S> for SpriteData<S> {
    open spec fn sprite_data(&self) -> SpriteData<S> {
        *self
    }

    fn get_sprite_data(&self) -> (data: &SpriteData<S>) {
        self
    }
}

impl<S: Scalar> SpriteData<S> {
    /// Expands the sprite to its four corner vertices.
    pub fn to_quad(&self) -> (quad: Quad<S>)
        ensures
            quad == sprite_quad(*self),
    {
        Quad::new(
            Rectangle::new(self.position.x, self.position.y, self.size.x, self.size.y),
            self.color,
            self.texture_coords,
        )
    }
}

} // verus!
