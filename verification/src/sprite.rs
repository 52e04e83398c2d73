//! The per-quad inputs: placement, flip, tint, and the sprite-sheet data a
//! sprite is cut from.

use vstd::prelude::*;
use crate::scalar::{Matrix4, Scalar, Vector2};

verus! {

/// Handle to a texture. Two handles name the same texture exactly when their
/// ids are equal; the batcher groups and sorts by this id and never looks
/// behind it.
#[derive(Clone, Copy, Debug, PartialEq, Eq, Structural)]
pub struct TextureHandle {
    pub id: u32,
}

impl TextureHandle {
    pub open spec fn spec_id(&self) -> u32 {
        self.id
    }

    #[verifier::when_used_as_spec(spec_id)]
    pub fn id(&self) -> (id: u32)
        ensures
            id == self.id,
    {
        self.id
    }
}

/// Handle to a sprite sheet.
#[derive(Clone, Copy, Debug, PartialEq, Eq, Structural)]
pub struct SpriteSheetHandle {
    pub id: u32,
}

impl SpriteSheetHandle {
    pub open spec fn spec_id(&self) -> u32 {
        self.id
    }

    #[verifier::when_used_as_spec(spec_id)]
    pub fn id(&self) -> (id: u32)
        ensures
            id == self.id,
    {
        self.id
    }
}

/// Mirroring applied to the texture coordinates of a quad. The geometry is
/// never mirrored.
#[derive(Clone, Copy, Debug, PartialEq, Eq, Structural)]
pub enum Flipped {
    Horizontal,
    Vertical,
    Both,
}

/// Whether an optional flip swaps the left and right edges.
pub open spec fn flips_horizontal(flipped: Option<Flipped>) -> bool {
    flipped == Some(Flipped::Horizontal) || flipped == Some(Flipped::Both)
}

/// Whether an optional flip swaps the top and bottom edges.
pub open spec fn flips_vertical(flipped: Option<Flipped>) -> bool {
    flipped == Some(Flipped::Vertical) || flipped == Some(Flipped::Both)
}

/// The two swaps an optional flip asks for: `(horizontal, vertical)`.
pub fn flip_axes(flipped: &Option<Flipped>) -> (axes: (bool, bool))
    ensures
        axes.0 == flips_horizontal(*flipped),
        axes.1 == flips_vertical(*flipped),
{
    match flipped {
        Some(Flipped::Horizontal) => (true, false),
        Some(Flipped::Vertical) => (false, true),
        Some(Flipped::Both) => (true, true),
        None => (false, false),
    }
}

/// A tint: red, green, blue, alpha.
#[derive(Clone, Copy, Debug, PartialEq, Eq, Structural)]
pub struct Rgba(pub Scalar, pub Scalar, pub Scalar, pub Scalar);

impl Rgba {
    /// Opaque white, `(1, 1, 1, 1)`.
    pub open spec fn spec_white() -> Rgba {
        Rgba(Scalar::one(), Scalar::one(), Scalar::one(), Scalar::one())
    }

    #[verifier::when_used_as_spec(spec_white)]
    pub fn white() -> (c: Rgba)
        ensures
            c == Rgba::spec_white(),
    {
        Rgba(Scalar::new_one(), Scalar::new_one(), Scalar::new_one(), Scalar::new_one())
    }
}

/// The tint a quad is drawn with: its own, or opaque white when it has none.
pub open spec fn tint_or_white(rgba: Option<Rgba>) -> Rgba {
    match rgba {
        Some(c) => c,
        None => Rgba::spec_white(),
    }
}

/// The edges of a rectangle in normalized texture space.
#[derive(Clone, Copy, Debug, PartialEq, Eq, Structural)]
pub struct TextureCoordinates {
    pub left: Scalar,
    pub right: Scalar,
    pub bottom: Scalar,
    pub top: Scalar,
}

impl TextureCoordinates {
    /// The whole texture: `[0, 1] x [0, 1]`.
    pub open spec fn spec_unit() -> TextureCoordinates {
        TextureCoordinates {
            left: Scalar::zero(),
            right: Scalar::one(),
            bottom: Scalar::zero(),
            top: Scalar::one(),
        }
    }

    #[verifier::when_used_as_spec(spec_unit)]
    pub fn unit() -> (c: TextureCoordinates)
        ensures
            c == TextureCoordinates::spec_unit(),
    {
        TextureCoordinates {
            left: Scalar::new_zero(),
            right: Scalar::new_one(),
            bottom: Scalar::new_zero(),
            top: Scalar::new_one(),
        }
    }

    /// The rectangle sampled after mirroring: a horizontal flip swaps the
    /// left and right edges, a vertical flip swaps bottom and top.
    pub open spec fn spec_flipped(self, horizontal: bool, vertical: bool) -> TextureCoordinates {
        TextureCoordinates {
            left: if horizontal { self.right } else { self.left },
            right: if horizontal { self.left } else { self.right },
            bottom: if vertical { self.top } else { self.bottom },
            top: if vertical { self.bottom } else { self.top },
        }
    }

    #[verifier::when_used_as_spec(spec_flipped)]
    pub fn flipped(self, horizontal: bool, vertical: bool) -> (c: TextureCoordinates)
        ensures
            c == self.spec_flipped(horizontal, vertical),
    {
        let (left, right) = if horizontal {
            (self.right, self.left)
        } else {
            (self.left, self.right)
        };
        let (bottom, top) = if vertical {
            (self.top, self.bottom)
        } else {
            (self.bottom, self.top)
        };
        TextureCoordinates { left, right, bottom, top }
    }
}

/// Without a flip the rectangle is sampled as it is.
pub proof fn lemma_no_flip_keeps_coordinates(coords: TextureCoordinates)
    ensures
        coords.spec_flipped(false, false) == coords,
        coords.spec_flipped(flips_horizontal(None), flips_vertical(None)) == coords,
{
}

/// Flipping twice along the same axes restores every edge. In particular a
/// second horizontal flip puts left and right back where they were.
pub proof fn lemma_flip_twice_restores(coords: TextureCoordinates, horizontal: bool, vertical: bool)
    ensures
        coords.spec_flipped(horizontal, vertical).spec_flipped(horizontal, vertical) == coords,
        coords.spec_flipped(true, false).spec_flipped(true, false) == coords,
{
}

/// A horizontal flip touches only left and right, a vertical flip only bottom
/// and top, and flipping both is the two flips one after the other.
pub proof fn lemma_flips_are_independent(coords: TextureCoordinates)
    ensures
        coords.spec_flipped(true, false).bottom == coords.bottom,
        coords.spec_flipped(true, false).top == coords.top,
        coords.spec_flipped(true, false).left == coords.right,
        coords.spec_flipped(true, false).right == coords.left,
        coords.spec_flipped(false, true).left == coords.left,
        coords.spec_flipped(false, true).right == coords.right,
        coords.spec_flipped(false, true).bottom == coords.top,
        coords.spec_flipped(false, true).top == coords.bottom,
        coords.spec_flipped(true, true) == coords.spec_flipped(true, false).spec_flipped(false, true),
{
}

/// One sprite of a sheet: its size and pivot offsets in pixels, and the
/// rectangle of the sheet's texture it shows.
#[derive(Clone, Copy, Debug, PartialEq, Eq, Structural)]
pub struct Sprite {
    pub width: Scalar,
    pub height: Scalar,
    pub offsets: Vector2,
    pub tex_coords: TextureCoordinates,
}

/// A texture cut into sprites.
#[derive(Clone, Debug, PartialEq, Eq)]
pub struct SpriteSheet {
    pub texture: TextureHandle,
    pub sprites: Vec<Sprite>,
}

/// What an entity carries to be drawn as a sprite: the sheet, and the index
/// of the sprite within it.
#[derive(Clone, Copy, Debug, PartialEq, Eq, Structural)]
pub struct SpriteRender {
    pub sprite_sheet: SpriteSheetHandle,
    pub sprite_number: usize,
}

/// A loaded texture, as far as the batcher is concerned: its size in pixels.
#[derive(Clone, Copy, Debug, PartialEq, Eq, Structural)]
pub struct Texture {
    pub width: usize,
    pub height: usize,
}

impl Texture {
    pub open spec fn spec_size(&self) -> (usize, usize) {
        (self.width, self.height)
    }

    #[verifier::when_used_as_spec(spec_size)]
    pub fn size(&self) -> (dims: (usize, usize))
        ensures
            dims == self.spec_size(),
    {
        (self.width, self.height)
    }
}

/// World-space placement of an entity: position, orientation and scale as one
/// matrix.
#[derive(Clone, Copy, Debug, PartialEq, Eq, Structural)]
pub struct Transform {
    pub global_matrix: Matrix4,
}

impl Transform {
    pub fn global_matrix(&self) -> (m: &Matrix4)
        ensures
            *m == self.global_matrix,
    {
        &self.global_matrix
    }
}

} // verus!
