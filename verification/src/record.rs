//! One collected quad, and what is derived from it when it is encoded.

use vstd::prelude::*;
use crate::assets::SpriteSheetStorage;
use crate::instance::{Extent, QuadGeometry, QuadProjection, SpriteInstance};
use crate::scalar::{Scalar, Vector4};
use crate::sprite::{
    flip_axes, flips_horizontal, flips_vertical, tint_or_white, Flipped, Rgba, Sprite,
    SpriteRender, SpriteSheet, Texture, TextureCoordinates, TextureHandle, Transform,
};

verus! {

/// A quad waiting to be drawn.
///
/// Both kinds carry the texture they are drawn with, an optional flip, an
/// optional tint and a placement. A sprite names a rectangle of a sprite
/// sheet, whose size and texture coordinates are looked up when the quad is
/// encoded; an image spans its whole texture and carries the texture's size.
#[derive(Clone, Copy, Debug, PartialEq, Eq, Structural)]
pub enum TextureDrawData {
    Sprite {
        texture_handle: TextureHandle,
        render: SpriteRender,
        flipped: Option<Flipped>,
        rgba: Option<Rgba>,
        transform: Transform,
    },
    Image {
        texture_handle: TextureHandle,
        transform: Transform,
        flipped: Option<Flipped>,
        rgba: Option<Rgba>,
        width: usize,
        height: usize,
    },
}

impl TextureDrawData {
    pub open spec fn spec_texture_handle(&self) -> TextureHandle {
        match *self {
            TextureDrawData::Sprite { texture_handle, .. } => texture_handle,
            TextureDrawData::Image { texture_handle, .. } => texture_handle,
        }
    }

    /// The texture the quad is drawn with.
    pub fn texture_handle(&self) -> (handle: &TextureHandle)
        ensures
            *handle == self.spec_texture_handle(),
    {
        match self {
            TextureDrawData::Sprite { texture_handle, .. } => texture_handle,
            TextureDrawData::Image { texture_handle, .. } => texture_handle,
        }
    }

    pub open spec fn spec_tex_id(&self) -> u32 {
        self.spec_texture_handle().id
    }

    /// The id of that texture: the key quads are sorted and grouped by.
    #[verifier::when_used_as_spec(spec_tex_id)]
    pub fn tex_id(&self) -> (id: u32)
        ensures
            id == self.spec_tex_id(),
    {
        match self {
            TextureDrawData::Sprite { texture_handle, .. } => texture_handle.id(),
            TextureDrawData::Image { texture_handle, .. } => texture_handle.id(),
        }
    }

    pub open spec fn spec_flipped(&self) -> Option<Flipped> {
        match *self {
            TextureDrawData::Sprite { flipped, .. } => flipped,
            TextureDrawData::Image { flipped, .. } => flipped,
        }
    }

    /// The flip of the quad, if it has one.
    pub fn flipped(&self) -> (flipped: &Option<Flipped>)
        ensures
            *flipped == self.spec_flipped(),
    {
        match self {
            TextureDrawData::Sprite { flipped, .. } => flipped,
            TextureDrawData::Image { flipped, .. } => flipped,
        }
    }

    pub open spec fn spec_rgba(&self) -> Option<Rgba> {
        match *self {
            TextureDrawData::Sprite { rgba, .. } => rgba,
            TextureDrawData::Image { rgba, .. } => rgba,
        }
    }

    /// The tint of the quad, if it has one.
    pub fn rgba(&self) -> (rgba: &Option<Rgba>)
        ensures
            *rgba == self.spec_rgba(),
    {
        match self {
            TextureDrawData::Sprite { rgba, .. } => rgba,
            TextureDrawData::Image { rgba, .. } => rgba,
        }
    }

    pub open spec fn spec_transform(&self) -> Transform {
        match *self {
            TextureDrawData::Sprite { transform, .. } => transform,
            TextureDrawData::Image { transform, .. } => transform,
        }
    }

    /// The placement of the quad.
    pub fn transform(&self) -> (transform: &Transform)
        ensures
            *transform == self.spec_transform(),
    {
        match self {
            TextureDrawData::Sprite { transform, .. } => transform,
            TextureDrawData::Image { transform, .. } => transform,
        }
    }

    /// Whether the assets of the quad are loaded: its texture is, and for a
    /// sprite its sheet is and is a sheet of that texture; an image has the
    /// size of its texture.
    pub open spec fn resolved(
        &self,
        sheets: Map<u32, SpriteSheet>,
        textures: Map<u32, Texture>,
    ) -> bool {
        &&& textures.contains_key(self.spec_tex_id())
        &&& match *self {
            TextureDrawData::Sprite { texture_handle, render, .. } => {
                &&& sheets.contains_key(render.sprite_sheet.id)
                &&& sheets[render.sprite_sheet.id].texture == texture_handle
            },
            TextureDrawData::Image { texture_handle, width, height, .. } => {
                &&& width == textures[texture_handle.id].width
                &&& height == textures[texture_handle.id].height
            },
        }
    }

    /// Whether the quad can be encoded against `sheets`: an image always
    /// can; a sprite can when its sheet is loaded and its index names one of
    /// the sheet's sprites.
    pub open spec fn encodable(&self, sheets: Map<u32, SpriteSheet>) -> bool {
        match *self {
            TextureDrawData::Sprite { render, .. } => {
                &&& sheets.contains_key(render.sprite_sheet.id)
                &&& render.sprite_number < sheets[render.sprite_sheet.id].sprites@.len()
            },
            TextureDrawData::Image { .. } => true,
        }
    }

    /// Decides [`Self::encodable`].
    pub fn is_encodable(&self, sheets: &SpriteSheetStorage) -> (ok: bool)
        ensures
            ok == self.encodable(sheets@),
    {
        match self {
            TextureDrawData::Sprite { render, .. } => {
                match sheets.get(&render.sprite_sheet) {
                    Some(sheet) => render.sprite_number < sheet.sprites.len(),
                    None => false,
                }
            },
            TextureDrawData::Image { .. } => true,
        }
    }

    /// The sprite of the sheet that a sprite quad shows.
    pub open spec fn sprite_data(render: SpriteRender, sheets: Map<u32, SpriteSheet>) -> Sprite
        recommends
            sheets.contains_key(render.sprite_sheet.id),
            render.sprite_number < sheets[render.sprite_sheet.id].sprites@.len(),
    {
        sheets[render.sprite_sheet.id].sprites@[render.sprite_number as int]
    }

    /// The rectangle of the texture the quad shows before any flip: the
    /// sprite's rectangle, or the whole texture for an image.
    pub open spec fn base_coords(&self, sheets: Map<u32, SpriteSheet>) -> TextureCoordinates
        recommends
            self.encodable(sheets),
    {
        match *self {
            TextureDrawData::Sprite { render, .. } => Self::sprite_data(render, sheets).tex_coords,
            TextureDrawData::Image { .. } => TextureCoordinates::spec_unit(),
        }
    }

    /// The rectangle the quad samples: the base rectangle with the quad's
    /// flip applied.
    pub open spec fn tex_coords(&self, sheets: Map<u32, SpriteSheet>) -> TextureCoordinates
        recommends
            self.encodable(sheets),
    {
        self.base_coords(sheets).spec_flipped(
            flips_horizontal(self.spec_flipped()),
            flips_vertical(self.spec_flipped()),
        )
    }

    /// The tint the quad is drawn with.
    pub open spec fn color(&self) -> Rgba {
        tint_or_white(self.spec_rgba())
    }

    /// The numeric work the quad asks for.
    ///
    /// The axes are the first two columns of the quad's transform. A sprite
    /// is as large as its sheet says, and is anchored at its pivot:
    /// the offsets point from the quad's corner to the pivot, so the anchor
    /// is the point with both offsets negated. An image is as large as its
    /// texture and is anchored at `(1, 1)`.
    pub open spec fn spec_geometry(&self, sheets: Map<u32, SpriteSheet>) -> QuadGeometry
        recommends
            self.encodable(sheets),
    {
        match *self {
            TextureDrawData::Sprite { render, transform, .. } => {
                let sprite = Self::sprite_data(render, sheets);
                QuadGeometry {
                    axis_x: transform.global_matrix.spec_column(0),
                    width: Extent::Units(sprite.width),
                    axis_y: transform.global_matrix.spec_column(1),
                    height: Extent::Units(sprite.height),
                    transform: transform.global_matrix,
                    anchor: Vector4 {
                        x: sprite.offsets.x.neg(),
                        y: sprite.offsets.y.neg(),
                        z: Scalar::zero(),
                        w: Scalar::one(),
                    },
                }
            },
            TextureDrawData::Image { transform, width, height, .. } => QuadGeometry {
                axis_x: transform.global_matrix.spec_column(0),
                width: Extent::Pixels(width),
                axis_y: transform.global_matrix.spec_column(1),
                height: Extent::Pixels(height),
                transform: transform.global_matrix,
                anchor: Vector4 {
                    x: Scalar::one(),
                    y: Scalar::one(),
                    z: Scalar::zero(),
                    w: Scalar::one(),
                },
            },
        }
    }

    /// Computes [`Self::spec_geometry`].
    pub fn geometry(&self, sheets: &SpriteSheetStorage) -> (geometry: QuadGeometry)
        requires
            self.encodable(sheets@),
        ensures
            geometry == self.spec_geometry(sheets@),
    {
        match self {
            TextureDrawData::Sprite { render, transform, .. } => {
                let sheet = sheets.get(&render.sprite_sheet).unwrap();
                let sprite = &sheet.sprites[render.sprite_number];
                let global_matrix = transform.global_matrix();
                QuadGeometry {
                    axis_x: global_matrix.column(0),
                    width: Extent::Units(sprite.width),
                    axis_y: global_matrix.column(1),
                    height: Extent::Units(sprite.height),
                    transform: *global_matrix,
                    anchor: Vector4 {
                        x: sprite.offsets.x.negated(),
                        y: sprite.offsets.y.negated(),
                        z: Scalar::new_zero(),
                        w: Scalar::new_one(),
                    },
                }
            },
            TextureDrawData::Image { transform, width, height, .. } => {
                let global_matrix = transform.global_matrix();
                QuadGeometry {
                    axis_x: global_matrix.column(0),
                    width: Extent::Pixels(*width),
                    axis_y: global_matrix.column(1),
                    height: Extent::Pixels(*height),
                    transform: *global_matrix,
                    anchor: Vector4 {
                        x: Scalar::new_one(),
                        y: Scalar::new_one(),
                        z: Scalar::new_zero(),
                        w: Scalar::new_one(),
                    },
                }
            },
        }
    }

    /// The instance uploaded for the quad, given the outcome of its numeric
    /// work.
    pub open spec fn spec_instance(
        &self,
        sheets: Map<u32, SpriteSheet>,
        projection: QuadProjection,
    ) -> SpriteInstance
        recommends
            self.encodable(sheets),
    {
        SpriteInstance::spec_assemble(self.tex_coords(sheets), self.color(), projection)
    }

    /// Computes [`Self::spec_instance`].
    pub fn instance(&self, sheets: &SpriteSheetStorage, projection: &QuadProjection) -> (instance:
        SpriteInstance)
        requires
            self.encodable(sheets@),
        ensures
            instance == self.spec_instance(sheets@, *projection),
    {
        let (flip_horizontal, flip_vertical) = flip_axes(self.flipped());
        let (coords, rgba) = match self {
            TextureDrawData::Sprite { render, rgba, .. } => {
                let sheet = sheets.get(&render.sprite_sheet).unwrap();
                let sprite = &sheet.sprites[render.sprite_number];
                (sprite.tex_coords.flipped(flip_horizontal, flip_vertical), rgba)
            },
            TextureDrawData::Image { rgba, .. } => {
                (TextureCoordinates::unit().flipped(flip_horizontal, flip_vertical), rgba)
            },
        };
        let color = match rgba {
            Some(c) => *c,
            None => Rgba::white(),
        };
        SpriteInstance::assemble(coords, color, *projection)
    }
}

/// A quad whose assets are loaded can be encoded, unless it is a sprite
/// whose index is not one of its sheet's.
pub proof fn lemma_resolved_encodable(
    record: TextureDrawData,
    sheets: Map<u32, SpriteSheet>,
    textures: Map<u32, Texture>,
)
    requires
        record.resolved(sheets, textures),
    ensures
        record is Image ==> record.encodable(sheets),
        record matches TextureDrawData::Sprite { render, .. } ==> (record.encodable(sheets)
            <==> render.sprite_number < sheets[render.sprite_sheet.id].sprites@.len()),
{
}

/// A quad with no flip and no tint samples exactly its base rectangle and is
/// drawn opaque white.
pub proof fn lemma_plain_quad_instance(
    record: TextureDrawData,
    sheets: Map<u32, SpriteSheet>,
    projection: QuadProjection,
)
    requires
        record.spec_flipped() is None,
        record.spec_rgba() is None,
    ensures
        record.tex_coords(sheets) == record.base_coords(sheets),
        record.spec_instance(sheets, projection).uv_left == record.base_coords(sheets).left,
        record.spec_instance(sheets, projection).uv_right == record.base_coords(sheets).right,
        record.spec_instance(sheets, projection).uv_bottom == record.base_coords(sheets).bottom,
        record.spec_instance(sheets, projection).uv_top == record.base_coords(sheets).top,
        record.spec_instance(sheets, projection).color == Rgba::spec_white(),
        record is Image ==> record.tex_coords(sheets) == TextureCoordinates::spec_unit(),
{
}

/// What the flip of a quad does to the instance: a horizontal flip swaps the
/// left and right edges of the base rectangle, a vertical flip swaps bottom
/// and top, and a flip of both does both. Nothing else in the instance
/// depends on the flip.
pub proof fn lemma_flip_in_instance(
    record: TextureDrawData,
    sheets: Map<u32, SpriteSheet>,
    projection: QuadProjection,
)
    ensures
        ({
            let base = record.base_coords(sheets);
            let instance = record.spec_instance(sheets, projection);
            let h = flips_horizontal(record.spec_flipped());
            let v = flips_vertical(record.spec_flipped());
            &&& instance.uv_left == (if h { base.right } else { base.left })
            &&& instance.uv_right == (if h { base.left } else { base.right })
            &&& instance.uv_bottom == (if v { base.top } else { base.bottom })
            &&& instance.uv_top == (if v { base.bottom } else { base.top })
            &&& instance.color == tint_or_white(record.spec_rgba())
            &&& instance.dir_x == projection.dir_x.spec_xy()
            &&& instance.dir_y == projection.dir_y.spec_xy()
            &&& instance.pos == projection.pos.spec_xy()
            &&& instance.depth == projection.pos.z
        }),
{
}

} // verus!
