//! The drawing pass: its blend configuration and its batch.

use gfx_core::state::{Blend, ColorMask};
use vstd::prelude::*;
use crate::assets::{SpriteSheetStorage, TextureStorage};
use crate::batch::{all_encodable, encoded, geometries, pointee, Rejection, TextureBatch};
use crate::draw::{call_views, coalesce, DrawCall};
use crate::frame::{
    frame_candidates, frame_warnings, is_frame_collection, ordered_offers, Components,
    SpriteVisibility,
};
use crate::gfx_state::{alpha_blend, alpha_blend_value, color_mask_bits, ALL_CHANNELS};
use crate::instance::{instance_attributes, Attribute, QuadGeometry, QuadProjection};
use crate::record::TextureDrawData;

verus! {

/// How fragments are tested against, and written to, the depth buffer.
#[derive(Clone, Copy, Debug, PartialEq, Eq, Structural)]
pub enum DepthMode {
    /// Pass when not farther than what is there; leave the buffer alone.
    LessEqualTest,
    /// Pass when not farther than what is there; write the new depth.
    LessEqualWrite,
}

/// Blend settings: which channels are written, how they are blended, and
/// the depth mode, if depth is used at all.
pub type Transparency = (ColorMask, Blend, Option<DepthMode>);

/// Whether `settings` are the default blend settings: all four channels,
/// alpha blending, depth tested and written.
pub open spec fn is_default_transparency(settings: Transparency) -> bool {
    &&& color_mask_bits(settings.0) == ALL_CHANNELS
    &&& settings.1 == alpha_blend_value()
    &&& settings.2 == Some(DepthMode::LessEqualWrite)
}

/// The default blend settings.
pub fn default_transparency() -> (settings: Option<Transparency>)
    ensures
        settings is Some,
        is_default_transparency(settings->0),
{
    Some((ColorMask::all(), alpha_blend(), Some(DepthMode::LessEqualWrite)))
}

/// How the colour target of the pass is set up.
#[derive(Clone, Copy, Debug)]
pub enum ColorOutput {
    /// Blended into what is there, with these settings.
    Blended { mask: ColorMask, blend: Blend, depth: Option<DepthMode> },
    /// Written over what is there, with this depth mode.
    Opaque { depth: Option<DepthMode> },
}

/// Draws sprites and images as instanced quads.
#[derive(Clone, Debug)]
pub struct DrawFlat2D {
    transparency: Option<Transparency>,
    batch: TextureBatch,
}

impl Default for DrawFlat2D {
    fn default() -> (pass: Self)
        ensures
            pass.spec_transparency() is Some,
            is_default_transparency(pass.spec_transparency()->0),
            pass.spec_records() == Seq::<TextureDrawData>::empty(),
    {
        DrawFlat2D::new()
    }
}

impl DrawFlat2D {
    /// The blend settings of the pass, or `None` when it draws opaque.
    pub closed spec fn spec_transparency(&self) -> Option<Transparency> {
        self.transparency
    }

    /// The records the pass holds, in draw order.
    pub closed spec fn spec_records(&self) -> Seq<TextureDrawData> {
        self.batch@
    }

    /// A pass with the default blend settings and nothing collected.
    pub fn new() -> (pass: Self)
        ensures
            pass.spec_transparency() is Some,
            is_default_transparency(pass.spec_transparency()->0),
            pass.spec_records() == Seq::<TextureDrawData>::empty(),
    {
        DrawFlat2D { transparency: default_transparency(), batch: TextureBatch::new() }
    }

    /// Switches blending on or off.
    ///
    /// Off removes the blend settings. On leaves settings that are there
    /// untouched, and brings the default settings back when there are none.
    pub fn with_transparency(self, input: bool) -> (pass: Self)
        ensures
            pass.spec_records() == self.spec_records(),
            !input ==> pass.spec_transparency() is None,
            input && self.spec_transparency() is Some ==> pass.spec_transparency()
                == self.spec_transparency(),
            input && self.spec_transparency() is None ==> pass.spec_transparency() is Some
                && is_default_transparency(pass.spec_transparency()->0),
    {
        let mut pass = self;
        if input {
            if pass.transparency.is_none() {
                pass.transparency = default_transparency();
            }
        } else {
            pass.transparency = None;
        }
        pass
    }

    /// Switches blending on with the given settings.
    pub fn with_transparency_settings(
        self,
        mask: ColorMask,
        blend: Blend,
        depth: Option<DepthMode>,
    ) -> (pass: Self)
        ensures
            pass.spec_records() == self.spec_records(),
            pass.spec_transparency() == Some((mask, blend, depth)),
    {
        let mut pass = self;
        pass.transparency = Some((mask, blend, depth));
        pass
    }

    /// The vertex attributes of the instance buffer, in buffer order.
    pub fn attributes() -> (attributes: Vec<Attribute>)
        ensures
            attributes@ == instance_attributes(),
    {
        let mut attributes: Vec<Attribute> = Vec::new();
        attributes.push(Attribute::DirX);
        attributes.push(Attribute::DirY);
        attributes.push(Attribute::Pos);
        attributes.push(Attribute::OffsetU);
        attributes.push(Attribute::OffsetV);
        attributes.push(Attribute::Depth);
        attributes.push(Attribute::Color);
        proof {
            assert(attributes@ =~= instance_attributes());
        }
        attributes
    }

    /// The blend settings of the pass.
    pub fn transparency(&self) -> (settings: &Option<Transparency>)
        ensures
            *settings == self.spec_transparency(),
    {
        &self.transparency
    }

    /// The batch of the pass.
    pub fn batch(&self) -> (batch: &TextureBatch)
        ensures
            batch@ == self.spec_records(),
    {
        &self.batch
    }

    /// How the colour target is to be set up: blended with the pass's
    /// settings when it has any, and otherwise opaque with depth tested and
    /// written.
    pub fn color_output(&self) -> (output: ColorOutput)
        ensures
            match self.spec_transparency() {
                Some((mask, blend, depth)) => output == (ColorOutput::Blended { mask, blend, depth }),
                None => output == (ColorOutput::Opaque {
                    depth: Some(DepthMode::LessEqualWrite),
                }),
            },
    {
        match self.transparency {
            Some((mask, blend, depth)) => ColorOutput::Blended { mask, blend, depth },
            None => ColorOutput::Opaque { depth: Some(DepthMode::LessEqualWrite) },
        }
    }

    /// Collects the quads of a frame and returns the assets found missing:
    /// see [`TextureBatch::collect`].
    pub fn collect(
        &mut self,
        entities: &Vec<Components>,
        visibility: Option<&SpriteVisibility>,
        sprite_sheet_storage: &SpriteSheetStorage,
        tex_storage: &TextureStorage,
    ) -> (warnings: Vec<Rejection>)
        ensures
            is_frame_collection(
                old(self).spec_records(),
                entities@,
                pointee(visibility),
                sprite_sheet_storage@,
                tex_storage@,
                final(self).spec_records(),
            ),
            warnings@ == frame_warnings(
                entities@,
                pointee(visibility),
                sprite_sheet_storage@,
                tex_storage@,
            ),
            final(self).spec_transparency() == old(self).spec_transparency(),
            final(self).spec_records().len() <= old(self).spec_records().len() + frame_candidates(
                entities@,
                pointee(visibility),
                sprite_sheet_storage@,
                tex_storage@,
            ),
            final(self).spec_records().len() <= old(self).spec_records().len() + 2 * entities@.len()
                + ordered_offers(
                entities@,
                pointee(visibility),
                sprite_sheet_storage@,
                tex_storage@,
            ).len(),
    {
        self.batch.collect(entities, visibility, sprite_sheet_storage, tex_storage)
    }

    /// Decides whether every collected quad can be encoded against `sheets`.
    pub fn is_encodable(&self, sheets: &SpriteSheetStorage) -> (ok: bool)
        ensures
            ok == all_encodable(self.spec_records(), sheets@),
    {
        self.batch.is_encodable(sheets)
    }

    /// The numeric work of the collected quads, quad by quad.
    pub fn geometry(&self, sheets: &SpriteSheetStorage) -> (work: Vec<QuadGeometry>)
        requires
            all_encodable(self.spec_records(), sheets@),
        ensures
            work@ == geometries(self.spec_records(), sheets@),
    {
        self.batch.geometry(sheets)
    }

    /// The draw calls of the frame: see [`TextureBatch::encode`].
    pub fn encode(&self, sheets: &SpriteSheetStorage, projections: &Vec<QuadProjection>) -> (calls:
        Vec<DrawCall>)
        requires
            all_encodable(self.spec_records(), sheets@),
            projections@.len() == self.spec_records().len(),
        ensures
            call_views(calls@) == coalesce(encoded(self.spec_records(), sheets@, projections@)),
            calls@.len() <= self.spec_records().len(),
            self.spec_records().len() == 0 ==> calls@.len() == 0,
    {
        self.batch.encode(sheets, projections)
    }

    /// Ends the frame: forgets every collected quad and keeps the settings.
    pub fn reset(&mut self)
        ensures
            final(self).spec_records() == Seq::<TextureDrawData>::empty(),
            final(self).spec_transparency() == old(self).spec_transparency(),
    {
        self.batch.reset();
    }
}

} // verus!
