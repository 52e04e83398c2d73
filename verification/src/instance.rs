//! The per-instance payload and the two records that stand on either side of
//! the numeric work.
//!
//! Scaling a column by a size and applying a matrix to a point are done by the
//! caller, on real floating-point hardware. The batcher says what is to be
//! computed ([`QuadGeometry`]), takes the result ([`QuadProjection`]), and is
//! responsible for everything else in the payload: which texture edges go
//! where, the tint, and the order of the scalars.

use vstd::prelude::*;
use crate::scalar::{Matrix4, Scalar, Vector2, Vector4};
use crate::sprite::{Rgba, TextureCoordinates};

verus! {

/// Number of scalars in one packed instance.
pub const INSTANCE_SCALARS: usize = 15;

/// Number of vertices every draw call spans: one quad as two triangles.
pub const QUAD_VERTICES: u32 = 6;

/// Size of one scalar in the instance buffer, in bytes.
pub const SCALAR_BYTES: u8 = 4;

/// Distance from one instance to the next in the instance buffer, in bytes.
pub const INSTANCE_STRIDE: u8 = 60;

/// The vertex attributes an instance is read as, in buffer order.
#[derive(Clone, Copy, Debug, PartialEq, Eq, Structural)]
pub enum Attribute {
    /// The basis vector along the quad's width.
    DirX,
    /// The basis vector along the quad's height.
    DirY,
    /// The anchor position.
    Pos,
    /// The left and right texture edges.
    OffsetU,
    /// The bottom and top texture edges.
    OffsetV,
    /// The depth of the quad.
    Depth,
    /// The tint.
    Color,
}

impl Attribute {
    /// How many scalars the attribute has.
    pub open spec fn spec_scalars(self) -> usize {
        match self {
            Attribute::Depth => 1,
            Attribute::Color => 4,
            _ => 2,
        }
    }

    #[verifier::when_used_as_spec(spec_scalars)]
    pub fn scalars(self) -> (n: usize)
        ensures
            n == self.spec_scalars(),
    {
        match self {
            Attribute::Depth => 1,
            Attribute::Color => 4,
            _ => 2,
        }
    }

    /// The index of the attribute's first scalar within a packed instance.
    pub open spec fn spec_offset(self) -> usize {
        match self {
            Attribute::DirX => 0,
            Attribute::DirY => 2,
            Attribute::Pos => 4,
            Attribute::OffsetU => 6,
            Attribute::OffsetV => 8,
            Attribute::Depth => 10,
            Attribute::Color => 11,
        }
    }

    #[verifier::when_used_as_spec(spec_offset)]
    pub fn offset(self) -> (n: usize)
        ensures
            n == self.spec_offset(),
    {
        match self {
            Attribute::DirX => 0,
            Attribute::DirY => 2,
            Attribute::Pos => 4,
            Attribute::OffsetU => 6,
            Attribute::OffsetV => 8,
            Attribute::Depth => 10,
            Attribute::Color => 11,
        }
    }

    /// The scalars of the attribute in `instance`.
    pub open spec fn of(self, instance: SpriteInstance) -> Seq<Scalar> {
        match self {
            Attribute::DirX => seq![instance.dir_x.x, instance.dir_x.y],
            Attribute::DirY => seq![instance.dir_y.x, instance.dir_y.y],
            Attribute::Pos => seq![instance.pos.x, instance.pos.y],
            Attribute::OffsetU => seq![instance.uv_left, instance.uv_right],
            Attribute::OffsetV => seq![instance.uv_bottom, instance.uv_top],
            Attribute::Depth => seq![instance.depth],
            Attribute::Color => seq![
                instance.color.0,
                instance.color.1,
                instance.color.2,
                instance.color.3,
            ],
        }
    }
}

/// The attributes of an instance, in buffer order.
pub open spec fn instance_attributes() -> Seq<Attribute> {
    seq![
        Attribute::DirX,
        Attribute::DirY,
        Attribute::Pos,
        Attribute::OffsetU,
        Attribute::OffsetV,
        Attribute::Depth,
        Attribute::Color,
    ]
}

/// A side length of a quad. A sprite sheet gives it as a scalar already;
/// a texture gives it as a pixel count that is still to be converted.
#[derive(Clone, Copy, Debug, PartialEq, Eq, Structural)]
pub enum Extent {
    Units(Scalar),
    Pixels(usize),
}

/// The numeric work one quad asks for: two vectors to scale and one point to
/// transform.
#[derive(Clone, Copy, Debug, PartialEq, Eq, Structural)]
pub struct QuadGeometry {
    /// The direction of the quad's width: the first column of its transform.
    pub axis_x: Vector4,
    /// What `axis_x` is to be scaled by.
    pub width: Extent,
    /// The direction of the quad's height: the second column of its
    /// transform.
    pub axis_y: Vector4,
    /// What `axis_y` is to be scaled by.
    pub height: Extent,
    /// The quad's world-space placement.
    pub transform: Matrix4,
    /// The homogeneous point that `transform` is to be applied to.
    pub anchor: Vector4,
}

/// The outcome of that work, as the caller computed it.
#[derive(Clone, Copy, Debug, PartialEq, Eq, Structural)]
pub struct QuadProjection {
    /// `axis_x` scaled by the width.
    pub dir_x: Vector4,
    /// `axis_y` scaled by the height.
    pub dir_y: Vector4,
    /// The transform applied to the anchor.
    pub pos: Vector4,
}

/// What is uploaded for one quad.
#[derive(Clone, Copy, Debug, PartialEq, Eq, Structural)]
pub struct SpriteInstance {
    pub dir_x: Vector2,
    pub dir_y: Vector2,
    pub pos: Vector2,
    pub uv_left: Scalar,
    pub uv_right: Scalar,
    pub uv_bottom: Scalar,
    pub uv_top: Scalar,
    pub depth: Scalar,
    pub color: Rgba,
}

impl SpriteInstance {
    /// The instance of a quad that samples `coords`, is tinted `color` and
    /// projects to `projection`: the basis vectors and the position are the
    /// first two components of the projected vectors, the depth is the third
    /// component of the projected position.
    pub open spec fn spec_assemble(
        coords: TextureCoordinates,
        color: Rgba,
        projection: QuadProjection,
    ) -> SpriteInstance {
        SpriteInstance {
            dir_x: projection.dir_x.spec_xy(),
            dir_y: projection.dir_y.spec_xy(),
            pos: projection.pos.spec_xy(),
            uv_left: coords.left,
            uv_right: coords.right,
            uv_bottom: coords.bottom,
            uv_top: coords.top,
            depth: projection.pos.z,
            color,
        }
    }

    #[verifier::when_used_as_spec(spec_assemble)]
    pub fn assemble(coords: TextureCoordinates, color: Rgba, projection: QuadProjection) -> (instance:
        SpriteInstance)
        ensures
            instance == SpriteInstance::spec_assemble(coords, color, projection),
    {
        SpriteInstance {
            dir_x: projection.dir_x.xy(),
            dir_y: projection.dir_y.xy(),
            pos: projection.pos.xy(),
            uv_left: coords.left,
            uv_right: coords.right,
            uv_bottom: coords.bottom,
            uv_top: coords.top,
            depth: projection.pos.z,
            color,
        }
    }

    /// The fifteen scalars of the instance in upload order. The vertex stage
    /// reads them by position, so the order is part of the interface.
    pub open spec fn packed(self) -> Seq<Scalar> {
        seq![
            self.dir_x.x,
            self.dir_x.y,
            self.dir_y.x,
            self.dir_y.y,
            self.pos.x,
            self.pos.y,
            self.uv_left,
            self.uv_right,
            self.uv_bottom,
            self.uv_top,
            self.depth,
            self.color.0,
            self.color.1,
            self.color.2,
            self.color.3,
        ]
    }

    /// Appends the packed instance to `out`.
    pub fn write_to(&self, out: &mut Vec<Scalar>)
        ensures
            final(out)@ == old(out)@ + self.packed(),
    {
        out.push(self.dir_x.x);
        out.push(self.dir_x.y);
        out.push(self.dir_y.x);
        out.push(self.dir_y.y);
        out.push(self.pos.x);
        out.push(self.pos.y);
        out.push(self.uv_left);
        out.push(self.uv_right);
        out.push(self.uv_bottom);
        out.push(self.uv_top);
        out.push(self.depth);
        out.push(self.color.0);
        out.push(self.color.1);
        out.push(self.color.2);
        out.push(self.color.3);
        assert(out@ =~= old(out)@ + self.packed());
    }
}

/// The attributes tile the packed instance: the first starts at scalar 0,
/// each starts where the one before it ends, the last ends at scalar 15,
/// and each reads its own scalars of the instance. In bytes, an instance is
/// one stride long.
pub proof fn lemma_attributes_tile_instance(instance: SpriteInstance)
    ensures
        instance_attributes()[0].spec_offset() == 0,
        forall|a: int|
            0 <= a < instance_attributes().len() - 1 ==> (#[trigger] instance_attributes()[a
                + 1]).spec_offset() == instance_attributes()[a].spec_offset()
                + instance_attributes()[a].spec_scalars(),
        instance_attributes().last().spec_offset() + instance_attributes().last().spec_scalars()
            == INSTANCE_SCALARS,
        forall|attribute: Attribute|
            instance.packed().subrange(
                attribute.spec_offset() as int,
                attribute.spec_offset() + attribute.spec_scalars(),
            ) == #[trigger] attribute.of(instance),
        INSTANCE_SCALARS * SCALAR_BYTES == INSTANCE_STRIDE,
{
    let attrs = instance_attributes();
    assert forall|a: int| 0 <= a < attrs.len() - 1 implies (#[trigger] attrs[a + 1]).spec_offset()
        == attrs[a].spec_offset() + attrs[a].spec_scalars() by {
        if a == 0 {
        } else if a == 1 {
        } else if a == 2 {
        } else if a == 3 {
        } else if a == 4 {
        } else {
        }
    }
    assert forall|attribute: Attribute|
        instance.packed().subrange(
            attribute.spec_offset() as int,
            attribute.spec_offset() + attribute.spec_scalars(),
        ) == #[trigger] attribute.of(instance) by {
        assert(instance.packed().subrange(
            attribute.spec_offset() as int,
            attribute.spec_offset() + attribute.spec_scalars(),
        ) =~= attribute.of(instance));
    }
}

/// A packed instance has exactly [`INSTANCE_SCALARS`] scalars.
pub proof fn lemma_packed_len(instance: SpriteInstance)
    ensures
        instance.packed().len() == INSTANCE_SCALARS,
{
}

/// The packed scalars of a run of instances, one after the other.
pub open spec fn packed_all(instances: Seq<SpriteInstance>) -> Seq<Scalar>
    decreases instances.len(),
{
    if instances.len() == 0 {
        Seq::empty()
    } else {
        packed_all(instances.drop_last()) + instances.last().packed()
    }
}

/// A run of `n` instances packs into `15 * n` scalars, and the scalars of
/// instance `i` start at offset `15 * i`.
pub proof fn lemma_packed_all_layout(instances: Seq<SpriteInstance>)
    ensures
        packed_all(instances).len() == INSTANCE_SCALARS * instances.len(),
        forall|i: int, k: int|
            0 <= i < instances.len() && 0 <= k < INSTANCE_SCALARS ==> packed_all(instances)[
                INSTANCE_SCALARS * i + k
            ] == #[trigger] instances[i].packed()[k],
    decreases instances.len(),
{
    if instances.len() > 0 {
        let front = instances.drop_last();
        lemma_packed_all_layout(front);
        assert forall|i: int, k: int|
            0 <= i < instances.len() && 0 <= k < INSTANCE_SCALARS implies packed_all(instances)[
                INSTANCE_SCALARS * i + k
            ] == #[trigger] instances[i].packed()[k] by {
            if i < front.len() {
                assert(front[i] == instances[i]);
            }
        }
    }
}

} // verus!
