//! The per-frame batch: collecting quads, sorting them by texture, and
//! encoding them into draw calls.

use vstd::prelude::*;
use crate::assets::{SpriteSheetStorage, TextureStorage};
use crate::draw::{
    call_views, coalesce, emit, lemma_ascending_one_call_per_texture,
    lemma_changing_texture_one_call_each, lemma_coalesce_len, lemma_one_texture_one_call,
    texture_ascending, DrawCall, DrawCallView, TexturedInstance,
};
use crate::instance::{QuadGeometry, QuadProjection};
use crate::record::TextureDrawData;
use crate::sprite::{
    Flipped, Rgba, SpriteRender, SpriteSheet, Texture, TextureHandle, Transform,
};

verus! {

/// Why a quad was not collected.
#[derive(Clone, Copy, Debug, PartialEq, Eq, Structural)]
pub enum Rejection {
    /// The entity has no placement, so there is nothing to draw. This is not
    /// worth a warning.
    MissingTransform,
    /// The sprite sheet of this sprite is not loaded.
    SpriteSheetNotLoaded(SpriteRender),
    /// This texture is not loaded.
    TextureNotLoaded(TextureHandle),
}

impl Rejection {
    /// Whether the rejection points at an asset that is missing, which the
    /// caller should report.
    pub open spec fn spec_is_missing_asset(&self) -> bool {
        !(*self is MissingTransform)
    }

    #[verifier::when_used_as_spec(spec_is_missing_asset)]
    pub fn is_missing_asset(&self) -> (b: bool)
        ensures
            b == self.spec_is_missing_asset(),
    {
        match self {
            Rejection::MissingTransform => false,
            Rejection::SpriteSheetNotLoaded(_) => true,
            Rejection::TextureNotLoaded(_) => true,
        }
    }
}

/// The value behind an optional reference.
pub open spec fn pointee<T>(r: Option<&T>) -> Option<T> {
    match r {
        Some(v) => Some(*v),
        None => None,
    }
}

/// The record an image entity is collected as, or why it is not collected.
///
/// Without a placement the entity is skipped. Otherwise its texture must be
/// loaded, and the record takes the texture's size.
pub open spec fn image_record(
    texture_handle: TextureHandle,
    transform: Option<Transform>,
    flipped: Option<Flipped>,
    rgba: Option<Rgba>,
    textures: Map<u32, Texture>,
) -> Result<TextureDrawData, Rejection> {
    if transform is None {
        Err(Rejection::MissingTransform)
    } else if !textures.contains_key(texture_handle.id) {
        Err(Rejection::TextureNotLoaded(texture_handle))
    } else {
        Ok(
            TextureDrawData::Image {
                texture_handle,
                transform: transform->0,
                flipped,
                rgba,
                width: textures[texture_handle.id].width,
                height: textures[texture_handle.id].height,
            },
        )
    }
}

/// The record a sprite entity is collected as, or why it is not collected.
///
/// Without a placement the entity is skipped. Otherwise its sprite sheet
/// must be loaded, and then the sheet's texture. The record is drawn with
/// the sheet's texture. Whether the sprite index is one of the sheet's is
/// not looked at here.
pub open spec fn sprite_record(
    render: SpriteRender,
    transform: Option<Transform>,
    flipped: Option<Flipped>,
    rgba: Option<Rgba>,
    sheets: Map<u32, SpriteSheet>,
    textures: Map<u32, Texture>,
) -> Result<TextureDrawData, Rejection> {
    if transform is None {
        Err(Rejection::MissingTransform)
    } else if !sheets.contains_key(render.sprite_sheet.id) {
        Err(Rejection::SpriteSheetNotLoaded(render))
    } else if !textures.contains_key(sheets[render.sprite_sheet.id].texture.id) {
        Err(Rejection::TextureNotLoaded(sheets[render.sprite_sheet.id].texture))
    } else {
        Ok(
            TextureDrawData::Sprite {
                texture_handle: sheets[render.sprite_sheet.id].texture,
                render,
                flipped,
                rgba,
                transform: transform->0,
            },
        )
    }
}

/// The records after offering one more quad: the record is appended when
/// there is one, and nothing changes otherwise.
pub open spec fn offered(
    records: Seq<TextureDrawData>,
    outcome: Result<TextureDrawData, Rejection>,
) -> Seq<TextureDrawData> {
    match outcome {
        Ok(record) => records.push(record),
        Err(_) => records,
    }
}

/// What the caller is told about an offer.
pub open spec fn answer(outcome: Result<TextureDrawData, Rejection>) -> Result<(), Rejection> {
    match outcome {
        Ok(_) => Ok(()),
        Err(rejection) => Err(rejection),
    }
}

/// The records of `records` drawn with texture `id`, in order.
pub open spec fn with_texture(records: Seq<TextureDrawData>, id: u32) -> Seq<TextureDrawData> {
    records.filter(|r: TextureDrawData| r.spec_tex_id() == id)
}

/// Whether `records` is in ascending order of texture id.
pub open spec fn texture_sorted(records: Seq<TextureDrawData>) -> bool {
    forall|i: int, j: int|
        0 <= i <= j < records.len() ==> (#[trigger] records[i]).spec_tex_id() <= (
        #[trigger] records[j]).spec_tex_id()
}

/// Whether `after` is `before` sorted by texture id: the same records, in
/// ascending order of texture id, and the records of any one texture in the
/// order they had before.
pub open spec fn is_texture_sort(
    before: Seq<TextureDrawData>,
    after: Seq<TextureDrawData>,
) -> bool {
    &&& after.to_multiset() == before.to_multiset()
    &&& texture_sorted(after)
    &&& forall|id: u32| #[trigger] with_texture(after, id) == with_texture(before, id)
}

/// The encoded quads of `records`, each with its texture, given the outcome
/// of the numeric work of each.
pub open spec fn encoded(
    records: Seq<TextureDrawData>,
    sheets: Map<u32, SpriteSheet>,
    projections: Seq<QuadProjection>,
) -> Seq<TexturedInstance>
    recommends
        projections.len() == records.len(),
{
    Seq::new(
        records.len(),
        |i: int|
            TexturedInstance {
                texture: records[i].spec_texture_handle(),
                instance: records[i].spec_instance(sheets, projections[i]),
            },
    )
}

/// The numeric work of `records`, quad by quad.
pub open spec fn geometries(
    records: Seq<TextureDrawData>,
    sheets: Map<u32, SpriteSheet>,
) -> Seq<QuadGeometry> {
    Seq::new(records.len(), |i: int| records[i].spec_geometry(sheets))
}

/// Whether every record of `records` can be encoded against `sheets`.
pub open spec fn all_encodable(records: Seq<TextureDrawData>, sheets: Map<u32, SpriteSheet>) -> bool {
    forall|i: int| 0 <= i < records.len() ==> (#[trigger] records[i]).encodable(sheets)
}

/// Whether the assets of every record of `records` are loaded.
pub open spec fn all_resolved(
    records: Seq<TextureDrawData>,
    sheets: Map<u32, SpriteSheet>,
    textures: Map<u32, Texture>,
) -> bool {
    forall|i: int| 0 <= i < records.len() ==> (#[trigger] records[i]).resolved(sheets, textures)
}

/// A record is only ever made of loaded assets: whatever is accepted as an
/// image or as a sprite has its assets loaded.
pub proof fn lemma_accepted_is_resolved(
    texture_handle: TextureHandle,
    render: SpriteRender,
    transform: Option<Transform>,
    flipped: Option<Flipped>,
    rgba: Option<Rgba>,
    sheets: Map<u32, SpriteSheet>,
    textures: Map<u32, Texture>,
)
    ensures
        image_record(texture_handle, transform, flipped, rgba, textures) matches Ok(record)
            ==> record.resolved(sheets, textures),
        sprite_record(render, transform, flipped, rgba, sheets, textures) matches Ok(record)
            ==> record.resolved(sheets, textures),
{
}

/// Sorting keeps every record's assets loaded.
pub proof fn lemma_sort_keeps_resolved(
    before: Seq<TextureDrawData>,
    after: Seq<TextureDrawData>,
    sheets: Map<u32, SpriteSheet>,
    textures: Map<u32, Texture>,
)
    requires
        is_texture_sort(before, after),
        all_resolved(before, sheets, textures),
    ensures
        all_resolved(after, sheets, textures),
{
    before.to_multiset_ensures();
    after.to_multiset_ensures();
    assert forall|i: int| 0 <= i < after.len() implies (#[trigger] after[i]).resolved(
        sheets,
        textures,
    ) by {
        assert(after.contains(after[i]));
        assert(before.to_multiset().count(after[i]) > 0);
        assert(before.contains(after[i]));
        let j = choose|j: int| 0 <= j < before.len() && before[j] == after[i];
        assert(before[j].resolved(sheets, textures));
    }
}

/// A sequence in ascending order of texture id stays so without its last
/// record.
proof fn lemma_sorted_without_last(records: Seq<TextureDrawData>)
    requires
        texture_sorted(records),
        records.len() > 0,
    ensures
        texture_sorted(records.drop_last()),
{
    let front = records.drop_last();
    assert forall|i: int, j: int| 0 <= i <= j < front.len() implies (
    #[trigger] front[i]).spec_tex_id() <= (#[trigger] front[j]).spec_tex_id() by {
        assert(front[i] == records[i]);
        assert(front[j] == records[j]);
    }
}

/// Two sequences in ascending order of texture id that hold, texture by
/// texture, the same records in the same order are the same sequence.
proof fn lemma_sorted_groups_agree(first: Seq<TextureDrawData>, second: Seq<TextureDrawData>)
    requires
        texture_sorted(first),
        texture_sorted(second),
        first.len() == second.len(),
        forall|id: u32| #[trigger] with_texture(first, id) == with_texture(second, id),
    ensures
        first == second,
    decreases first.len(),
{
    if first.len() == 0 {
        assert(first =~= second);
    } else {
        let x = first.last();
        let y = second.last();
        let m = x.spec_tex_id();
        let k = y.spec_tex_id();
        let front = first.drop_last();
        let rest = second.drop_last();
        reveal(Seq::filter);
        assert(with_texture(first, m) == with_texture(front, m).push(x));
        assert(with_texture(second, k) == with_texture(rest, k).push(y));
        assert(m == k) by {
            // `x` is among the records of `second`, which ends with its largest id.
            assert(with_texture(second, m).last() == x);
            assert(with_texture(second, m).contains(x));
            second.lemma_filter_contains_rev(|r: TextureDrawData| r.spec_tex_id() == m, x);
            let j = choose|j: int| 0 <= j < second.len() && second[j] == x;
            assert(second[j].spec_tex_id() <= second[second.len() - 1].spec_tex_id());
            // And the other way round.
            assert(with_texture(first, k).last() == y);
            assert(with_texture(first, k).contains(y));
            first.lemma_filter_contains_rev(|r: TextureDrawData| r.spec_tex_id() == k, y);
            let i = choose|i: int| 0 <= i < first.len() && first[i] == y;
            assert(first[i].spec_tex_id() <= first[first.len() - 1].spec_tex_id());
        }
        assert(with_texture(front, m).push(x) == with_texture(rest, m).push(y));
        assert(x == y) by {
            assert(with_texture(front, m).push(x).last() == x);
            assert(with_texture(rest, m).push(y).last() == y);
        }
        assert forall|id: u32| #[trigger] with_texture(front, id) == with_texture(rest, id) by {
            assert(with_texture(first, id) == with_texture(second, id));
            if id == m {
                assert(with_texture(front, m) =~= with_texture(front, m).push(x).drop_last());
                assert(with_texture(rest, m) =~= with_texture(rest, m).push(y).drop_last());
            }
        }
        lemma_sorted_without_last(first);
        lemma_sorted_without_last(second);
        lemma_sorted_groups_agree(front, rest);
        assert(first =~= front.push(x));
        assert(second =~= rest.push(y));
    }
}

/// Sorting by texture id has exactly one outcome.
pub proof fn lemma_texture_sort_unique(
    before: Seq<TextureDrawData>,
    first: Seq<TextureDrawData>,
    second: Seq<TextureDrawData>,
)
    requires
        is_texture_sort(before, first),
        is_texture_sort(before, second),
    ensures
        first == second,
{
    before.to_multiset_ensures();
    first.to_multiset_ensures();
    second.to_multiset_ensures();
    assert forall|id: u32| #[trigger] with_texture(first, id) == with_texture(second, id) by {
        assert(with_texture(first, id) == with_texture(before, id));
        assert(with_texture(second, id) == with_texture(before, id));
    }
    lemma_sorted_groups_agree(first, second);
}

/// A sequence that is already in ascending order of texture id is its own
/// sorted outcome: sorting it changes nothing.
pub proof fn lemma_sorted_stays(records: Seq<TextureDrawData>, after: Seq<TextureDrawData>)
    requires
        texture_sorted(records),
        is_texture_sort(records, after),
    ensures
        after == records,
{
    lemma_texture_sort_unique(records, records, after);
}

/// A batch whose quads all share one texture is drawn by exactly one call,
/// which draws every quad of the batch, in batch order.
pub proof fn lemma_one_texture_batch(
    records: Seq<TextureDrawData>,
    sheets: Map<u32, SpriteSheet>,
    projections: Seq<QuadProjection>,
)
    requires
        records.len() > 0,
        forall|i: int|
            0 <= i < records.len() ==> (#[trigger] records[i]).spec_tex_id()
                == records[0].spec_tex_id(),
    ensures
        coalesce(encoded(records, sheets, projections)).len() == 1,
        coalesce(encoded(records, sheets, projections))[0].texture
            == records[0].spec_texture_handle(),
        coalesce(encoded(records, sheets, projections))[0].instances.len() == records.len(),
        forall|i: int|
            0 <= i < records.len() ==> coalesce(encoded(records, sheets, projections))[0].instances[i]
                == (#[trigger] records[i]).spec_instance(sheets, projections[i]),
{
    let items = encoded(records, sheets, projections);
    assert forall|i: int| 0 <= i < items.len() implies (#[trigger] items[i]).texture
        == items[0].texture by {
        assert(records[i].spec_tex_id() == records[0].spec_tex_id());
    }
    lemma_one_texture_one_call(items);
    assert forall|i: int| 0 <= i < records.len() implies coalesce(items)[0].instances[i] == (
    #[trigger] records[i]).spec_instance(sheets, projections[i]) by {
        assert(coalesce(items)[0].instances[i] == items[i].instance);
    }
}

/// A batch whose quads all have different textures is drawn by one call per
/// quad: call `i` draws quad `i` alone, with that quad's texture.
pub proof fn lemma_distinct_textures_batch(
    records: Seq<TextureDrawData>,
    sheets: Map<u32, SpriteSheet>,
    projections: Seq<QuadProjection>,
)
    requires
        forall|i: int, j: int|
            0 <= i < j < records.len() ==> (#[trigger] records[i]).spec_tex_id() != (
            #[trigger] records[j]).spec_tex_id(),
    ensures
        coalesce(encoded(records, sheets, projections)).len() == records.len(),
        forall|i: int|
            0 <= i < records.len() ==> (#[trigger] coalesce(
                encoded(records, sheets, projections),
            )[i]) == (DrawCallView {
                texture: records[i].spec_texture_handle(),
                instances: seq![records[i].spec_instance(sheets, projections[i])],
            }),
{
    let items = encoded(records, sheets, projections);
    assert forall|i: int| 0 <= i < items.len() - 1 implies (#[trigger] items[i]).texture
        != items[i + 1].texture by {
        assert(records[i].spec_tex_id() != records[i + 1].spec_tex_id());
    }
    lemma_changing_texture_one_call_each(items);
}

/// A batch sorted by texture id is drawn with one call per texture: the
/// textures of its calls are strictly ascending.
pub proof fn lemma_sorted_batch_one_call_per_texture(
    records: Seq<TextureDrawData>,
    sheets: Map<u32, SpriteSheet>,
    projections: Seq<QuadProjection>,
)
    requires
        texture_sorted(records),
    ensures
        forall|c: int, d: int|
            0 <= c < d < coalesce(encoded(records, sheets, projections)).len() ==> (
            #[trigger] coalesce(encoded(records, sheets, projections))[c]).texture.id < (
            #[trigger] coalesce(encoded(records, sheets, projections))[d]).texture.id,
{
    let items = encoded(records, sheets, projections);
    assert(texture_ascending(items)) by {
        assert forall|i: int, j: int| 0 <= i <= j < items.len() implies (
        #[trigger] items[i]).texture.id <= (#[trigger] items[j]).texture.id by {
            assert(records[i].spec_tex_id() <= records[j].spec_tex_id());
        }
    }
    lemma_ascending_one_call_per_texture(items);
}

/// An empty batch is drawn by no call at all, whatever the asset stores
/// hold.
pub proof fn lemma_empty_batch_no_calls(
    sheets: Map<u32, SpriteSheet>,
    projections: Seq<QuadProjection>,
)
    ensures
        coalesce(encoded(Seq::<TextureDrawData>::empty(), sheets, projections))
            == Seq::<DrawCallView>::empty(),
{
    assert(encoded(Seq::<TextureDrawData>::empty(), sheets, projections).len() == 0);
}

/// Sorts by texture id with the standard library's `sort_by`, comparing the
/// ids with `u32::cmp`. The standard library documents the sort as stable:
/// the outcome holds the same records, in ascending order of the key, and
/// records with equal keys keep their order.
#[verifier::external_body]
fn sort_by_texture(records: &mut Vec<TextureDrawData>)
    ensures
        is_texture_sort(old(records)@, final(records)@),
{
    records.sort_by(|a, b| a.tex_id().cmp(&b.tex_id()));
}

/// The quads of the current frame, in draw order.
#[derive(Clone, Debug)]
pub struct TextureBatch {
    textures: Vec<TextureDrawData>,
}

impl View for TextureBatch {
    type V = Seq<TextureDrawData>;

    closed spec fn view(&self) -> Seq<TextureDrawData> {
        self.textures@
    }
}

impl Default for TextureBatch {
    fn default() -> (batch: Self)
        ensures
            batch@ == Seq::<TextureDrawData>::empty(),
    {
        TextureBatch::new()
    }
}

impl TextureBatch {
    /// An empty batch.
    pub fn new() -> (batch: Self)
        ensures
            batch@ == Seq::<TextureDrawData>::empty(),
    {
        TextureBatch { textures: Vec::new() }
    }

    /// How many quads are collected.
    pub fn len(&self) -> (n: usize)
        ensures
            n == self@.len(),
    {
        self.textures.len()
    }

    pub fn is_empty(&self) -> (b: bool)
        ensures
            b == (self@.len() == 0),
    {
        self.textures.len() == 0
    }

    /// The collected quads, in draw order.
    pub fn records(&self) -> (records: &Vec<TextureDrawData>)
        ensures
            records@ == self@,
    {
        &self.textures
    }

    /// Offers an image entity to the batch.
    ///
    /// The entity is collected, at the end of the batch, when it has a
    /// placement and its texture is loaded. Otherwise the batch is left as
    /// it was and the reason is returned.
    pub fn add_image(
        &mut self,
        texture_handle: &TextureHandle,
        transform: Option<&Transform>,
        flipped: Option<&Flipped>,
        rgba: Option<&Rgba>,
        tex_storage: &TextureStorage,
    ) -> (r: Result<(), Rejection>)
        ensures
            final(self)@ == offered(
                old(self)@,
                image_record(
                    *texture_handle,
                    pointee(transform),
                    pointee(flipped),
                    pointee(rgba),
                    tex_storage@,
                ),
            ),
            r == answer(
                image_record(
                    *texture_handle,
                    pointee(transform),
                    pointee(flipped),
                    pointee(rgba),
                    tex_storage@,
                ),
            ),
            final(self)@.len() <= old(self)@.len() + 1,
    {
        let transform = match transform {
            Some(v) => v,
            None => return Err(Rejection::MissingTransform),
        };
        let texture_dims = match tex_storage.get(texture_handle) {
            Some(tex) => tex.size(),
            None => return Err(Rejection::TextureNotLoaded(*texture_handle)),
        };
        self.textures.push(
            TextureDrawData::Image {
                texture_handle: *texture_handle,
                transform: *transform,
                flipped: copied(flipped),
                rgba: copied(rgba),
                width: texture_dims.0,
                height: texture_dims.1,
            },
        );
        Ok(())
    }

    /// Offers a sprite entity to the batch.
    ///
    /// The entity is collected, at the end of the batch, when it has a
    /// placement, its sprite sheet is loaded and the sheet's texture is
    /// loaded. Otherwise the batch is left as it was and the reason is
    /// returned.
    pub fn add_sprite(
        &mut self,
        sprite_render: &SpriteRender,
        transform: Option<&Transform>,
        flipped: Option<&Flipped>,
        rgba: Option<&Rgba>,
        sprite_sheet_storage: &SpriteSheetStorage,
        tex_storage: &TextureStorage,
    ) -> (r: Result<(), Rejection>)
        ensures
            final(self)@ == offered(
                old(self)@,
                sprite_record(
                    *sprite_render,
                    pointee(transform),
                    pointee(flipped),
                    pointee(rgba),
                    sprite_sheet_storage@,
                    tex_storage@,
                ),
            ),
            r == answer(
                sprite_record(
                    *sprite_render,
                    pointee(transform),
                    pointee(flipped),
                    pointee(rgba),
                    sprite_sheet_storage@,
                    tex_storage@,
                ),
            ),
            final(self)@.len() <= old(self)@.len() + 1,
    {
        let transform = match transform {
            Some(v) => v,
            None => return Err(Rejection::MissingTransform),
        };
        let texture_handle = match sprite_sheet_storage.get(&sprite_render.sprite_sheet) {
            Some(sprite_sheet) => {
                if tex_storage.get(&sprite_sheet.texture).is_none() {
                    return Err(Rejection::TextureNotLoaded(sprite_sheet.texture));
                }
                sprite_sheet.texture
            },
            None => return Err(Rejection::SpriteSheetNotLoaded(*sprite_render)),
        };
        self.textures.push(
            TextureDrawData::Sprite {
                texture_handle,
                render: *sprite_render,
                flipped: copied(flipped),
                rgba: copied(rgba),
                transform: *transform,
            },
        );
        Ok(())
    }

    /// Puts the collected quads in ascending order of texture id, so that
    /// quads of one texture stand together. Quads of one texture keep the
    /// order they were collected in.
    pub fn sort(&mut self)
        ensures
            is_texture_sort(old(self)@, final(self)@),
            final(self)@.len() == old(self)@.len(),
    {
        sort_by_texture(&mut self.textures);
        proof {
            old(self)@.to_multiset_ensures();
            self@.to_multiset_ensures();
        }
    }

    /// Decides whether every collected quad can be encoded against `sheets`.
    pub fn is_encodable(&self, sheets: &SpriteSheetStorage) -> (ok: bool)
        ensures
            ok == all_encodable(self@, sheets@),
    {
        let n: usize = self.textures.len();
        let mut i: usize = 0;
        while i < n
            invariant
                n == self.textures@.len(),
                i <= n,
                forall|k: int| 0 <= k < i ==> (#[trigger] self.textures@[k]).encodable(sheets@),
            decreases n - i,
        {
            if !self.textures[i].is_encodable(sheets) {
                return false;
            }
            i = i + 1;
        }
        true
    }

    /// The numeric work of the collected quads, quad by quad.
    pub fn geometry(&self, sheets: &SpriteSheetStorage) -> (work: Vec<QuadGeometry>)
        requires
            all_encodable(self@, sheets@),
        ensures
            work@ == geometries(self@, sheets@),
    {
        let mut work: Vec<QuadGeometry> = Vec::new();
        let n: usize = self.textures.len();
        let mut i: usize = 0;
        while i < n
            invariant
                n == self.textures@.len(),
                i <= n,
                all_encodable(self.textures@, sheets@),
                work@.len() == i,
                forall|k: int|
                    0 <= k < i ==> work@[k] == (#[trigger] self.textures@[k]).spec_geometry(
                        sheets@,
                    ),
            decreases n - i,
        {
            work.push(self.textures[i].geometry(sheets));
            i = i + 1;
        }
        proof {
            assert(work@ =~= geometries(self@, sheets@));
        }
        work
    }

    /// Encodes the collected quads, each with its texture.
    pub fn instances(&self, sheets: &SpriteSheetStorage, projections: &Vec<QuadProjection>) -> (items:
        Vec<TexturedInstance>)
        requires
            all_encodable(self@, sheets@),
            projections@.len() == self@.len(),
        ensures
            items@ == encoded(self@, sheets@, projections@),
    {
        let mut items: Vec<TexturedInstance> = Vec::new();
        let n: usize = self.textures.len();
        let mut i: usize = 0;
        while i < n
            invariant
                n == self.textures@.len(),
                n == projections@.len(),
                i <= n,
                all_encodable(self.textures@, sheets@),
                items@.len() == i,
                forall|k: int|
                    0 <= k < i ==> (#[trigger] items@[k]) == encoded(
                        self.textures@,
                        sheets@,
                        projections@,
                    )[k],
            decreases n - i,
        {
            let quad = &self.textures[i];
            items.push(
                TexturedInstance {
                    texture: *quad.texture_handle(),
                    instance: quad.instance(sheets, &projections[i]),
                },
            );
            i = i + 1;
        }
        proof {
            assert(items@ =~= encoded(self@, sheets@, projections@));
        }
        items
    }

    /// Encodes the collected quads and merges them into draw calls: one call
    /// for each maximal run of quads that share a texture, in batch order.
    /// An empty batch gives no draw call.
    pub fn encode(&self, sheets: &SpriteSheetStorage, projections: &Vec<QuadProjection>) -> (calls:
        Vec<DrawCall>)
        requires
            all_encodable(self@, sheets@),
            projections@.len() == self@.len(),
        ensures
            call_views(calls@) == coalesce(encoded(self@, sheets@, projections@)),
            calls@.len() <= self@.len(),
            self@.len() == 0 ==> calls@.len() == 0,
    {
        proof {
            lemma_coalesce_len(encoded(self@, sheets@, projections@));
        }
        if self.textures.is_empty() {
            proof {
                assert(call_views(Seq::<DrawCall>::empty()) =~= coalesce(
                    encoded(self@, sheets@, projections@),
                ));
            }
            return Vec::new();
        }
        let items = self.instances(sheets, projections);
        emit(&items)
    }

    /// Forgets every collected quad.
    pub fn reset(&mut self)
        ensures
            final(self)@ == Seq::<TextureDrawData>::empty(),
    {
        self.textures.clear();
    }
}

/// The value behind an optional reference, copied out.
fn copied<T: Copy>(r: Option<&T>) -> (v: Option<T>)
    ensures
        v == pointee(r),
{
    match r {
        Some(x) => Some(*x),
        None => None,
    }
}

} // verus!
