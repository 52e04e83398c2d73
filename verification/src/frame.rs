//! The frame: which entities of a world are collected into the batch, and in
//! which order.

use vstd::prelude::*;
use crate::assets::{SpriteSheetStorage, TextureStorage};
use crate::batch::{
    all_resolved, answer, image_record, is_texture_sort, lemma_sort_keeps_resolved, offered,
    pointee, sprite_record, Rejection, TextureBatch,
};
use crate::record::TextureDrawData;
use crate::sprite::{
    Flipped, Rgba, SpriteRender, SpriteSheet, Texture, TextureHandle, Transform,
};

verus! {

/// The components of one entity that the batch looks at.
#[derive(Clone, Copy, Debug, PartialEq, Eq, Structural)]
pub struct Components {
    /// Present when the entity is drawn as a sprite.
    pub sprite: Option<SpriteRender>,
    /// Present when the entity is drawn as a whole texture.
    pub texture: Option<TextureHandle>,
    pub transform: Option<Transform>,
    pub flipped: Option<Flipped>,
    pub rgba: Option<Rgba>,
    /// The entity itself is marked hidden.
    pub hidden: bool,
    /// The entity is hidden through one of its ancestors.
    pub hidden_propagate: bool,
    /// The entity also carries a mesh, which another pass draws. Such an
    /// entity is never drawn as an image.
    pub mesh: bool,
}

/// The outcome of visibility culling. Entities are named by their index in
/// the frame's entity list.
#[derive(Clone, Debug)]
pub struct SpriteVisibility {
    /// For each entity, whether it is visible and may be drawn in any order.
    /// Entities past the end are not.
    pub visible_unordered: Vec<bool>,
    /// The visible entities that must be drawn in exactly this order.
    pub visible_ordered: Vec<usize>,
}

/// What comes of one entity in one pass over the entities: nothing when the
/// entity is not a candidate, and otherwise the record it is collected as or
/// the reason it is rejected.
pub type Offer = Option<Result<TextureDrawData, Rejection>>;

/// Whether entity `i` takes part in the unordered passes. With culling, the
/// culling decides. Without it, every entity does that is not hidden.
pub open spec fn takes_part(c: Components, visibility: Option<SpriteVisibility>, i: int) -> bool {
    match visibility {
        None => !c.hidden && !c.hidden_propagate,
        Some(v) => 0 <= i < v.visible_unordered@.len() && v.visible_unordered@[i],
    }
}

/// The offer an entity makes in the unordered sprite pass: it is a candidate
/// when it takes part and has a sprite and a placement.
pub open spec fn unordered_sprite(
    c: Components,
    taking_part: bool,
    sheets: Map<u32, SpriteSheet>,
    textures: Map<u32, Texture>,
) -> Offer {
    if c.sprite is Some && c.transform is Some && taking_part {
        Some(sprite_record(c.sprite->0, c.transform, c.flipped, c.rgba, sheets, textures))
    } else {
        None
    }
}

/// The offer an entity makes in the unordered image pass: it is a candidate
/// when it takes part, has a texture and a placement, and has no mesh.
pub open spec fn unordered_image(c: Components, taking_part: bool, textures: Map<u32, Texture>) -> Offer {
    if c.texture is Some && c.transform is Some && taking_part && !c.mesh {
        Some(image_record(c.texture->0, c.transform, c.flipped, c.rgba, textures))
    } else {
        None
    }
}

/// The offer entity `e` makes in the ordered pass: as a sprite when it has
/// one, else as an image when it has a texture and no mesh. An index past
/// the end of the entity list names an entity without components.
pub open spec fn ordered_entity(
    entities: Seq<Components>,
    e: usize,
    sheets: Map<u32, SpriteSheet>,
    textures: Map<u32, Texture>,
) -> Offer {
    if e >= entities.len() {
        None
    } else if entities[e as int].sprite is Some {
        let c = entities[e as int];
        Some(sprite_record(c.sprite->0, c.transform, c.flipped, c.rgba, sheets, textures))
    } else if entities[e as int].texture is Some && !entities[e as int].mesh {
        let c = entities[e as int];
        Some(image_record(c.texture->0, c.transform, c.flipped, c.rgba, textures))
    } else {
        None
    }
}

/// The offers of the unordered sprite pass, entity by entity.
pub open spec fn sprite_offers(
    entities: Seq<Components>,
    visibility: Option<SpriteVisibility>,
    sheets: Map<u32, SpriteSheet>,
    textures: Map<u32, Texture>,
) -> Seq<Offer> {
    Seq::new(
        entities.len(),
        |i: int| unordered_sprite(entities[i], takes_part(entities[i], visibility, i), sheets, textures),
    )
}

/// The offers of the unordered image pass, entity by entity.
pub open spec fn image_offers(
    entities: Seq<Components>,
    visibility: Option<SpriteVisibility>,
    textures: Map<u32, Texture>,
) -> Seq<Offer> {
    Seq::new(
        entities.len(),
        |i: int| unordered_image(entities[i], takes_part(entities[i], visibility, i), textures),
    )
}

/// The offers of the ordered pass, in the order culling gave. Without
/// culling there is no ordered pass.
pub open spec fn ordered_offers(
    entities: Seq<Components>,
    visibility: Option<SpriteVisibility>,
    sheets: Map<u32, SpriteSheet>,
    textures: Map<u32, Texture>,
) -> Seq<Offer> {
    match visibility {
        None => Seq::empty(),
        Some(v) => Seq::new(
            v.visible_ordered@.len(),
            |j: int| ordered_entity(entities, v.visible_ordered@[j], sheets, textures),
        ),
    }
}

/// The records collected from a sequence of offers, in order.
pub open spec fn collected(offers: Seq<Offer>) -> Seq<TextureDrawData>
    decreases offers.len(),
{
    if offers.len() == 0 {
        Seq::empty()
    } else {
        match offers.last() {
            Some(outcome) => offered(collected(offers.drop_last()), outcome),
            None => collected(offers.drop_last()),
        }
    }
}

/// The warnings after one more answer: a missing asset is added, anything
/// else changes nothing.
pub open spec fn noted(warnings: Seq<Rejection>, answer: Result<(), Rejection>) -> Seq<Rejection> {
    match answer {
        Err(rejection) => if rejection.spec_is_missing_asset() {
            warnings.push(rejection)
        } else {
            warnings
        },
        Ok(_) => warnings,
    }
}

/// The missing assets met in a sequence of offers, in order.
pub open spec fn reported(offers: Seq<Offer>) -> Seq<Rejection>
    decreases offers.len(),
{
    if offers.len() == 0 {
        Seq::empty()
    } else {
        match offers.last() {
            Some(outcome) => noted(reported(offers.drop_last()), answer(outcome)),
            None => reported(offers.drop_last()),
        }
    }
}

/// Collecting is partial: a sequence of offers never yields more records
/// than it has offers, and each offer adds at most one record.
pub proof fn lemma_collected_len(offers: Seq<Offer>)
    ensures
        collected(offers).len() <= offers.len(),
        offers.len() > 0 ==> collected(offers.drop_last()).len() <= collected(offers).len()
            <= collected(offers.drop_last()).len() + 1,
    decreases offers.len(),
{
    if offers.len() > 0 {
        lemma_collected_len(offers.drop_last());
    }
}

/// How many offers of `offers` were made: the candidates among the
/// entities the offers stand for.
pub open spec fn made(offers: Seq<Offer>) -> nat
    decreases offers.len(),
{
    if offers.len() == 0 {
        0
    } else if offers.last() is Some {
        made(offers.drop_last()) + 1
    } else {
        made(offers.drop_last())
    }
}

/// There are never more records than candidates: the records collected from
/// a sequence of offers are at most the offers that were made, which are at
/// most the entities offered.
pub proof fn lemma_collected_at_most_made(offers: Seq<Offer>)
    ensures
        collected(offers).len() <= made(offers) <= offers.len(),
    decreases offers.len(),
{
    if offers.len() > 0 {
        lemma_collected_at_most_made(offers.drop_last());
    }
}

/// An entity that carries a mesh is never drawn as an image: it makes no
/// offer in the unordered image pass, and whatever it makes in the ordered
/// pass is a sprite.
pub proof fn lemma_mesh_is_never_an_image(
    entities: Seq<Components>,
    e: usize,
    taking_part: bool,
    sheets: Map<u32, SpriteSheet>,
    textures: Map<u32, Texture>,
)
    requires
        e < entities.len(),
        entities[e as int].mesh,
    ensures
        unordered_image(entities[e as int], taking_part, textures) is None,
        ordered_entity(entities, e, sheets, textures) matches Some(Ok(record)) ==> record is Sprite,
        entities[e as int].sprite is None ==> ordered_entity(entities, e, sheets, textures) is None,
{
}

/// Offers that are all rejected or not made yield no record, and the records
/// of offers that are all accepted are those records.
pub proof fn lemma_collected_extremes(offers: Seq<Offer>)
    ensures
        (forall|i: int| 0 <= i < offers.len() ==> !((#[trigger] offers[i]) matches Some(Ok(_))))
            ==> collected(offers).len() == 0,
        (forall|i: int| 0 <= i < offers.len() ==> (#[trigger] offers[i]) matches Some(Ok(_)))
            ==> collected(offers).len() == offers.len(),
    decreases offers.len(),
{
    if offers.len() > 0 {
        let front = offers.drop_last();
        lemma_collected_extremes(front);
        assert(offers.last() == offers[offers.len() - 1]);
        assert forall|i: int| 0 <= i < front.len() implies front[i] == offers[i] by {}
        if forall|i: int| 0 <= i < offers.len() ==> !((#[trigger] offers[i]) matches Some(Ok(_))) {
            assert forall|i: int| 0 <= i < front.len() implies !((#[trigger] front[i]) matches Some(
                Ok(_),
            )) by {
                assert(front[i] == offers[i]);
            }
        }
        if forall|i: int| 0 <= i < offers.len() ==> (#[trigger] offers[i]) matches Some(Ok(_)) {
            assert forall|i: int| 0 <= i < front.len() implies (#[trigger] front[i]) matches Some(
                Ok(_),
            ) by {
                assert(front[i] == offers[i]);
            }
        }
    }
}

/// Whether an offer was made and accepted.
pub open spec fn accepted(offer: Offer) -> bool {
    offer matches Some(Ok(_))
}

/// The record of an accepted offer.
pub open spec fn record_of(offer: Offer) -> TextureDrawData
    recommends
        accepted(offer),
{
    offer->0->Ok_0
}

/// The collected records are the records of the accepted offers, in the
/// order of the offers: nothing is added, dropped or moved.
pub proof fn lemma_collected_keeps_order(offers: Seq<Offer>)
    ensures
        collected(offers) == offers.filter(|o: Offer| accepted(o)).map_values(
            |o: Offer| record_of(o),
        ),
    decreases offers.len(),
{
    let keep = |o: Offer| accepted(o);
    let record = |o: Offer| record_of(o);
    reveal(Seq::filter);
    if offers.len() == 0 {
        assert(offers.filter(keep).map_values(record) =~= collected(offers));
    } else {
        let front = offers.drop_last();
        lemma_collected_keeps_order(front);
        if accepted(offers.last()) {
            assert(offers.filter(keep) == front.filter(keep).push(offers.last()));
            assert(offers.filter(keep).map_values(record) =~= front.filter(keep).map_values(
                record,
            ).push(record_of(offers.last())));
        } else {
            assert(offers.filter(keep) == front.filter(keep));
        }
    }
}

/// Collecting one sequence of offers after another collects the records of
/// the first, followed by the records of the second.
pub proof fn lemma_collected_concat(first: Seq<Offer>, second: Seq<Offer>)
    ensures
        collected(first + second) == collected(first) + collected(second),
    decreases second.len(),
{
    if second.len() == 0 {
        assert(first + second =~= first);
        assert(collected(first) + collected(second) =~= collected(first));
    } else {
        let all = first + second;
        assert(all.drop_last() =~= first + second.drop_last());
        assert(all.last() == second.last());
        lemma_collected_concat(first, second.drop_last());
        assert(collected(all) =~= collected(first) + collected(second));
    }
}

/// Whether `after` is what a frame's collection makes of the records
/// `before`.
///
/// The unordered sprites are collected first, then the unordered images;
/// all records so far are then sorted by texture id. The records of the
/// ordered pass follow, exactly in the order culling gave, whatever the sort
/// did to the records before them.
pub open spec fn is_frame_collection(
    before: Seq<TextureDrawData>,
    entities: Seq<Components>,
    visibility: Option<SpriteVisibility>,
    sheets: Map<u32, SpriteSheet>,
    textures: Map<u32, Texture>,
    after: Seq<TextureDrawData>,
) -> bool {
    let sprites = collected(sprite_offers(entities, visibility, sheets, textures));
    let images = collected(image_offers(entities, visibility, textures));
    let ordered = collected(ordered_offers(entities, visibility, sheets, textures));
    let unordered = before.len() + sprites.len() + images.len();
    &&& after.len() == unordered + ordered.len()
    &&& is_texture_sort(before + sprites + images, after.take(unordered as int))
    &&& after.skip(unordered as int) == ordered
}

/// The warnings of a frame's collection: the missing assets met in the
/// sprite pass, then the image pass, then the ordered pass.
pub open spec fn frame_warnings(
    entities: Seq<Components>,
    visibility: Option<SpriteVisibility>,
    sheets: Map<u32, SpriteSheet>,
    textures: Map<u32, Texture>,
) -> Seq<Rejection> {
    reported(sprite_offers(entities, visibility, sheets, textures)) + reported(
        image_offers(entities, visibility, textures),
    ) + reported(ordered_offers(entities, visibility, sheets, textures))
}

/// The candidates of a frame: the offers made in its three passes.
pub open spec fn frame_candidates(
    entities: Seq<Components>,
    visibility: Option<SpriteVisibility>,
    sheets: Map<u32, SpriteSheet>,
    textures: Map<u32, Texture>,
) -> nat {
    made(sprite_offers(entities, visibility, sheets, textures)) + made(
        image_offers(entities, visibility, textures),
    ) + made(ordered_offers(entities, visibility, sheets, textures))
}

/// A frame never collects more records than it has candidates: the records
/// it adds are at most the offers made in its three passes, which are at
/// most one per entity in each of the two unordered passes and one per
/// entry of the ordered list.
pub proof fn lemma_frame_collection_len(
    before: Seq<TextureDrawData>,
    entities: Seq<Components>,
    visibility: Option<SpriteVisibility>,
    sheets: Map<u32, SpriteSheet>,
    textures: Map<u32, Texture>,
    after: Seq<TextureDrawData>,
)
    requires
        is_frame_collection(before, entities, visibility, sheets, textures, after),
    ensures
        after.len() <= before.len() + frame_candidates(entities, visibility, sheets, textures),
        frame_candidates(entities, visibility, sheets, textures) <= 2 * entities.len()
            + ordered_offers(entities, visibility, sheets, textures).len(),
        after.len() <= before.len() + 2 * entities.len() + ordered_offers(
            entities,
            visibility,
            sheets,
            textures,
        ).len(),
{
    lemma_collected_at_most_made(sprite_offers(entities, visibility, sheets, textures));
    lemma_collected_at_most_made(image_offers(entities, visibility, textures));
    lemma_collected_at_most_made(ordered_offers(entities, visibility, sheets, textures));
}

/// The records of the ordered pass stand at the end of the batch in exactly
/// the order culling gave: record `j` of the ordered pass is the `j`-th
/// record after the sorted ones, and the ordered records are the accepted
/// ordered offers, none moved.
pub proof fn lemma_ordered_pass_keeps_order(
    before: Seq<TextureDrawData>,
    entities: Seq<Components>,
    visibility: Option<SpriteVisibility>,
    sheets: Map<u32, SpriteSheet>,
    textures: Map<u32, Texture>,
    after: Seq<TextureDrawData>,
)
    requires
        is_frame_collection(before, entities, visibility, sheets, textures, after),
    ensures
        ({
            let offers = ordered_offers(entities, visibility, sheets, textures);
            let ordered = offers.filter(|o: Offer| accepted(o)).map_values(|o: Offer| record_of(o));
            let start = after.len() - ordered.len();
            &&& start >= 0
            &&& forall|j: int| 0 <= j < ordered.len() ==> after[start + j] == #[trigger] ordered[j]
        }),
{
    let offers = ordered_offers(entities, visibility, sheets, textures);
    lemma_collected_keeps_order(offers);
}

/// Whether every record that `offers` holds has its assets loaded.
pub open spec fn offers_resolved(
    offers: Seq<Offer>,
    sheets: Map<u32, SpriteSheet>,
    textures: Map<u32, Texture>,
) -> bool {
    forall|i: int|
        0 <= i < offers.len() && accepted(#[trigger] offers[i]) ==> record_of(offers[i]).resolved(
            sheets,
            textures,
        )
}

/// Records collected from offers whose assets are loaded have their assets
/// loaded.
proof fn lemma_collected_resolved(
    offers: Seq<Offer>,
    sheets: Map<u32, SpriteSheet>,
    textures: Map<u32, Texture>,
)
    requires
        offers_resolved(offers, sheets, textures),
    ensures
        all_resolved(collected(offers), sheets, textures),
    decreases offers.len(),
{
    if offers.len() > 0 {
        let front = offers.drop_last();
        assert(offers_resolved(front, sheets, textures)) by {
            assert forall|i: int| 0 <= i < front.len() && accepted(
                #[trigger] front[i],
            ) implies record_of(front[i]).resolved(sheets, textures) by {
                assert(front[i] == offers[i]);
            }
        }
        lemma_collected_resolved(front, sheets, textures);
        assert(offers.last() == offers[offers.len() - 1]);
    }
}

/// A frame's collection keeps the batch resolved: if the assets of every
/// record were loaded before, they are after. Every record the frame adds
/// was made of loaded assets.
pub proof fn lemma_frame_collection_resolved(
    before: Seq<TextureDrawData>,
    entities: Seq<Components>,
    visibility: Option<SpriteVisibility>,
    sheets: Map<u32, SpriteSheet>,
    textures: Map<u32, Texture>,
    after: Seq<TextureDrawData>,
)
    requires
        is_frame_collection(before, entities, visibility, sheets, textures, after),
        all_resolved(before, sheets, textures),
    ensures
        all_resolved(after, sheets, textures),
{
    let s_offers = sprite_offers(entities, visibility, sheets, textures);
    let i_offers = image_offers(entities, visibility, textures);
    let o_offers = ordered_offers(entities, visibility, sheets, textures);
    lemma_collected_resolved(s_offers, sheets, textures);
    lemma_collected_resolved(i_offers, sheets, textures);
    lemma_collected_resolved(o_offers, sheets, textures);
    let sprites = collected(s_offers);
    let images = collected(i_offers);
    let ordered = collected(o_offers);
    let unordered = before.len() + sprites.len() + images.len();
    let mixed = before + sprites + images;
    assert(all_resolved(mixed, sheets, textures)) by {
        assert forall|i: int| 0 <= i < mixed.len() implies (#[trigger] mixed[i]).resolved(
            sheets,
            textures,
        ) by {
            if i < before.len() {
                assert(mixed[i] == before[i]);
            } else if i < before.len() + sprites.len() {
                assert(mixed[i] == sprites[i - before.len()]);
            } else {
                assert(mixed[i] == images[i - before.len() - sprites.len()]);
            }
        }
    }
    lemma_sort_keeps_resolved(mixed, after.take(unordered as int), sheets, textures);
    assert forall|i: int| 0 <= i < after.len() implies (#[trigger] after[i]).resolved(
        sheets,
        textures,
    ) by {
        if i < unordered {
            assert(after[i] == after.take(unordered as int)[i]);
        } else {
            assert(after[i] == after.skip(unordered as int)[i - unordered]);
            assert(after[i] == ordered[i - unordered]);
        }
    }
}

/// Adds an answer to the warnings if it is a missing asset.
fn note(warnings: &mut Vec<Rejection>, answer: Result<(), Rejection>)
    ensures
        final(warnings)@ == noted(old(warnings)@, answer),
{
    match answer {
        Err(rejection) => {
            if rejection.is_missing_asset() {
                warnings.push(rejection);
            }
        },
        Ok(_) => {},
    }
}

/// Decides [`takes_part`] for entity `i`.
fn entity_takes_part(c: &Components, visibility: Option<&SpriteVisibility>, i: usize) -> (b: bool)
    ensures
        b == takes_part(*c, pointee(visibility), i as int),
{
    match visibility {
        None => !c.hidden && !c.hidden_propagate,
        Some(v) => i < v.visible_unordered.len() && v.visible_unordered[i],
    }
}

impl TextureBatch {
    /// Collects the quads of a frame and returns the assets found missing.
    ///
    /// `entities` lists the components of every entity; `visibility` is the
    /// outcome of culling, if culling ran. See [`is_frame_collection`] for
    /// what is collected and in which order.
    pub fn collect(
        &mut self,
        entities: &Vec<Components>,
        visibility: Option<&SpriteVisibility>,
        sprite_sheet_storage: &SpriteSheetStorage,
        tex_storage: &TextureStorage,
    ) -> (warnings: Vec<Rejection>)
        ensures
            is_frame_collection(
                old(self)@,
                entities@,
                pointee(visibility),
                sprite_sheet_storage@,
                tex_storage@,
                final(self)@,
            ),
            warnings@ == frame_warnings(
                entities@,
                pointee(visibility),
                sprite_sheet_storage@,
                tex_storage@,
            ),
            final(self)@.len() <= old(self)@.len() + frame_candidates(
                entities@,
                pointee(visibility),
                sprite_sheet_storage@,
                tex_storage@,
            ),
            final(self)@.len() <= old(self)@.len() + 2 * entities@.len()
                + ordered_offers(
                entities@,
                pointee(visibility),
                sprite_sheet_storage@,
                tex_storage@,
            ).len(),
    {
        let ghost before = self@;
        let ghost vis = pointee(visibility);
        let ghost sheets = sprite_sheet_storage@;
        let ghost textures = tex_storage@;
        let ghost s_offers = sprite_offers(entities@, vis, sheets, textures);
        let ghost i_offers = image_offers(entities@, vis, textures);
        let ghost o_offers = ordered_offers(entities@, vis, sheets, textures);
        let mut warnings: Vec<Rejection> = Vec::new();
        let n: usize = entities.len();

        let mut i: usize = 0;
        proof {
            assert(s_offers.take(0) =~= Seq::<Offer>::empty());
            assert(self@ =~= before + collected(s_offers.take(0)));
        }
        while i < n
            invariant
                n == entities@.len(),
                i <= n,
                vis == pointee(visibility),
                sheets == sprite_sheet_storage@,
                textures == tex_storage@,
                s_offers == sprite_offers(entities@, vis, sheets, textures),
                self@ == before + collected(s_offers.take(i as int)),
                warnings@ == reported(s_offers.take(i as int)),
            decreases n - i,
        {
            let c = &entities[i];
            let taking_part = entity_takes_part(c, visibility, i);
            proof {
                assert(s_offers.take(i + 1).drop_last() =~= s_offers.take(i as int));
                assert(s_offers.take(i + 1).last() == s_offers[i as int]);
            }
            match (&c.sprite, &c.transform) {
                (Some(render), Some(transform)) => {
                    if taking_part {
                        let ghost held = self@;
                        let r = self.add_sprite(
                            render,
                            Some(transform),
                            c.flipped.as_ref(),
                            c.rgba.as_ref(),
                            sprite_sheet_storage,
                            tex_storage,
                        );
                        note(&mut warnings, r);
                        proof {
                            let outcome = s_offers[i as int]->0;
                            assert(self@ == offered(held, outcome));
                            assert(self@ =~= before + collected(s_offers.take(i + 1)));
                        }
                    }
                },
                _ => {},
            }
            i = i + 1;
        }
        proof {
            assert(s_offers.take(n as int) =~= s_offers);
        }
        let ghost sprites = collected(s_offers);
        let ghost sprite_warnings = warnings@;

        let mut i: usize = 0;
        proof {
            assert(i_offers.take(0) =~= Seq::<Offer>::empty());
            assert(self@ =~= before + sprites + collected(i_offers.take(0)));
            assert(warnings@ =~= sprite_warnings + reported(i_offers.take(0)));
        }
        while i < n
            invariant
                n == entities@.len(),
                i <= n,
                vis == pointee(visibility),
                textures == tex_storage@,
                i_offers == image_offers(entities@, vis, textures),
                self@ == before + sprites + collected(i_offers.take(i as int)),
                warnings@ == sprite_warnings + reported(i_offers.take(i as int)),
            decreases n - i,
        {
            let c = &entities[i];
            let taking_part = entity_takes_part(c, visibility, i);
            proof {
                assert(i_offers.take(i + 1).drop_last() =~= i_offers.take(i as int));
                assert(i_offers.take(i + 1).last() == i_offers[i as int]);
            }
            match (&c.texture, &c.transform) {
                (Some(texture), Some(transform)) => {
                    if taking_part && !c.mesh {
                        let ghost held = self@;
                        let r = self.add_image(
                            texture,
                            Some(transform),
                            c.flipped.as_ref(),
                            c.rgba.as_ref(),
                            tex_storage,
                        );
                        note(&mut warnings, r);
                        proof {
                            let outcome = i_offers[i as int]->0;
                            assert(self@ == offered(held, outcome));
                            assert(self@ =~= before + sprites + collected(
                                i_offers.take(i + 1),
                            ));
                            assert(warnings@ =~= sprite_warnings + reported(i_offers.take(i + 1)));
                        }
                    }
                },
                _ => {},
            }
            i = i + 1;
        }
        proof {
            assert(i_offers.take(n as int) =~= i_offers);
        }
        let ghost images = collected(i_offers);
        let ghost unordered_warnings = warnings@;

        // The order of the quads collected so far is free: group them by texture.
        self.sort();
        let ghost sorted = self@;

        match visibility {
            None => {
                proof {
                    assert(o_offers =~= Seq::<Offer>::empty());
                }
            },
            Some(v) => {
                let m: usize = v.visible_ordered.len();
                let mut j: usize = 0;
                proof {
                    assert(o_offers.take(0) =~= Seq::<Offer>::empty());
                    assert(self@ =~= sorted + collected(o_offers.take(0)));
                    assert(warnings@ =~= unordered_warnings + reported(o_offers.take(0)));
                }
                while j < m
                    invariant
                        n == entities@.len(),
                        m == v.visible_ordered@.len(),
                        j <= m,
                        vis == Some(*v),
                        sheets == sprite_sheet_storage@,
                        textures == tex_storage@,
                        o_offers == ordered_offers(entities@, vis, sheets, textures),
                        self@ == sorted + collected(o_offers.take(j as int)),
                        warnings@ == unordered_warnings + reported(o_offers.take(j as int)),
                            decreases m - j,
                {
                    let e: usize = v.visible_ordered[j];
                    proof {
                        assert(o_offers.take(j + 1).drop_last() =~= o_offers.take(j as int));
                        assert(o_offers.take(j + 1).last() == o_offers[j as int]);
                        assert(o_offers[j as int] == ordered_entity(entities@, e, sheets, textures));
                    }
                    if e < n {
                        let c = &entities[e];
                        let ghost held = self@;
                        if let Some(render) = &c.sprite {
                            let r = self.add_sprite(
                                render,
                                c.transform.as_ref(),
                                c.flipped.as_ref(),
                                c.rgba.as_ref(),
                                sprite_sheet_storage,
                                tex_storage,
                            );
                            note(&mut warnings, r);
                            proof {
                                let outcome = o_offers[j as int]->0;
                                assert(self@ == offered(held, outcome));
                            }
                        } else if let (Some(texture), false) = (&c.texture, c.mesh) {
                            let r = self.add_image(
                                texture,
                                c.transform.as_ref(),
                                c.flipped.as_ref(),
                                c.rgba.as_ref(),
                                tex_storage,
                            );
                            note(&mut warnings, r);
                            proof {
                                let outcome = o_offers[j as int]->0;
                                assert(self@ == offered(held, outcome));
                            }
                        }
                        proof {
                            assert(self@ =~= sorted + collected(o_offers.take(j + 1)));
                            assert(warnings@ =~= unordered_warnings + reported(
                                o_offers.take(j + 1),
                            ));
                        }
                    }
                    j = j + 1;
                }
                proof {
                    assert(o_offers.take(m as int) =~= o_offers);
                }
            },
        }
        proof {
            let ordered = collected(o_offers);
            let unordered = before.len() + sprites.len() + images.len();
            assert(self@ =~= sorted + ordered);
            assert(self@.take(unordered as int) =~= sorted);
            assert(self@.skip(unordered as int) =~= ordered);
            lemma_frame_collection_len(before, entities@, vis, sheets, textures, self@);
        }
        warnings
    }
}

} // verus!
