//! Draw calls, and the merging of consecutive same-texture instances into
//! them.

use vstd::prelude::*;
use crate::instance::{
    lemma_packed_all_layout, packed_all, SpriteInstance, INSTANCE_SCALARS, QUAD_VERTICES,
};
use crate::scalar::Scalar;
use crate::sprite::TextureHandle;

verus! {

/// An encoded quad together with the texture it is drawn with.
#[derive(Clone, Copy, Debug, PartialEq, Eq, Structural)]
pub struct TexturedInstance {
    pub texture: TextureHandle,
    pub instance: SpriteInstance,
}

/// One instanced draw: a texture to bind and the instances drawn with it.
#[derive(Clone, Debug, PartialEq, Eq)]
pub struct DrawCall {
    pub texture: TextureHandle,
    pub instances: Vec<SpriteInstance>,
}

/// A draw call as a mathematical value.
pub struct DrawCallView {
    pub texture: TextureHandle,
    pub instances: Seq<SpriteInstance>,
}

impl View for DrawCall {
    type V = DrawCallView;

    open spec fn view(&self) -> DrawCallView {
        DrawCallView { texture: self.texture, instances: self.instances@ }
    }
}

/// The views of a sequence of draw calls.
pub open spec fn call_views(calls: Seq<DrawCall>) -> Seq<DrawCallView> {
    Seq::new(calls.len(), |i: int| calls[i]@)
}

impl DrawCall {
    /// How many instances the call draws.
    pub fn instance_count(&self) -> (n: usize)
        ensures
            n == self@.instances.len(),
    {
        self.instances.len()
    }

    /// How many vertices each instance spans.
    pub fn vertex_count(&self) -> (n: u32)
        ensures
            n == QUAD_VERTICES,
    {
        QUAD_VERTICES
    }

    /// The instance buffer of the call: the packed instances in order.
    pub fn instance_data(&self) -> (data: Vec<Scalar>)
        ensures
            data@ == packed_all(self@.instances),
            data@.len() == INSTANCE_SCALARS * self@.instances.len(),
    {
        let mut data: Vec<Scalar> = Vec::new();
        let n: usize = self.instances.len();
        let mut i: usize = 0;
        while i < n
            invariant
                n == self.instances@.len(),
                i <= n,
                data@ == packed_all(self.instances@.take(i as int)),
            decreases n - i,
        {
            self.instances[i].write_to(&mut data);
            proof {
                let next = self.instances@.take(i + 1);
                assert(next.drop_last() =~= self.instances@.take(i as int));
                assert(next.last() == self.instances@[i as int]);
            }
            i = i + 1;
        }
        proof {
            assert(self.instances@.take(n as int) =~= self.instances@);
            lemma_packed_all_layout(self.instances@);
        }
        data
    }
}

/// The draw calls for a sequence of textured instances.
///
/// Reading left to right, an instance joins the call before it when both use
/// the same texture, and opens a new call otherwise. The calls are therefore
/// the maximal runs of equal texture, in order.
pub open spec fn coalesce(items: Seq<TexturedInstance>) -> Seq<DrawCallView>
    decreases items.len(),
{
    if items.len() == 0 {
        Seq::empty()
    } else {
        let before = coalesce(items.drop_last());
        let item = items.last();
        if before.len() > 0 && before.last().texture == item.texture {
            before.drop_last().push(
                DrawCallView {
                    texture: item.texture,
                    instances: before.last().instances.push(item.instance),
                },
            )
        } else {
            before.push(DrawCallView { texture: item.texture, instances: seq![item.instance] })
        }
    }
}

/// The instances of one call, each with the call's texture.
pub open spec fn tagged(call: DrawCallView) -> Seq<TexturedInstance> {
    Seq::new(
        call.instances.len(),
        |k: int| TexturedInstance { texture: call.texture, instance: call.instances[k] },
    )
}

/// What a sequence of draw calls draws: the instances of each call with that
/// call's texture, one call after the other.
pub open spec fn drawn(calls: Seq<DrawCallView>) -> Seq<TexturedInstance>
    decreases calls.len(),
{
    if calls.len() == 0 {
        Seq::empty()
    } else {
        drawn(calls.drop_last()) + tagged(calls.last())
    }
}

/// Whether `calls` splits `items` into its maximal runs of equal texture:
/// the calls draw exactly `items`, in order and each instance with its own
/// texture; no call is empty; and two calls in a row never share a texture.
pub open spec fn is_run_split(items: Seq<TexturedInstance>, calls: Seq<DrawCallView>) -> bool {
    &&& drawn(calls) == items
    &&& forall|c: int| 0 <= c < calls.len() ==> (#[trigger] calls[c]).instances.len() > 0
    &&& forall|c: int|
        0 <= c < calls.len() - 1 ==> (#[trigger] calls[c]).texture != calls[c + 1].texture
}

/// Calls that are never empty draw at least one instance each, and what they
/// draw ends with the last instance of the last call.
pub proof fn lemma_drawn_end(calls: Seq<DrawCallView>)
    requires
        forall|c: int| 0 <= c < calls.len() ==> (#[trigger] calls[c]).instances.len() > 0,
    ensures
        drawn(calls).len() >= calls.len(),
        calls.len() > 0 ==> drawn(calls).last() == (TexturedInstance {
            texture: calls.last().texture,
            instance: calls.last().instances.last(),
        }),
        calls.len() > 0 ==> drawn(calls).drop_last() == drawn(calls.drop_last()) + tagged(
            calls.last(),
        ).drop_last(),
    decreases calls.len(),
{
    if calls.len() > 0 {
        lemma_drawn_end(calls.drop_last());
        assert(tagged(calls.last()).len() > 0);
        assert(drawn(calls).drop_last() =~= drawn(calls.drop_last()) + tagged(
            calls.last(),
        ).drop_last());
    }
}

/// The calls computed by [`coalesce`] split the sequence into its maximal
/// runs of equal texture.
pub proof fn lemma_coalesce_is_run_split(items: Seq<TexturedInstance>)
    ensures
        is_run_split(items, coalesce(items)),
    decreases items.len(),
{
    if items.len() == 0 {
        assert(drawn(coalesce(items)) =~= items);
    } else {
        let front = items.drop_last();
        let item = items.last();
        let before = coalesce(front);
        let calls = coalesce(items);
        lemma_coalesce_is_run_split(front);
        assert(items =~= front.push(item));
        if before.len() > 0 && before.last().texture == item.texture {
            let merged = DrawCallView {
                texture: item.texture,
                instances: before.last().instances.push(item.instance),
            };
            assert(calls == before.drop_last().push(merged));
            assert(calls.drop_last() =~= before.drop_last());
            assert(tagged(merged) =~= tagged(before.last()).push(item));
            assert(drawn(calls) =~= items);
            assert forall|c: int| 0 <= c < calls.len() implies (#[trigger] calls[c]).instances.len()
                > 0 by {
                if c < calls.len() - 1 {
                    assert(calls[c] == before[c]);
                }
            }
            assert forall|c: int| 0 <= c < calls.len() - 1 implies (#[trigger] calls[c]).texture
                != calls[c + 1].texture by {
                assert(calls[c] == before[c]);
                assert(calls[c + 1].texture == before[c + 1].texture);
            }
        } else {
            let opened = DrawCallView { texture: item.texture, instances: seq![item.instance] };
            assert(calls == before.push(opened));
            assert(calls.drop_last() =~= before);
            assert(tagged(opened) =~= seq![item]);
            assert(drawn(calls) =~= items);
            assert forall|c: int| 0 <= c < calls.len() implies (#[trigger] calls[c]).instances.len()
                > 0 by {
                if c < calls.len() - 1 {
                    assert(calls[c] == before[c]);
                }
            }
            assert forall|c: int| 0 <= c < calls.len() - 1 implies (#[trigger] calls[c]).texture
                != calls[c + 1].texture by {
                assert(calls[c] == before[c]);
                if c + 1 < calls.len() - 1 {
                    assert(calls[c + 1] == before[c + 1]);
                }
            }
        }
    }
}

/// The split into maximal runs is unique: any calls that split `items` so
/// are the calls computed by [`coalesce`].
pub proof fn lemma_run_split_is_coalesce(items: Seq<TexturedInstance>, calls: Seq<DrawCallView>)
    requires
        is_run_split(items, calls),
    ensures
        calls == coalesce(items),
    decreases items.len(),
{
    lemma_drawn_end(calls);
    if items.len() == 0 {
        assert(calls =~= coalesce(items));
    } else {
        assert(calls.len() > 0);
        let front = items.drop_last();
        let item = items.last();
        let last = calls.last();
        let rest = calls.drop_last();
        assert(item.texture == last.texture);
        assert(item.instance == last.instances.last());
        if last.instances.len() == 1 {
            assert(tagged(last).drop_last() =~= Seq::<TexturedInstance>::empty());
            assert(drawn(rest) =~= front);
            assert(is_run_split(front, rest)) by {
                assert forall|c: int| 0 <= c < rest.len() implies (#[trigger] rest[c]).instances.len()
                    > 0 by {
                    assert(rest[c] == calls[c]);
                }
                assert forall|c: int| 0 <= c < rest.len() - 1 implies (#[trigger] rest[c]).texture
                    != rest[c + 1].texture by {
                    assert(rest[c] == calls[c]);
                    assert(rest[c + 1] == calls[c + 1]);
                }
            }
            lemma_run_split_is_coalesce(front, rest);
            if rest.len() > 0 {
                assert(rest.last() == calls[calls.len() - 2]);
                assert(calls[calls.len() - 2].texture != calls[calls.len() - 2 + 1].texture);
            }
            assert(last.instances =~= seq![item.instance]);
            assert(calls =~= rest.push(last));
        } else {
            let shorter = DrawCallView {
                texture: last.texture,
                instances: last.instances.drop_last(),
            };
            let prior = rest.push(shorter);
            assert(prior.drop_last() =~= rest);
            assert(tagged(shorter) =~= tagged(last).drop_last());
            assert(drawn(prior) =~= front);
            assert(is_run_split(front, prior)) by {
                assert forall|c: int| 0 <= c < prior.len() implies (#[trigger] prior[c]).instances.len()
                    > 0 by {
                    if c < prior.len() - 1 {
                        assert(prior[c] == calls[c]);
                    }
                }
                assert forall|c: int| 0 <= c < prior.len() - 1 implies (#[trigger] prior[c]).texture
                    != prior[c + 1].texture by {
                    assert(prior[c] == calls[c]);
                    assert(prior[c + 1].texture == calls[c + 1].texture);
                }
            }
            lemma_run_split_is_coalesce(front, prior);
            assert(last.instances =~= shorter.instances.push(item.instance));
            assert(calls =~= prior.drop_last().push(last));
        }
    }
}

/// A sequence without instances needs no draw call.
pub proof fn lemma_coalesce_empty()
    ensures
        coalesce(Seq::<TexturedInstance>::empty()) == Seq::<DrawCallView>::empty(),
{
}

/// There are never more draw calls than instances, and at least one as soon
/// as there is an instance.
pub proof fn lemma_coalesce_len(items: Seq<TexturedInstance>)
    ensures
        coalesce(items).len() <= items.len(),
        items.len() > 0 ==> coalesce(items).len() >= 1,
        items.len() > 0 ==> coalesce(items).last().texture == items.last().texture,
{
    lemma_coalesce_is_run_split(items);
    lemma_drawn_end(coalesce(items));
}

/// Instances that all share one texture are drawn by a single call, which
/// holds all of them in order.
pub proof fn lemma_one_texture_one_call(items: Seq<TexturedInstance>)
    requires
        items.len() > 0,
        forall|i: int| 0 <= i < items.len() ==> (#[trigger] items[i]).texture == items[0].texture,
    ensures
        coalesce(items).len() == 1,
        coalesce(items)[0].texture == items[0].texture,
        coalesce(items)[0].instances.len() == items.len(),
        forall|i: int|
            0 <= i < items.len() ==> coalesce(items)[0].instances[i] == (#[trigger] items[i]).instance,
    decreases items.len(),
{
    let front = items.drop_last();
    let item = items.last();
    assert(item == items[items.len() - 1]);
    if front.len() == 0 {
        assert(coalesce(front).len() == 0);
    } else {
        assert(front[0] == items[0]);
        assert forall|i: int| 0 <= i < front.len() implies (#[trigger] front[i]).texture
            == front[0].texture by {
            assert(front[i] == items[i]);
        }
        lemma_one_texture_one_call(front);
        assert forall|i: int| 0 <= i < items.len() implies coalesce(items)[0].instances[i] == (
        #[trigger] items[i]).instance by {
            if i < front.len() {
                assert(front[i] == items[i]);
            }
        }
    }
}

/// Instances whose texture changes at every step are drawn one per call:
/// as many calls as instances, call `i` drawing instance `i` alone. This is
/// the case in particular when all textures are distinct.
pub proof fn lemma_changing_texture_one_call_each(items: Seq<TexturedInstance>)
    requires
        forall|i: int| 0 <= i < items.len() - 1 ==> (#[trigger] items[i]).texture != items[i
            + 1].texture,
    ensures
        coalesce(items).len() == items.len(),
        forall|i: int|
            0 <= i < items.len() ==> (#[trigger] coalesce(items)[i]) == (DrawCallView {
                texture: items[i].texture,
                instances: seq![items[i].instance],
            }),
    decreases items.len(),
{
    if items.len() > 0 {
        let front = items.drop_last();
        assert forall|i: int| 0 <= i < front.len() - 1 implies (#[trigger] front[i]).texture
            != front[i + 1].texture by {
            assert(front[i] == items[i]);
            assert(front[i + 1] == items[i + 1]);
        }
        lemma_changing_texture_one_call_each(front);
        let before = coalesce(front);
        if front.len() > 0 {
            let j = front.len() - 1;
            assert(before.last() == before[j]);
            assert(front[j] == items[j]);
            assert(items[j].texture != items[j + 1].texture);
        }
        assert forall|i: int| 0 <= i < items.len() implies (#[trigger] coalesce(items)[i]) == (
        DrawCallView { texture: items[i].texture, instances: seq![items[i].instance] }) by {
            if i < front.len() {
                assert(coalesce(items)[i] == before[i]);
                assert(front[i] == items[i]);
            }
        }
    }
}

/// Pairwise distinct textures change at every step.
pub proof fn lemma_distinct_textures_one_call_each(items: Seq<TexturedInstance>)
    requires
        forall|i: int, j: int|
            0 <= i < j < items.len() ==> (#[trigger] items[i]).texture != (#[trigger] items[j]).texture,
    ensures
        coalesce(items).len() == items.len(),
        forall|i: int|
            0 <= i < items.len() ==> (#[trigger] coalesce(items)[i]).instances.len() == 1,
{
    lemma_changing_texture_one_call_each(items);
}

/// Instances of a single texture, appended to any sequence, add at most one
/// call.
proof fn lemma_one_more_texture(items: Seq<TexturedInstance>, more: Seq<TexturedInstance>)
    requires
        forall|i: int| 0 <= i < more.len() ==> (#[trigger] more[i]).texture == more[0].texture,
    ensures
        coalesce(items + more).len() <= coalesce(items).len() + 1,
    decreases more.len(),
{
    if more.len() == 0 {
        assert(items + more =~= items);
    } else {
        let all = items + more;
        let shorter = more.drop_last();
        assert(all.drop_last() =~= items + shorter);
        assert(all.last() == more[more.len() - 1]);
        assert forall|i: int| 0 <= i < shorter.len() implies (#[trigger] shorter[i]).texture
            == shorter[0].texture by {
            assert(shorter[i] == more[i]);
            assert(shorter[0] == more[0]);
        }
        lemma_one_more_texture(items, shorter);
        if shorter.len() > 0 {
            lemma_coalesce_len(items + shorter);
            assert((items + shorter).last() == more[more.len() - 2]);
        }
    }
}

/// No other way of drawing `items` in order, one texture per call, takes
/// fewer calls than [`coalesce`] does.
pub proof fn lemma_coalesce_is_minimal(items: Seq<TexturedInstance>, calls: Seq<DrawCallView>)
    requires
        drawn(calls) == items,
    ensures
        coalesce(items).len() <= calls.len(),
    decreases calls.len(),
{
    if calls.len() > 0 {
        let rest = calls.drop_last();
        lemma_coalesce_is_minimal(drawn(rest), rest);
        lemma_one_more_texture(drawn(rest), tagged(calls.last()));
    }
}

/// Whether the textures of `items` are in ascending order of id.
pub open spec fn texture_ascending(items: Seq<TexturedInstance>) -> bool {
    forall|i: int, j: int|
        0 <= i <= j < items.len() ==> (#[trigger] items[i]).texture.id <= (
        #[trigger] items[j]).texture.id
}

/// Instances in ascending order of texture id are drawn with one call per
/// texture: the textures of the calls are strictly ascending, so no texture
/// is bound twice.
pub proof fn lemma_ascending_one_call_per_texture(items: Seq<TexturedInstance>)
    requires
        texture_ascending(items),
    ensures
        forall|c: int, d: int|
            0 <= c < d < coalesce(items).len() ==> (#[trigger] coalesce(items)[c]).texture.id < (
            #[trigger] coalesce(items)[d]).texture.id,
    decreases items.len(),
{
    if items.len() > 0 {
        let front = items.drop_last();
        let item = items.last();
        let before = coalesce(front);
        let calls = coalesce(items);
        assert(texture_ascending(front)) by {
            assert forall|i: int, j: int| 0 <= i <= j < front.len() implies (
            #[trigger] front[i]).texture.id <= (#[trigger] front[j]).texture.id by {
                assert(front[i] == items[i]);
                assert(front[j] == items[j]);
            }
        }
        lemma_ascending_one_call_per_texture(front);
        lemma_coalesce_len(front);
        if front.len() > 0 {
            assert(front.last() == items[items.len() - 2]);
            assert(item == items[items.len() - 1]);
            assert(before.last().texture.id <= item.texture.id);
        }
        assert forall|c: int, d: int| 0 <= c < d < calls.len() implies (
        #[trigger] calls[c]).texture.id < (#[trigger] calls[d]).texture.id by {
            if before.len() > 0 && before.last().texture == item.texture {
                assert(calls[c] == before[c]);
                assert(calls[d].texture == before[d].texture);
            } else {
                assert(calls[c] == before[c]);
                if d < before.len() {
                    assert(calls[d] == before[d]);
                } else {
                    let l = before.len() - 1;
                    assert(before.last() == before[l]);
                    if c < l {
                        assert(before[c].texture.id < before[l].texture.id);
                    }
                }
            }
        }
    }
}

/// The calls for the instances read so far, while a run may still be open:
/// the calls already closed, followed by the open run if it holds anything.
spec fn with_pending(
    closed: Seq<DrawCallView>,
    texture: TextureHandle,
    pending: Seq<SpriteInstance>,
) -> Seq<DrawCallView> {
    if pending.len() == 0 {
        closed
    } else {
        closed.push(DrawCallView { texture, instances: pending })
    }
}

/// Merges consecutive instances that share a texture into draw calls.
///
/// One pass with a lookahead of one: each instance is appended to the
/// pending run, and the run is closed into a draw call when the next
/// instance uses another texture or there is no next instance.
pub fn emit(items: &Vec<TexturedInstance>) -> (calls: Vec<DrawCall>)
    ensures
        call_views(calls@) == coalesce(items@),
{
    let mut calls: Vec<DrawCall> = Vec::new();
    let mut pending: Vec<SpriteInstance> = Vec::new();
    let n: usize = items.len();
    let mut i: usize = 0;
    proof {
        assert(call_views(calls@) =~= coalesce(items@.take(0)));
    }
    while i < n
        invariant
            n == items@.len(),
            i <= n,
            pending@.len() > 0 ==> 0 < i < n && items@[i as int].texture == items@[i
                - 1].texture,
            pending@.len() == 0 && 0 < i < n ==> items@[i as int].texture != items@[i
                - 1].texture,
            i == 0 ==> pending@.len() == 0,
            i > 0 ==> coalesce(items@.take(i as int)) == with_pending(
                call_views(calls@),
                items@[i - 1].texture,
                pending@,
            ),
            i == 0 ==> call_views(calls@) == coalesce(items@.take(0)),
        decreases n - i,
    {
        let item = items[i];
        let ghost closed = call_views(calls@);
        let ghost open = pending@;
        pending.push(item.instance);
        proof {
            let read = items@.take(i as int);
            let next = items@.take(i + 1);
            assert(next.drop_last() =~= read);
            assert(next.last() == item);
            lemma_coalesce_len(read);
            if i > 0 {
                assert(read.last() == items@[i - 1]);
            }
            let before = coalesce(read);
            if open.len() > 0 {
                let last = DrawCallView { texture: items@[i - 1].texture, instances: open };
                assert(before == closed.push(last));
                assert(before.drop_last() =~= closed);
                assert(before.last() == last);
                assert(pending@ =~= open.push(item.instance));
            } else {
                assert(before == closed);
                assert(pending@ =~= seq![item.instance]);
                if i > 0 {
                    assert(before.last().texture == items@[i - 1].texture);
                }
            }
            assert(coalesce(next) == closed.push(
                DrawCallView { texture: item.texture, instances: pending@ },
            ));
        }
        let need_flush = i >= n - 1 || items[i + 1].texture.id != item.texture.id;
        if need_flush {
            calls.push(DrawCall { texture: item.texture, instances: pending });
            pending = Vec::new();
            proof {
                assert(call_views(calls@) =~= closed.push(
                    DrawCallView { texture: item.texture, instances: open.push(item.instance) },
                ));
            }
        }
        i = i + 1;
    }
    proof {
        assert(items@.take(n as int) =~= items@);
    }
    calls
}

} // verus!
