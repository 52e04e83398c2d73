use flat2d::assets::SpriteSheetStorage;
use flat2d::instance::{Extent, QuadGeometry, QuadProjection, SpriteInstance};
use flat2d::record::TextureDrawData;
use flat2d::scalar::{Matrix4, Scalar, Vector2, Vector4};
use flat2d::sprite::{
    Flipped, Rgba, Sprite, SpriteRender, SpriteSheet, SpriteSheetHandle, TextureCoordinates,
    TextureHandle, Transform,
};

fn s(v: f32) -> Scalar {
    Scalar::from_bits(v.to_bits())
}

fn f(v: Scalar) -> f32 {
    f32::from_bits(v.to_bits())
}

fn v4(x: f32, y: f32, z: f32, w: f32) -> Vector4 {
    Vector4 { x: s(x), y: s(y), z: s(z), w: s(w) }
}

fn identity() -> Transform {
    Transform {
        global_matrix: Matrix4 {
            c0: v4(1.0, 0.0, 0.0, 0.0),
            c1: v4(0.0, 1.0, 0.0, 0.0),
            c2: v4(0.0, 0.0, 1.0, 0.0),
            c3: v4(0.0, 0.0, 0.0, 1.0),
        },
    }
}

fn placed(x: f32, y: f32, z: f32, scale: f32) -> Transform {
    Transform {
        global_matrix: Matrix4 {
            c0: v4(scale, 0.0, 0.0, 0.0),
            c1: v4(0.0, scale, 0.0, 0.0),
            c2: v4(0.0, 0.0, scale, 0.0),
            c3: v4(x, y, z, 1.0),
        },
    }
}

fn extent(e: Extent) -> f32 {
    match e {
        Extent::Units(u) => f(u),
        Extent::Pixels(p) => p as f32,
    }
}

fn scaled(c: Vector4, k: f32) -> Vector4 {
    v4(f(c.x) * k, f(c.y) * k, f(c.z) * k, f(c.w) * k)
}

fn project(g: &QuadGeometry) -> QuadProjection {
    let m = g.transform;
    let a = g.anchor;
    let row = |r: fn(Vector4) -> Scalar| {
        f(r(m.c0)) * f(a.x) + f(r(m.c1)) * f(a.y) + f(r(m.c2)) * f(a.z) + f(r(m.c3)) * f(a.w)
    };
    QuadProjection {
        dir_x: scaled(g.axis_x, extent(g.width)),
        dir_y: scaled(g.axis_y, extent(g.height)),
        pos: v4(row(|c| c.x), row(|c| c.y), row(|c| c.z), row(|c| c.w)),
    }
}

fn floats(instance: &SpriteInstance) -> Vec<f32> {
    let mut out = Vec::new();
    instance.write_to(&mut out);
    out.iter().map(|x| f(*x)).collect()
}

fn sheet() -> SpriteSheet {
    SpriteSheet {
        texture: TextureHandle { id: 11 },
        sprites: vec![
            Sprite {
                width: s(16.0),
                height: s(24.0),
                offsets: Vector2 { x: s(8.0), y: s(-12.0) },
                tex_coords: TextureCoordinates {
                    left: s(0.0),
                    right: s(0.25),
                    bottom: s(0.5),
                    top: s(1.0),
                },
            },
            Sprite {
                width: s(32.0),
                height: s(8.0),
                offsets: Vector2 { x: s(0.0), y: s(4.0) },
                tex_coords: TextureCoordinates {
                    left: s(0.25),
                    right: s(0.75),
                    bottom: s(0.125),
                    top: s(0.375),
                },
            },
        ],
    }
}

fn sheets() -> SpriteSheetStorage {
    let mut store = SpriteSheetStorage::new();
    store.insert(SpriteSheetHandle { id: 2 }, sheet());
    store
}

fn sprite(number: usize, flipped: Option<Flipped>, rgba: Option<Rgba>, transform: Transform) -> TextureDrawData {
    TextureDrawData::Sprite {
        texture_handle: TextureHandle { id: 11 },
        render: SpriteRender { sprite_sheet: SpriteSheetHandle { id: 2 }, sprite_number: number },
        flipped,
        rgba,
        transform,
    }
}

fn image(flipped: Option<Flipped>, rgba: Option<Rgba>, transform: Transform) -> TextureDrawData {
    TextureDrawData::Image {
        texture_handle: TextureHandle { id: 5 },
        transform,
        flipped,
        rgba,
        width: 64,
        height: 32,
    }
}

fn encode(record: &TextureDrawData, store: &SpriteSheetStorage) -> SpriteInstance {
    assert!(record.is_encodable(store));
    let projection = project(&record.geometry(store));
    record.instance(store, &projection)
}

#[test]
fn accessors_of_both_kinds() {
    let tint = Rgba(s(0.5), s(0.25), s(0.125), s(1.0));
    let a = sprite(1, Some(Flipped::Both), Some(tint), placed(1.0, 2.0, 3.0, 2.0));
    assert_eq!(*a.texture_handle(), TextureHandle { id: 11 });
    assert_eq!(a.tex_id(), 11);
    assert_eq!(*a.flipped(), Some(Flipped::Both));
    assert_eq!(*a.rgba(), Some(tint));
    assert_eq!(*a.transform(), placed(1.0, 2.0, 3.0, 2.0));
    let b = image(None, None, identity());
    assert_eq!(*b.texture_handle(), TextureHandle { id: 5 });
    assert_eq!(b.tex_id(), 5);
    assert_eq!(*b.flipped(), None);
    assert_eq!(*b.rgba(), None);
    assert_eq!(*b.transform(), identity());
}

#[test]
fn image_geometry_is_the_texture_size_anchored_at_one_one() {
    let g = image(None, None, placed(3.0, 4.0, 5.0, 2.0)).geometry(&sheets());
    assert_eq!(g.transform, placed(3.0, 4.0, 5.0, 2.0).global_matrix);
    assert_eq!(g.axis_x, v4(2.0, 0.0, 0.0, 0.0));
    assert_eq!(g.axis_y, v4(0.0, 2.0, 0.0, 0.0));
    assert_eq!(g.width, Extent::Pixels(64));
    assert_eq!(g.height, Extent::Pixels(32));
    assert_eq!(g.anchor, v4(1.0, 1.0, 0.0, 1.0));
}

#[test]
fn sprite_geometry_is_the_sprite_size_anchored_at_the_negated_offsets() {
    let g = sprite(0, None, None, identity()).geometry(&sheets());
    assert_eq!(g.transform, identity().global_matrix);
    assert_eq!(g.axis_x, identity().global_matrix.c0);
    assert_eq!(g.axis_y, identity().global_matrix.c1);
    assert_eq!(g.width, Extent::Units(s(16.0)));
    assert_eq!(g.height, Extent::Units(s(24.0)));
    assert_eq!(g.anchor, v4(-8.0, 12.0, 0.0, 1.0));
    let g = sprite(1, None, None, identity()).geometry(&sheets());
    assert_eq!(g.width, Extent::Units(s(32.0)));
    assert_eq!(g.height, Extent::Units(s(8.0)));
    assert_eq!(g.anchor, v4(-0.0, -4.0, 0.0, 1.0));
}

#[test]
fn plain_image_instance() {
    let instance = encode(&image(None, None, identity()), &sheets());
    assert_eq!(
        floats(&instance),
        vec![64.0, 0.0, 0.0, 32.0, 1.0, 1.0, 0.0, 1.0, 0.0, 1.0, 0.0, 1.0, 1.0, 1.0, 1.0]
    );
}

#[test]
fn placed_image_instance() {
    let instance = encode(&image(None, None, placed(10.0, 20.0, -3.0, 2.0)), &sheets());
    assert_eq!(
        floats(&instance),
        vec![128.0, 0.0, 0.0, 64.0, 12.0, 22.0, 0.0, 1.0, 0.0, 1.0, -3.0, 1.0, 1.0, 1.0, 1.0]
    );
}

#[test]
fn plain_sprite_instance() {
    let instance = encode(&sprite(0, None, None, identity()), &sheets());
    assert_eq!(
        floats(&instance),
        vec![16.0, 0.0, 0.0, 24.0, -8.0, 12.0, 0.0, 0.25, 0.5, 1.0, 0.0, 1.0, 1.0, 1.0, 1.0]
    );
}

#[test]
fn placed_sprite_instance() {
    let instance = encode(&sprite(1, None, None, placed(100.0, 50.0, 7.0, 0.5)), &sheets());
    assert_eq!(
        floats(&instance),
        vec![16.0, 0.0, 0.0, 4.0, 100.0, 48.0, 0.25, 0.75, 0.125, 0.375, 7.0, 1.0, 1.0, 1.0, 1.0]
    );
}

#[test]
fn no_flip_and_no_tint_keep_the_base_rectangle_and_white() {
    let store = sheets();
    let sprite_instance = encode(&sprite(1, None, None, identity()), &store);
    let base = sheet().sprites[1].tex_coords;
    assert_eq!(sprite_instance.uv_left, base.left);
    assert_eq!(sprite_instance.uv_right, base.right);
    assert_eq!(sprite_instance.uv_bottom, base.bottom);
    assert_eq!(sprite_instance.uv_top, base.top);
    assert_eq!(sprite_instance.color, Rgba(s(1.0), s(1.0), s(1.0), s(1.0)));
    let image_instance = encode(&image(None, None, identity()), &store);
    assert_eq!(image_instance.uv_left, s(0.0));
    assert_eq!(image_instance.uv_right, s(1.0));
    assert_eq!(image_instance.uv_bottom, s(0.0));
    assert_eq!(image_instance.uv_top, s(1.0));
    assert_eq!(image_instance.color, Rgba(s(1.0), s(1.0), s(1.0), s(1.0)));
}

#[test]
fn flips_swap_the_sprite_edges() {
    let store = sheets();
    let uv = |flip| {
        let i = encode(&sprite(0, flip, None, identity()), &store);
        (f(i.uv_left), f(i.uv_right), f(i.uv_bottom), f(i.uv_top))
    };
    assert_eq!(uv(None), (0.0, 0.25, 0.5, 1.0));
    assert_eq!(uv(Some(Flipped::Horizontal)), (0.25, 0.0, 0.5, 1.0));
    assert_eq!(uv(Some(Flipped::Vertical)), (0.0, 0.25, 1.0, 0.5));
    assert_eq!(uv(Some(Flipped::Both)), (0.25, 0.0, 1.0, 0.5));
}

#[test]
fn flips_swap_the_image_edges() {
    let store = sheets();
    let uv = |flip| {
        let i = encode(&image(flip, None, identity()), &store);
        (f(i.uv_left), f(i.uv_right), f(i.uv_bottom), f(i.uv_top))
    };
    assert_eq!(uv(None), (0.0, 1.0, 0.0, 1.0));
    assert_eq!(uv(Some(Flipped::Horizontal)), (1.0, 0.0, 0.0, 1.0));
    assert_eq!(uv(Some(Flipped::Vertical)), (0.0, 1.0, 1.0, 0.0));
    assert_eq!(uv(Some(Flipped::Both)), (1.0, 0.0, 1.0, 0.0));
}

#[test]
fn a_flip_leaves_the_geometry_alone() {
    let store = sheets();
    let plain = encode(&sprite(0, None, None, placed(1.0, 2.0, 3.0, 4.0)), &store);
    let flipped = encode(&sprite(0, Some(Flipped::Both), None, placed(1.0, 2.0, 3.0, 4.0)), &store);
    assert_eq!(plain.dir_x, flipped.dir_x);
    assert_eq!(plain.dir_y, flipped.dir_y);
    assert_eq!(plain.pos, flipped.pos);
    assert_eq!(plain.depth, flipped.depth);
    assert_eq!(
        sprite(0, None, None, identity()).geometry(&store),
        sprite(0, Some(Flipped::Horizontal), None, identity()).geometry(&store)
    );
}

#[test]
fn a_tint_is_passed_through() {
    let tint = Rgba(s(0.5), s(0.25), s(0.125), s(0.75));
    let store = sheets();
    assert_eq!(encode(&sprite(0, None, Some(tint), identity()), &store).color, tint);
    assert_eq!(encode(&image(None, Some(tint), identity()), &store).color, tint);
}

#[test]
fn assemble_takes_the_first_components_of_the_projection() {
    let projection = QuadProjection {
        dir_x: v4(1.0, 2.0, 30.0, 40.0),
        dir_y: v4(3.0, 4.0, 50.0, 60.0),
        pos: v4(5.0, 6.0, 7.0, 80.0),
    };
    let coords = TextureCoordinates { left: s(0.1), right: s(0.2), bottom: s(0.3), top: s(0.4) };
    let color = Rgba(s(0.5), s(0.6), s(0.7), s(0.8));
    let instance = SpriteInstance::assemble(coords, color, projection);
    assert_eq!(
        floats(&instance),
        vec![1.0, 2.0, 3.0, 4.0, 5.0, 6.0, 0.1, 0.2, 0.3, 0.4, 7.0, 0.5, 0.6, 0.7, 0.8]
    );
}

#[test]
fn a_sprite_is_encodable_when_its_sheet_holds_its_index() {
    let store = sheets();
    assert!(sprite(0, None, None, identity()).is_encodable(&store));
    assert!(sprite(1, None, None, identity()).is_encodable(&store));
    assert!(!sprite(2, None, None, identity()).is_encodable(&store));
    assert!(!sprite(usize::MAX, None, None, identity()).is_encodable(&store));
    assert!(!sprite(0, None, None, identity()).is_encodable(&SpriteSheetStorage::new()));
    assert!(image(None, None, identity()).is_encodable(&SpriteSheetStorage::new()));
}

#[test]
fn axes_are_the_first_two_columns_of_the_transform() {
    let col = |k: f32| v4(k, k + 0.25, k + 0.5, k + 0.75);
    let skewed = Transform {
        global_matrix: Matrix4 { c0: col(1.0), c1: col(2.0), c2: col(3.0), c3: col(4.0) },
    };
    let store = sheets();
    for record in [image(None, None, skewed), sprite(0, None, None, skewed)] {
        let g = record.geometry(&store);
        assert_eq!(g.axis_x, col(1.0));
        assert_eq!(g.axis_y, col(2.0));
        assert_eq!(g.transform, skewed.global_matrix);
    }
}
