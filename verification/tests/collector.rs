use flat2d::assets::{SpriteSheetStorage, TextureStorage};
use flat2d::batch::{Rejection, TextureBatch};
use flat2d::record::TextureDrawData;
use flat2d::scalar::{Matrix4, Scalar, Vector4};
use flat2d::sprite::{
    Flipped, Rgba, SpriteRender, SpriteSheet, SpriteSheetHandle, Texture, TextureHandle, Transform,
};

fn s(v: f32) -> Scalar {
    Scalar::from_bits(v.to_bits())
}

fn v4(x: f32, y: f32, z: f32, w: f32) -> Vector4 {
    Vector4 { x: s(x), y: s(y), z: s(z), w: s(w) }
}

fn at(x: f32) -> Transform {
    Transform {
        global_matrix: Matrix4 {
            c0: v4(1.0, 0.0, 0.0, 0.0),
            c1: v4(0.0, 1.0, 0.0, 0.0),
            c2: v4(0.0, 0.0, 1.0, 0.0),
            c3: v4(x, 0.0, 0.0, 1.0),
        },
    }
}

fn textures(loaded: &[(u32, usize, usize)]) -> TextureStorage {
    let mut store = TextureStorage::new();
    for (id, width, height) in loaded {
        store.insert(TextureHandle { id: *id }, Texture { width: *width, height: *height });
    }
    store
}

fn sheets(loaded: &[(u32, u32)]) -> SpriteSheetStorage {
    let mut store = SpriteSheetStorage::new();
    for (id, texture) in loaded {
        store.insert(
            SpriteSheetHandle { id: *id },
            SpriteSheet { texture: TextureHandle { id: *texture }, sprites: Vec::new() },
        );
    }
    store
}

fn render(sheet: u32, number: usize) -> SpriteRender {
    SpriteRender { sprite_sheet: SpriteSheetHandle { id: sheet }, sprite_number: number }
}

#[test]
fn new_batch_is_empty() {
    let batch = TextureBatch::new();
    assert_eq!(batch.len(), 0);
    assert!(batch.is_empty());
    assert!(batch.records().is_empty());
    assert!(TextureBatch::default().is_empty());
}

#[test]
fn storage_lookups() {
    let store = textures(&[(1, 64, 32)]);
    assert_eq!(store.get(&TextureHandle { id: 1 }), Some(&Texture { width: 64, height: 32 }));
    assert_eq!(store.get(&TextureHandle { id: 2 }), None);
    assert_eq!(Texture { width: 64, height: 32 }.size(), (64, 32));
    assert_eq!(TextureHandle { id: 7 }.id(), 7);
    assert_eq!(SpriteSheetHandle { id: 8 }.id(), 8);
    let store = sheets(&[(4, 1)]);
    assert_eq!(store.get(&SpriteSheetHandle { id: 4 }).map(|sheet| sheet.texture.id), Some(1));
    assert!(store.get(&SpriteSheetHandle { id: 1 }).is_none());
}

#[test]
fn storage_insert_replaces() {
    let mut store = textures(&[(1, 64, 32)]);
    store.insert(TextureHandle { id: 1 }, Texture { width: 8, height: 9 });
    assert_eq!(store.get(&TextureHandle { id: 1 }), Some(&Texture { width: 8, height: 9 }));
}

#[test]
fn image_with_loaded_texture_is_collected() {
    let mut batch = TextureBatch::new();
    let store = textures(&[(1, 64, 32)]);
    let tint = Rgba(s(0.5), s(0.5), s(0.5), s(1.0));
    let r = batch.add_image(
        &TextureHandle { id: 1 },
        Some(&at(3.0)),
        Some(&Flipped::Vertical),
        Some(&tint),
        &store,
    );
    assert_eq!(r, Ok(()));
    assert_eq!(
        batch.records(),
        &vec![TextureDrawData::Image {
            texture_handle: TextureHandle { id: 1 },
            transform: at(3.0),
            flipped: Some(Flipped::Vertical),
            rgba: Some(tint),
            width: 64,
            height: 32,
        }]
    );
}

#[test]
fn image_without_transform_is_skipped() {
    let mut batch = TextureBatch::new();
    let store = textures(&[(1, 64, 32)]);
    let r = batch.add_image(&TextureHandle { id: 1 }, None, None, None, &store);
    assert_eq!(r, Err(Rejection::MissingTransform));
    assert!(!Rejection::MissingTransform.is_missing_asset());
    assert!(batch.is_empty());
}

#[test]
fn image_with_missing_texture_is_rejected() {
    let mut batch = TextureBatch::new();
    let store = textures(&[(1, 64, 32)]);
    let r = batch.add_image(&TextureHandle { id: 2 }, Some(&at(0.0)), None, None, &store);
    assert_eq!(r, Err(Rejection::TextureNotLoaded(TextureHandle { id: 2 })));
    assert!(Rejection::TextureNotLoaded(TextureHandle { id: 2 }).is_missing_asset());
    assert!(batch.is_empty());
}

#[test]
fn image_without_transform_and_texture_reports_the_transform() {
    let mut batch = TextureBatch::new();
    let r = batch.add_image(&TextureHandle { id: 2 }, None, None, None, &TextureStorage::new());
    assert_eq!(r, Err(Rejection::MissingTransform));
}

#[test]
fn sprite_with_loaded_assets_is_collected_with_the_sheets_texture() {
    let mut batch = TextureBatch::new();
    let r = batch.add_sprite(
        &render(4, 17),
        Some(&at(1.0)),
        Some(&Flipped::Horizontal),
        None,
        &sheets(&[(4, 9)]),
        &textures(&[(9, 128, 128)]),
    );
    assert_eq!(r, Ok(()));
    assert_eq!(
        batch.records(),
        &vec![TextureDrawData::Sprite {
            texture_handle: TextureHandle { id: 9 },
            render: render(4, 17),
            flipped: Some(Flipped::Horizontal),
            rgba: None,
            transform: at(1.0),
        }]
    );
    assert_eq!(batch.records()[0].tex_id(), 9);
}

#[test]
fn sprite_without_transform_is_skipped() {
    let mut batch = TextureBatch::new();
    let r = batch.add_sprite(&render(4, 0), None, None, None, &sheets(&[(4, 9)]), &textures(&[(9, 1, 1)]));
    assert_eq!(r, Err(Rejection::MissingTransform));
    assert!(batch.is_empty());
}

#[test]
fn sprite_with_missing_sheet_is_rejected() {
    let mut batch = TextureBatch::new();
    let r = batch.add_sprite(
        &render(5, 0),
        Some(&at(0.0)),
        None,
        None,
        &sheets(&[(4, 9)]),
        &textures(&[(9, 1, 1)]),
    );
    assert_eq!(r, Err(Rejection::SpriteSheetNotLoaded(render(5, 0))));
    assert!(Rejection::SpriteSheetNotLoaded(render(5, 0)).is_missing_asset());
    assert!(batch.is_empty());
}

#[test]
fn sprite_with_missing_texture_is_rejected() {
    let mut batch = TextureBatch::new();
    let r = batch.add_sprite(
        &render(4, 0),
        Some(&at(0.0)),
        None,
        None,
        &sheets(&[(4, 9)]),
        &textures(&[(8, 1, 1)]),
    );
    assert_eq!(r, Err(Rejection::TextureNotLoaded(TextureHandle { id: 9 })));
    assert!(batch.is_empty());
}

#[test]
fn sprite_with_missing_sheet_and_texture_reports_the_sheet() {
    let mut batch = TextureBatch::new();
    let r = batch.add_sprite(
        &render(4, 0),
        Some(&at(0.0)),
        None,
        None,
        &SpriteSheetStorage::new(),
        &TextureStorage::new(),
    );
    assert_eq!(r, Err(Rejection::SpriteSheetNotLoaded(render(4, 0))));
}

#[test]
fn records_are_appended_in_order_and_rejections_change_nothing() {
    let mut batch = TextureBatch::new();
    let tex = textures(&[(1, 10, 10), (2, 20, 20)]);
    let sh = sheets(&[(7, 2)]);
    let mut offers = 0usize;
    let mut collected = 0usize;
    for step in 0..12u32 {
        let before = batch.records().clone();
        let r = if step % 3 == 0 {
            batch.add_image(&TextureHandle { id: step % 4 }, Some(&at(step as f32)), None, None, &tex)
        } else if step % 3 == 1 {
            batch.add_sprite(&render(6 + step % 2, 0), Some(&at(step as f32)), None, None, &sh, &tex)
        } else {
            batch.add_image(&TextureHandle { id: 1 }, None, None, None, &tex)
        };
        offers += 1;
        match r {
            Ok(()) => {
                collected += 1;
                assert_eq!(batch.len(), before.len() + 1);
                assert_eq!(&batch.records()[..before.len()], &before[..]);
            }
            Err(_) => assert_eq!(batch.records(), &before),
        }
        assert!(batch.len() <= offers);
    }
    assert_eq!(batch.len(), collected);
    assert!(collected > 0 && collected < offers);
}

#[test]
fn sort_orders_by_texture_id() {
    let mut batch = TextureBatch::new();
    let tex = textures(&[(1, 1, 1), (2, 2, 2), (3, 3, 3)]);
    for id in [3u32, 1, 2, 1, 3, 2, 1] {
        batch.add_image(&TextureHandle { id }, Some(&at(0.0)), None, None, &tex).unwrap();
    }
    batch.sort();
    let ids: Vec<u32> = batch.records().iter().map(|r| r.tex_id()).collect();
    assert_eq!(ids, vec![1, 1, 1, 2, 2, 3, 3]);
}

#[test]
fn sort_keeps_the_same_records() {
    let mut batch = TextureBatch::new();
    let tex = textures(&[(1, 1, 1), (2, 2, 2), (3, 3, 3)]);
    for (k, id) in [3u32, 1, 2, 1, 3, 2, 1].iter().enumerate() {
        batch.add_image(&TextureHandle { id: *id }, Some(&at(k as f32)), None, None, &tex).unwrap();
    }
    let before = batch.records().clone();
    batch.sort();
    let after = batch.records().clone();
    assert_eq!(after.len(), before.len());
    for record in &before {
        assert_eq!(
            after.iter().filter(|r| *r == record).count(),
            before.iter().filter(|r| *r == record).count()
        );
    }
}

#[test]
fn sort_keeps_the_order_within_a_texture() {
    let mut batch = TextureBatch::new();
    let tex = textures(&[(1, 1, 1), (2, 2, 2), (3, 3, 3)]);
    let ids = [3u32, 1, 2, 1, 3, 2, 1, 1, 3];
    for (k, id) in ids.iter().enumerate() {
        batch.add_image(&TextureHandle { id: *id }, Some(&at(k as f32)), None, None, &tex).unwrap();
    }
    let before = batch.records().clone();
    batch.sort();
    for id in 1..=3u32 {
        let was: Vec<&TextureDrawData> = before.iter().filter(|r| r.tex_id() == id).collect();
        let is: Vec<&TextureDrawData> = batch.records().iter().filter(|r| r.tex_id() == id).collect();
        assert_eq!(was, is);
    }
}

#[test]
fn sort_of_an_empty_batch() {
    let mut batch = TextureBatch::new();
    batch.sort();
    assert!(batch.is_empty());
}

#[test]
fn reset_empties_the_batch() {
    let mut batch = TextureBatch::new();
    let tex = textures(&[(1, 1, 1)]);
    batch.add_image(&TextureHandle { id: 1 }, Some(&at(0.0)), None, None, &tex).unwrap();
    batch.add_image(&TextureHandle { id: 1 }, Some(&at(1.0)), None, None, &tex).unwrap();
    assert_eq!(batch.len(), 2);
    batch.reset();
    assert_eq!(batch.len(), 0);
    assert!(batch.encode(&SpriteSheetStorage::new(), &Vec::new()).is_empty());
}
