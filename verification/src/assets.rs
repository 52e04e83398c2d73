//! Asset stores: which textures and sprite sheets are loaded this frame.
//!
//! A store is a finite map from handle id to asset. An asset that is still
//! loading is simply not in the map.

use std::collections::HashMap;
use vstd::prelude::*;
use crate::sprite::{SpriteSheet, SpriteSheetHandle, Texture, TextureHandle};

verus! {

broadcast use vstd::std_specs::hash::group_hash_axioms;

/// The loaded textures, by handle id.
pub struct TextureStorage {
    assets: HashMap<u32, Texture>,
}

impl View for TextureStorage {
    type V = Map<u32, Texture>;

    closed spec fn view(&self) -> Map<u32, Texture> {
        self.assets@
    }
}

impl TextureStorage {
    pub fn new() -> (s: Self)
        ensures
            s@ == Map::<u32, Texture>::empty(),
    {
        TextureStorage { assets: HashMap::new() }
    }

    /// Marks `handle` as loaded with `texture`, replacing what was there.
    pub fn insert(&mut self, handle: TextureHandle, texture: Texture)
        ensures
            final(self)@ == old(self)@.insert(handle.id, texture),
    {
        self.assets.insert(handle.id, texture);
    }

    /// The texture behind `handle`, if it is loaded.
    pub fn get(&self, handle: &TextureHandle) -> (r: Option<&Texture>)
        ensures
            self@.contains_key(handle.id) ==> r == Some(&self@[handle.id]),
            !self@.contains_key(handle.id) ==> r is None,
    {
        self.assets.get(&handle.id)
    }
}

/// The loaded sprite sheets, by handle id.
pub struct SpriteSheetStorage {
    assets: HashMap<u32, SpriteSheet>,
}

impl View for SpriteSheetStorage {
    type V = Map<u32, SpriteSheet>;

    closed spec fn view(&self) -> Map<u32, SpriteSheet> {
        self.assets@
    }
}

impl SpriteSheetStorage {
    pub fn new() -> (s: Self)
        ensures
            s@ == Map::<u32, SpriteSheet>::empty(),
    {
        SpriteSheetStorage { assets: HashMap::new() }
    }

    /// Marks `handle` as loaded with `sheet`, replacing what was there.
    pub fn insert(&mut self, handle: SpriteSheetHandle, sheet: SpriteSheet)
        ensures
            final(self)@ == old(self)@.insert(handle.id, sheet),
    {
        self.assets.insert(handle.id, sheet);
    }

    /// The sheet behind `handle`, if it is loaded.
    pub fn get(&self, handle: &SpriteSheetHandle) -> (r: Option<&SpriteSheet>)
        ensures
            self@.contains_key(handle.id) ==> r == Some(&self@[handle.id]),
            !self@.contains_key(handle.id) ==> r is None,
    {
        self.assets.get(&handle.id)
    }
}

} // verus!
