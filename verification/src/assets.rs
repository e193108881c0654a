use vstd::prelude::*;

verus! {

/// The list of assets that a room host ships: the base avatar, and the
/// costumes and cosmetics that players may wear.
#[derive(Debug, Clone)]
pub struct AssetManifest {
    pub base_avatar: AssetAvatar,
    pub costumes: Vec<AssetItem>,
    pub cosmetics: Vec<AssetItem>,
}

/// The avatar that every player starts with.
#[derive(Debug, Clone)]
pub struct AssetAvatar {
    pub name: String,
    pub description: String,
    pub model: String,
}

/// One costume or cosmetic.
#[derive(Debug, Clone)]
pub struct AssetItem {
    pub name: String,
    pub description: String,
    pub model: String,
}

/// The assets that a room host has loaded.
#[derive(Debug, Clone)]
pub struct AssetManager {
    pub manifest: AssetManifest,
}

} // verus!
