//! Loaded assets, held in tables and addressed by the index of their slot.

use vstd::prelude::*;

verus! {

/// The slot of a model in the table of models.
#[derive(Clone, Copy, Debug, PartialEq, Eq, Structural)]
pub struct GltfHandle {
    pub index: usize,
}

/// The slot of a scene in the table of scenes.
#[derive(Clone, Copy, Debug, PartialEq, Eq, Structural)]
pub struct SceneHandle {
    pub index: usize,
}

/// The slot of a material in the table of materials.
#[derive(Clone, Copy, Debug, PartialEq, Eq, Structural)]
pub struct MaterialId {
    pub index: usize,
}

/// What a loaded model holds: its scenes and its materials, each in the
/// order of the model file.
#[derive(Clone, Debug, PartialEq, Eq)]
pub struct Gltf {
    pub scenes: Vec<SceneHandle>,
    pub materials: Vec<MaterialId>,
}

/// What a building selection changes of a material: its diffuse transmission, in
/// millionths.
#[derive(Clone, Copy, Debug, PartialEq, Eq, Structural)]
pub struct StandardMaterial {
    pub diffuse_transmission: i64,
}

/// A table of assets. A slot is empty while its asset is not loaded, and
/// again once the asset has been removed.
#[derive(Clone, Debug, PartialEq, Eq)]
pub struct Assets<T> {
    pub slots: Vec<Option<T>>,
}

impl<T> Assets<T> {
    /// Whether slot `index` exists and holds an asset.
    pub open spec fn contains(self, index: int) -> bool {
        0 <= index < self.slots@.len() && self.slots@[index] is Some
    }

    /// The asset in slot `index`.
    pub open spec fn asset(self, index: int) -> T
        recommends
            self.contains(index),
    {
        self.slots@[index]->0
    }

    /// A table without slots.
    pub fn new() -> (assets: Assets<T>)
        ensures
            assets.slots@.len() == 0,
    {
        Assets { slots: Vec::new() }
    }

    /// Puts `asset` into a new slot at the end and returns the slot's index.
    pub fn add(&mut self, asset: T) -> (index: usize)
        ensures
            index == old(self).slots@.len(),
            final(self).slots@ == old(self).slots@.push(Some(asset)),
    {
        let index = self.slots.len();
        self.slots.push(Some(asset));
        index
    }

    /// The asset in slot `index`, if the slot exists and is not empty.
    pub fn get(&self, index: usize) -> (found: Option<&T>)
        ensures
            found is Some <==> self.contains(index as int),
            found matches Some(asset) ==> *asset == self.asset(index as int),
    {
        if index < self.slots.len() {
            self.slots[index].as_ref()
        } else {
            None
        }
    }

    /// Puts `asset` into slot `index` if the slot exists, whatever it held,
    /// and says whether it did.
    pub fn set(&mut self, index: usize, asset: T) -> (stored: bool)
        ensures
            stored == (index < old(self).slots@.len()),
            stored ==> final(self).slots@ == old(self).slots@.update(index as int, Some(asset)),
            !stored ==> final(self).slots@ == old(self).slots@,
    {
        if index < self.slots.len() {
            self.slots.set(index, Some(asset));
            true
        } else {
            false
        }
    }
}

} // verus!
