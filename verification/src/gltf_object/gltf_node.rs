//! Nodes: the objects of a scene.

use crate::gltf_object::extras::{items_of, Extensions, Extras};
use crate::gltf_object::record::{relink, Record};
use vstd::prelude::*;

verus! {

/// A node. Floating-point numbers are held as the bits of their IEEE 754
/// single-precision form, so that a translation of all zeros is the origin.
#[derive(Debug)]
pub struct GltfNode {
    pub mesh: Option<usize>,
    pub name: Option<String>,
    pub camera: Option<usize>,
    pub children: Option<Vec<usize>>,
    pub translation: Option<[u32; 3]>,
    pub matrix: Option<[u32; 16]>,
    pub rotation: Option<[u32; 4]>,
    pub scale: Option<[u32; 3]>,
    pub weights: Option<Vec<usize>>,
    pub extras: Extras,
    pub extensions: Extensions,
    pub original_index: Option<usize>,
}

/// The coordinates of an optional translation.
pub open spec fn coordinates(translation: Option<[u32; 3]>) -> Option<Seq<u32>> {
    match translation {
        Some(t) => Some(t@),
        None => None,
    }
}

/// The coordinates of `translation` after a move to the origin: all zero,
/// where there is a translation at all.
pub open spec fn centered(translation: Option<[u32; 3]>) -> Option<Seq<u32>> {
    match translation {
        Some(_) => Some(seq![0u32, 0u32, 0u32]),
        None => None,
    }
}

impl GltfNode {
    /// Whether the node holds what `source` holds, but for its mesh, its tag
    /// and its translation.
    pub open spec fn same_placement(&self, source: &Self) -> bool {
        &&& self.name == source.name
        &&& self.camera == source.camera
        &&& items_of(self.children) == items_of(source.children)
        &&& self.matrix == source.matrix
        &&& self.rotation == source.rotation
        &&& self.scale == source.scale
        &&& items_of(self.weights) == items_of(source.weights)
        &&& self.extras == source.extras
        &&& self.extensions == source.extensions
    }

    /// Moves the node to the origin, where it has a translation. Rotation,
    /// scale and matrix stay.
    pub fn center(&mut self)
        ensures
            coordinates(final(self).translation) == centered(old(self).translation),
            final(self).same_placement(old(self)),
            final(self).mesh == old(self).mesh,
            final(self).original_index == old(self).original_index,
    {
        if self.translation.is_some() {
            let origin: [u32; 3] = [0, 0, 0];
            assert(origin@ =~= seq![0u32, 0u32, 0u32]);
            self.translation = Some(origin);
        }
    }
}

impl Record for GltfNode {
    /// The mesh of the node.
    open spec fn first_link(&self) -> Option<usize> {
        self.mesh
    }

    open spec fn second_link(&self) -> Option<usize> {
        None
    }

    open spec fn source_index(&self) -> Option<usize> {
        self.original_index
    }

    open spec fn same_payload(&self, source: &Self) -> bool {
        &&& self.same_placement(source)
        &&& self.translation == source.translation
    }

    fn links(&self) -> (res: (Option<usize>, Option<usize>)) {
        (self.mesh, None)
    }

    fn extract(&self, source_index: usize, first: Option<usize>, second: Option<usize>) -> (res:
        Self) {
        GltfNode {
            mesh: relink(self.mesh, first),
            name: self.name.clone(),
            camera: self.camera,
            children: self.children.clone(),
            translation: self.translation,
            matrix: self.matrix,
            rotation: self.rotation,
            scale: self.scale,
            weights: self.weights.clone(),
            extras: self.extras.clone(),
            extensions: self.extensions.clone(),
            original_index: Some(source_index),
        }
    }
}

impl Clone for GltfNode {
    fn clone(&self) -> (res: Self)
        ensures
            res.same_payload(self),
            res.mesh == self.mesh,
            res.original_index == self.original_index,
    {
        GltfNode {
            mesh: self.mesh,
            name: self.name.clone(),
            camera: self.camera,
            children: self.children.clone(),
            translation: self.translation,
            matrix: self.matrix,
            rotation: self.rotation,
            scale: self.scale,
            weights: self.weights.clone(),
            extras: self.extras.clone(),
            extensions: self.extensions.clone(),
            original_index: self.original_index,
        }
    }
}

} // verus!
