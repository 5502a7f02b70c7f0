//! Textures: an image together with a sampler.

use crate::gltf_object::extras::{Extensions, Extras};
use crate::gltf_object::record::{relink, Record};
use vstd::prelude::*;

verus! {

#[derive(Debug)]
pub struct GltfTexture {
    pub sample_index: Option<usize>,
    pub source_image_index: Option<usize>,
    pub name: Option<String>,
    pub extensions: Extensions,
    pub extras: Extras,
    pub original_index: Option<usize>,
}

impl Record for GltfTexture {
    /// The image that the texture shows.
    open spec fn first_link(&self) -> Option<usize> {
        self.source_image_index
    }

    /// The sampler that the texture is read with.
    open spec fn second_link(&self) -> Option<usize> {
        self.sample_index
    }

    open spec fn source_index(&self) -> Option<usize> {
        self.original_index
    }

    open spec fn same_payload(&self, source: &Self) -> bool {
        &&& self.name == source.name
        &&& self.extensions == source.extensions
        &&& self.extras == source.extras
    }

    fn links(&self) -> (res: (Option<usize>, Option<usize>)) {
        (self.source_image_index, self.sample_index)
    }

    fn extract(&self, source_index: usize, first: Option<usize>, second: Option<usize>) -> (res:
        Self) {
        GltfTexture {
            sample_index: relink(self.sample_index, second),
            source_image_index: relink(self.source_image_index, first),
            name: self.name.clone(),
            extensions: self.extensions.clone(),
            extras: self.extras.clone(),
            original_index: Some(source_index),
        }
    }
}

impl Clone for GltfTexture {
    fn clone(&self) -> (res: Self)
        ensures
            res == *self,
    {
        GltfTexture {
            sample_index: self.sample_index,
            source_image_index: self.source_image_index,
            name: self.name.clone(),
            extensions: self.extensions.clone(),
            extras: self.extras.clone(),
            original_index: self.original_index,
        }
    }
}

} // verus!
