//! Samplers: how a texture is filtered and wrapped.

use crate::gltf_object::extras::{Extensions, Extras};
use crate::gltf_object::record::Record;
use vstd::prelude::*;

verus! {

#[derive(Debug)]
pub struct GltfSampler {
    pub mag_filter: Option<usize>,
    pub min_filter: Option<usize>,
    pub wrap_s: Option<usize>,
    pub wrap_t: Option<usize>,
    pub name: Option<String>,
    pub extras: Extras,
    pub extensions: Extensions,
    pub original_index: Option<usize>,
}

impl Record for GltfSampler {
    open spec fn first_link(&self) -> Option<usize> {
        None
    }

    open spec fn second_link(&self) -> Option<usize> {
        None
    }

    open spec fn source_index(&self) -> Option<usize> {
        self.original_index
    }

    open spec fn same_payload(&self, source: &Self) -> bool {
        &&& self.mag_filter == source.mag_filter
        &&& self.min_filter == source.min_filter
        &&& self.wrap_s == source.wrap_s
        &&& self.wrap_t == source.wrap_t
        &&& self.name == source.name
        &&& self.extras == source.extras
        &&& self.extensions == source.extensions
    }

    fn links(&self) -> (res: (Option<usize>, Option<usize>)) {
        (None, None)
    }

    fn extract(&self, source_index: usize, first: Option<usize>, second: Option<usize>) -> (res:
        Self) {
        GltfSampler {
            mag_filter: self.mag_filter,
            min_filter: self.min_filter,
            wrap_s: self.wrap_s,
            wrap_t: self.wrap_t,
            name: self.name.clone(),
            extras: self.extras.clone(),
            extensions: self.extensions.clone(),
            original_index: Some(source_index),
        }
    }
}

impl Clone for GltfSampler {
    fn clone(&self) -> (res: Self)
        ensures
            res == *self,
    {
        GltfSampler {
            mag_filter: self.mag_filter,
            min_filter: self.min_filter,
            wrap_s: self.wrap_s,
            wrap_t: self.wrap_t,
            name: self.name.clone(),
            extras: self.extras.clone(),
            extensions: self.extensions.clone(),
            original_index: self.original_index,
        }
    }
}

} // verus!
