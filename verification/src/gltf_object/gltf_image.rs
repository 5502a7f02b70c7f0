//! Images: the data that textures are made of.

use crate::gltf_object::extras::{Extensions, Extras};
use crate::gltf_object::record::{relink, Record};
use vstd::prelude::*;

verus! {

#[derive(Debug)]
pub struct GltfImage {
    pub uri: Option<String>,
    pub mime_type: Option<String>,
    pub buffer_view: Option<usize>,
    pub name: Option<String>,
    pub extensions: Extensions,
    pub extras: Extras,
    pub original_index: Option<usize>,
}

impl Record for GltfImage {
    /// The buffer view that holds the image.
    open spec fn first_link(&self) -> Option<usize> {
        self.buffer_view
    }

    open spec fn second_link(&self) -> Option<usize> {
        None
    }

    open spec fn source_index(&self) -> Option<usize> {
        self.original_index
    }

    open spec fn same_payload(&self, source: &Self) -> bool {
        &&& self.uri == source.uri
        &&& self.mime_type == source.mime_type
        &&& self.name == source.name
        &&& self.extensions == source.extensions
        &&& self.extras == source.extras
    }

    fn links(&self) -> (res: (Option<usize>, Option<usize>)) {
        (self.buffer_view, None)
    }

    fn extract(&self, source_index: usize, first: Option<usize>, second: Option<usize>) -> (res:
        Self) {
        GltfImage {
            uri: self.uri.clone(),
            mime_type: self.mime_type.clone(),
            buffer_view: relink(self.buffer_view, first),
            name: self.name.clone(),
            extensions: self.extensions.clone(),
            extras: self.extras.clone(),
            original_index: Some(source_index),
        }
    }
}

impl Clone for GltfImage {
    fn clone(&self) -> (res: Self)
        ensures
            res == *self,
    {
        GltfImage {
            uri: self.uri.clone(),
            mime_type: self.mime_type.clone(),
            buffer_view: self.buffer_view,
            name: self.name.clone(),
            extensions: self.extensions.clone(),
            extras: self.extras.clone(),
            original_index: self.original_index,
        }
    }
}

} // verus!
