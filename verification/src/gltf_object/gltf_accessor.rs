//! Accessors: typed views into buffer views.

use crate::gltf_object::extras::{Extensions, Extras};
use crate::gltf_object::record::{relink, Record};
use vstd::prelude::*;

verus! {

/// A typed view into a buffer view. Floating-point numbers are held as the
/// bits of their IEEE 754 single-precision form.
#[derive(Debug)]
pub struct GltfAccessor {
    pub buffer_view: Option<usize>,
    pub byte_offset: Option<usize>,
    pub component_type: usize,
    pub normalized: bool,
    pub count: usize,
    pub element_type: String,
    pub max: Vec<u32>,
    pub min: Vec<u32>,
    pub sparse: Option<GltfAccessorSparse>,
    pub name: Option<String>,
    pub extensions: Extensions,
    pub extras: Extras,
    pub original_index: Option<usize>,
}

#[derive(Debug)]
pub struct GltfAccessorSparse {
    pub count: usize,
    pub indices: GltfAccessorSparseIndices,
    pub values: GltfAccessorSparseValues,
    pub extensions: Extensions,
    pub extras: Extras,
}

#[derive(Debug)]
pub struct GltfAccessorSparseIndices {
    pub buffer_view: usize,
    pub byte_offset: Option<usize>,
    pub component_type: usize,
    pub extras: Extras,
    pub extensions: Extensions,
}

#[derive(Debug)]
pub struct GltfAccessorSparseValues {
    pub buffer_view: Option<usize>,
    pub byte_offset: Option<usize>,
    pub extras: Extras,
    pub extensions: Extensions,
}

impl Clone for GltfAccessorSparseIndices {
    fn clone(&self) -> (res: Self)
        ensures
            res == *self,
    {
        GltfAccessorSparseIndices {
            buffer_view: self.buffer_view,
            byte_offset: self.byte_offset,
            component_type: self.component_type,
            extras: self.extras.clone(),
            extensions: self.extensions.clone(),
        }
    }
}

impl Clone for GltfAccessorSparseValues {
    fn clone(&self) -> (res: Self)
        ensures
            res == *self,
    {
        GltfAccessorSparseValues {
            buffer_view: self.buffer_view,
            byte_offset: self.byte_offset,
            extras: self.extras.clone(),
            extensions: self.extensions.clone(),
        }
    }
}

impl Clone for GltfAccessorSparse {
    fn clone(&self) -> (res: Self)
        ensures
            res == *self,
    {
        GltfAccessorSparse {
            count: self.count,
            indices: self.indices.clone(),
            values: self.values.clone(),
            extensions: self.extensions.clone(),
            extras: self.extras.clone(),
        }
    }
}

impl Record for GltfAccessor {
    /// The buffer view that holds the data.
    open spec fn first_link(&self) -> Option<usize> {
        self.buffer_view
    }

    open spec fn second_link(&self) -> Option<usize> {
        None
    }

    open spec fn source_index(&self) -> Option<usize> {
        self.original_index
    }

    open spec fn same_payload(&self, source: &Self) -> bool {
        &&& self.byte_offset == source.byte_offset
        &&& self.component_type == source.component_type
        &&& self.normalized == source.normalized
        &&& self.count == source.count
        &&& self.element_type == source.element_type
        &&& self.max@ == source.max@
        &&& self.min@ == source.min@
        &&& self.sparse == source.sparse
        &&& self.name == source.name
        &&& self.extensions == source.extensions
        &&& self.extras == source.extras
    }

    fn links(&self) -> (res: (Option<usize>, Option<usize>)) {
        (self.buffer_view, None)
    }

    fn extract(&self, source_index: usize, first: Option<usize>, second: Option<usize>) -> (res:
        Self) {
        GltfAccessor {
            buffer_view: relink(self.buffer_view, first),
            byte_offset: self.byte_offset,
            component_type: self.component_type,
            normalized: self.normalized,
            count: self.count,
            element_type: self.element_type.clone(),
            max: self.max.clone(),
            min: self.min.clone(),
            sparse: self.sparse.clone(),
            name: self.name.clone(),
            extensions: self.extensions.clone(),
            extras: self.extras.clone(),
            original_index: Some(source_index),
        }
    }
}

impl Clone for GltfAccessor {
    fn clone(&self) -> (res: Self)
        ensures
            res.same_payload(self),
            res.buffer_view == self.buffer_view,
            res.original_index == self.original_index,
    {
        GltfAccessor {
            buffer_view: self.buffer_view,
            byte_offset: self.byte_offset,
            component_type: self.component_type,
            normalized: self.normalized,
            count: self.count,
            element_type: self.element_type.clone(),
            max: self.max.clone(),
            min: self.min.clone(),
            sparse: self.sparse.clone(),
            name: self.name.clone(),
            extensions: self.extensions.clone(),
            extras: self.extras.clone(),
            original_index: self.original_index,
        }
    }
}

} // verus!
