//! Meshes and the primitives that they are made of.

use crate::gltf_object::extras::items_of;
use crate::gltf_object::record::{
    copy_records, count_up, counted, is_copied, link_known, relink, Record,
};
use vstd::prelude::*;

verus! {

#[derive(Debug)]
pub struct GltfMesh {
    pub name: String,
    pub primitives: Vec<GltfMeshPrimitive>,
    pub original_index: Option<usize>,
}

#[derive(Debug)]
pub struct GltfMeshPrimitive {
    pub attributes: serde_json::Value,
    pub accessor: Option<usize>,
    pub material: Option<usize>,
    pub mode: Option<usize>,
    pub targets: Option<usize>,
    pub extensions: Option<Vec<serde_json::Value>>,
    pub extras: Option<Vec<serde_json::Value>>,
    pub original_index: Option<usize>,
}

impl Record for GltfMeshPrimitive {
    /// The accessor of the vertex indices.
    open spec fn first_link(&self) -> Option<usize> {
        self.accessor
    }

    /// The material to draw with.
    open spec fn second_link(&self) -> Option<usize> {
        self.material
    }

    open spec fn source_index(&self) -> Option<usize> {
        self.original_index
    }

    open spec fn same_payload(&self, source: &Self) -> bool {
        &&& self.attributes == source.attributes
        &&& self.mode == source.mode
        &&& self.targets == source.targets
        &&& items_of(self.extensions) == items_of(source.extensions)
        &&& items_of(self.extras) == items_of(source.extras)
    }

    fn links(&self) -> (res: (Option<usize>, Option<usize>)) {
        (self.accessor, self.material)
    }

    fn extract(&self, source_index: usize, first: Option<usize>, second: Option<usize>) -> (res:
        Self) {
        GltfMeshPrimitive {
            attributes: self.attributes.clone(),
            accessor: relink(self.accessor, first),
            material: relink(self.material, second),
            mode: self.mode,
            targets: self.targets,
            extensions: self.extensions.clone(),
            extras: self.extras.clone(),
            original_index: Some(source_index),
        }
    }
}

impl GltfMesh {
    /// Whether the mesh is `source` as an extracted scene holds it: tagged
    /// with `source_index`, and with a copy of each primitive whose links
    /// are carried over to the new accessors and materials.
    pub open spec fn is_copy_of(
        &self,
        source: &GltfMesh,
        source_index: usize,
        accessor_order: Seq<usize>,
        material_order: Seq<usize>,
    ) -> bool {
        &&& self.name == source.name
        &&& self.original_index == Some(source_index)
        &&& is_copied(
            self.primitives@,
            source.primitives@,
            count_up(source.primitives@.len()),
            accessor_order,
            material_order,
        )
    }

    /// Whether `accessor_order` and `material_order` hold what the
    /// primitives of the mesh name.
    pub open spec fn links_known(
        &self,
        accessor_order: Seq<usize>,
        material_order: Seq<usize>,
    ) -> bool {
        forall|k: int|
            #![trigger self.primitives@[k]]
            0 <= k < self.primitives@.len() ==> {
                &&& link_known(accessor_order, self.primitives@[k].accessor)
                &&& link_known(material_order, self.primitives@[k].material)
            }
    }

    /// A copy of the mesh for another scene.
    pub(crate) fn extract(
        &self,
        source_index: usize,
        accessor_order: &Vec<usize>,
        material_order: &Vec<usize>,
    ) -> (res: GltfMesh)
        requires
            self.links_known(accessor_order@, material_order@),
        ensures
            res.is_copy_of(self, source_index, accessor_order@, material_order@),
    {
        let all = counted(self.primitives.len());
        GltfMesh {
            name: self.name.clone(),
            primitives: copy_records(&self.primitives, &all, accessor_order, material_order),
            original_index: Some(source_index),
        }
    }
}

impl Clone for GltfMeshPrimitive {
    fn clone(&self) -> (res: Self)
        ensures
            res.same_payload(self),
            res.accessor == self.accessor,
            res.material == self.material,
            res.original_index == self.original_index,
    {
        GltfMeshPrimitive {
            attributes: self.attributes.clone(),
            accessor: self.accessor,
            material: self.material,
            mode: self.mode,
            targets: self.targets,
            extensions: self.extensions.clone(),
            extras: self.extras.clone(),
            original_index: self.original_index,
        }
    }
}

impl Clone for GltfMesh {
    fn clone(&self) -> (res: Self)
        ensures
            res.name == self.name,
            res.original_index == self.original_index,
            res.primitives@.len() == self.primitives@.len(),
            forall|i: int|
                #![trigger res.primitives@[i]]
                0 <= i < self.primitives@.len() ==> {
                    &&& res.primitives@[i].same_payload(&self.primitives@[i])
                    &&& res.primitives@[i].accessor == self.primitives@[i].accessor
                    &&& res.primitives@[i].material == self.primitives@[i].material
                    &&& res.primitives@[i].original_index == self.primitives@[i].original_index
                },
    {
        let mut primitives: Vec<GltfMeshPrimitive> = Vec::with_capacity(self.primitives.len());
        let mut i: usize = 0;
        while i < self.primitives.len()
            invariant
                i <= self.primitives@.len(),
                primitives@.len() == i,
                forall|j: int|
                    #![trigger primitives@[j]]
                    0 <= j < i ==> {
                        &&& primitives@[j].same_payload(&self.primitives@[j])
                        &&& primitives@[j].accessor == self.primitives@[j].accessor
                        &&& primitives@[j].material == self.primitives@[j].material
                        &&& primitives@[j].original_index == self.primitives@[j].original_index
                    },
            decreases self.primitives@.len() - i,
        {
            primitives.push(self.primitives[i].clone());
            i = i + 1;
        }
        GltfMesh { name: self.name.clone(), primitives, original_index: self.original_index }
    }
}

} // verus!
