//! The extraction of one node into a scene of its own.

use crate::buffers::GltfBinaryBuffers;
use crate::gltf_object::closure::{Closure, Selection, MESH, NODE};
use crate::gltf_object::extract_flags::GltrExtractFlags;
use crate::gltf_object::gltf_mesh::GltfMesh;
use crate::gltf_object::gltf_node::{centered, coordinates, GltfNode};
use crate::gltf_object::packing::{is_copied_whole, is_repacked};
use crate::gltf_object::record::{copy_records, is_copied, link_known, remap, remapped, Record};
use crate::gltf_object::{GltfObject, GltrError, GltrResult, GENERATOR, VERSION};
use vstd::prelude::*;

verus! {

/// The message for a buffer whose declared length is not the length of its
/// payload.
pub const ERR_BUFFER_LENGTH: &'static str =
    "buffer byteLength differs from the length of its payload";

/// The message for a buffer view that reaches past the end of its buffer.
pub const ERR_VIEW_RANGE: &'static str = "buffer view reaches past the end of its buffer";

/// Whether `link` names nothing or one of `limit` records.
pub open spec fn resolves(link: Option<usize>, limit: nat) -> bool {
    link matches Some(x) ==> x < limit
}

impl GltfObject {
    /// Whether every reference that an extraction follows names a record of
    /// this scene: the mesh of a node, the accessor and the material of a
    /// primitive, the base color texture of a material, the image and the
    /// sampler of a texture, the buffer view of an accessor and of an image,
    /// and the buffer of a buffer view.
    pub open spec fn references_resolve(&self) -> bool {
        &&& forall|i: int|
            0 <= i < self.nodes@.len() ==> resolves(
                (#[trigger] self.nodes@[i]).mesh,
                self.meshes@.len(),
            )
        &&& forall|m: int, k: int|
            #![trigger self.meshes@[m].primitives@[k]]
            0 <= m < self.meshes@.len() && 0 <= k < self.meshes@[m].primitives@.len() ==> {
                &&& resolves(self.meshes@[m].primitives@[k].accessor, self.accessors@.len())
                &&& resolves(self.meshes@[m].primitives@[k].material, self.materials@.len())
            }
        &&& forall|i: int|
            0 <= i < self.materials@.len() ==> resolves(
                (#[trigger] self.materials@[i]).texture_index(),
                self.textures@.len(),
            )
        &&& forall|i: int|
            #![trigger self.textures@[i]]
            0 <= i < self.textures@.len() ==> {
                &&& resolves(self.textures@[i].source_image_index, self.images@.len())
                &&& resolves(self.textures@[i].sample_index, self.samplers@.len())
            }
        &&& forall|i: int|
            0 <= i < self.accessors@.len() ==> resolves(
                (#[trigger] self.accessors@[i]).buffer_view,
                self.buffer_views@.len(),
            )
        &&& forall|i: int|
            0 <= i < self.images@.len() ==> resolves(
                (#[trigger] self.images@[i]).buffer_view,
                self.buffer_views@.len(),
            )
        &&& forall|i: int|
            0 <= i < self.buffer_views@.len() ==> (#[trigger] self.buffer_views@[i]).buffer
                < self.buffers.0@.len()
    }

    /// The rule of the schema that the records in `c` break, as far as an
    /// extraction looks: a buffer that declares a length which its payload
    /// does not have; or, where buffers are to be recalculated, a buffer
    /// view that reaches past the end of its buffer.
    pub open spec fn violation_in(&self, c: Closure, recalculate: bool) -> Option<&'static str> {
        if self.takes_ill_formed_buffer(c) {
            Some(ERR_BUFFER_LENGTH)
        } else if recalculate && self.takes_misfit_view(c) {
            Some(ERR_VIEW_RANGE)
        } else {
            None
        }
    }

    /// The rule of the schema that stands in the way of an extraction of
    /// node `idx`.
    pub open spec fn violation(&self, idx: usize, flags: GltrExtractFlags) -> Option<
        &'static str,
    > {
        self.violation_in(self.closure(self.nodes@[idx as int].mesh), flags.recalculates())
    }

    /// Whether `self` is the scene that an extraction of node `idx` of
    /// `source` yields: the node, the records that its mesh leads to, each
    /// once and in the order in which it was first seen, with every
    /// reference carried over to the place that the record it names has in
    /// the new scene; and nothing else.
    pub open spec fn is_extraction_of(
        &self,
        source: &GltfObject,
        idx: usize,
        flags: GltrExtractFlags,
    ) -> bool {
        let node = source.nodes@[idx as int];
        let c = source.closure(node.mesh);
        let none = Seq::<usize>::empty();
        &&& self.scene == source.scene
        &&& self.nodes@.len() == 1
        &&& self.nodes@[0].same_placement(&node)
        &&& self.nodes@[0].original_index == Some(idx)
        &&& remapped(c.meshes, node.mesh, self.nodes@[0].mesh)
        &&& coordinates(self.nodes@[0].translation) == if flags.centers() {
            centered(node.translation)
        } else {
            coordinates(node.translation)
        }
        &&& self.meshes@.len() == c.meshes.len()
        &&& forall|k: int|
            0 <= k < c.meshes.len() ==> (#[trigger] self.meshes@[k]).is_copy_of(
                &source.meshes@[c.meshes[k] as int],
                c.meshes[k],
                c.accessors,
                c.materials,
            )
        &&& is_copied(self.accessors@, source.accessors@, c.accessors, c.buffer_views, none)
        &&& is_copied(self.materials@, source.materials@, c.materials, c.textures, none)
        &&& is_copied(self.textures@, source.textures@, c.textures, c.images, c.samplers)
        &&& is_copied(self.images@, source.images@, c.images, c.buffer_views, none)
        &&& is_copied(self.samplers@, source.samplers@, c.samplers, none, none)
        &&& if flags.recalculates() {
            is_repacked(
                self.buffer_views@,
                self.buffers.0@,
                source.buffer_views@,
                c.buffer_views,
                source.buffers.0@,
                c.buffers,
            )
        } else {
            &&& is_copied(self.buffer_views@, source.buffer_views@, c.buffer_views, c.buffers, none)
            &&& is_copied_whole(self.buffers.0@, source.buffers.0@, c.buffers)
        }
        &&& self.extensions_used@.len() == 0
        &&& self.extensions_required@.len() == 0
        &&& self.animations@.len() == 0
        &&& self.cameras@.len() == 0
        &&& self.scenes@.len() == 0
        &&& self.skins@.len() == 0
        &&& self.asset.generator@ == GENERATOR@
        &&& self.asset.version@ == VERSION@
        &&& self.extensions is None
        &&& self.extras is None
    }

    /// Looks for a rule of the schema that the selected records break.
    pub(crate) fn check(&self, selection: &Selection, recalculate: bool) -> (res: Result<(), GltrError>)
        requires
            selection@.within(self),
            selection@.closed(self),
        ensures
            match res {
                Ok(_) => self.violation_in(selection@, recalculate) is None,
                Err(GltrError::ConstraintViolation(message)) => self.violation_in(
                    selection@,
                    recalculate,
                ) matches Some(m) && message@ == m@,
                Err(_) => false,
            },
    {
        let mut b: usize = 0;
        while b < selection.buffers.len()
            invariant
                b <= selection.buffers@.len(),
                selection@.within(self),
                forall|j: int|
                    0 <= j < b ==> (#[trigger] self.buffers.0@[selection.buffers@[j] as int]).wf(),
            decreases selection.buffers@.len() - b,
        {
            let buffer = &self.buffers.0[selection.buffers[b]];
            if buffer.byte_length != buffer.bytes.len() {
                assert(!self.buffers.0@[selection@.buffers[b as int] as int].wf());
                return Err(GltrError::ConstraintViolation(ERR_BUFFER_LENGTH.to_string()));
            }
            b = b + 1;
        }
        if !recalculate {
            return Ok(());
        }
        let mut k: usize = 0;
        while k < selection.buffer_views.len()
            invariant
                k <= selection.buffer_views@.len(),
                recalculate,
                selection@.within(self),
                selection@.closed(self),
                !self.takes_ill_formed_buffer(selection@),
                forall|j: int|
                    0 <= j < k ==> self.view_fits(
                        #[trigger] self.buffer_views@[selection.buffer_views@[j] as int],
                    ),
            decreases selection.buffer_views@.len() - k,
        {
            let view = &self.buffer_views[selection.buffer_views[k]];
            assert(selection@.buffers.contains(
                self.buffer_views@[selection@.buffer_views[k as int] as int].buffer,
            ));
            let length = self.buffers.0[view.buffer].bytes.len();
            if view.byte_offset > length || view.byte_length > length - view.byte_offset {
                assert(!self.view_fits(
                    self.buffer_views@[selection@.buffer_views[k as int] as int],
                ));
                return Err(GltrError::ConstraintViolation(ERR_VIEW_RANGE.to_string()));
            }
            k = k + 1;
        }
        Ok(())
    }

    /// Copies the meshes that were taken.
    pub(crate) fn copy_meshes(&self, selection: &Selection) -> (copies: Vec<GltfMesh>)
        requires
            selection@.within(self),
            selection@.closed(self),
        ensures
            copies@.len() == selection@.meshes.len(),
            forall|k: int|
                0 <= k < selection@.meshes.len() ==> (#[trigger] copies@[k]).is_copy_of(
                    &self.meshes@[selection@.meshes[k] as int],
                    selection@.meshes[k],
                    selection@.accessors,
                    selection@.materials,
                ),
    {
        let mut copies: Vec<GltfMesh> = Vec::with_capacity(selection.meshes.len());
        let mut k: usize = 0;
        while k < selection.meshes.len()
            invariant
                k <= selection.meshes@.len(),
                selection@.within(self),
                selection@.closed(self),
                copies@.len() == k,
                forall|j: int|
                    0 <= j < k ==> (#[trigger] copies@[j]).is_copy_of(
                        &self.meshes@[selection@.meshes[j] as int],
                        selection@.meshes[j],
                        selection@.accessors,
                        selection@.materials,
                    ),
            decreases selection.meshes@.len() - k,
        {
            let index = selection.meshes[k];
            let mesh = &self.meshes[index];
            assert forall|p: int| 0 <= p < mesh.primitives@.len() implies {
                &&& link_known(selection@.accessors, (#[trigger] mesh.primitives@[p]).accessor)
                &&& link_known(selection@.materials, mesh.primitives@[p].material)
            } by {
                assert(mesh.primitives@[p]
                    == self.meshes@[selection@.meshes[k as int] as int].primitives@[p]);
            }
            copies.push(mesh.extract(index, &selection.accessors, &selection.materials));
            k = k + 1;
        }
        copies
    }

    /// Extracts node `idx` with everything that it depends on.
    ///
    /// The new scene holds the node, its mesh, and the accessors, materials,
    /// textures, images, samplers, buffer views and buffers that the mesh
    /// leads to. A record that is reached more than once is copied once.
    /// Every reference of a copy names the place that the record it stood
    /// for has in the new scene.
    ///
    /// The extraction fails with `InvalidIndex` at the first reference on
    /// the way that names no record, and with `ConstraintViolation` where a
    /// record that was taken breaks a rule of the schema. The source scene
    /// is not changed.
    pub fn extract_node(&self, idx: usize, flags: GltrExtractFlags) -> (res: GltrResult<Self>)
        ensures
            match res {
                Ok(extracted) => {
                    &&& self.dangling(idx) is None
                    &&& self.violation(idx, flags) is None
                    &&& extracted.is_extraction_of(self, idx, flags)
                    &&& extracted.references_resolve()
                },
                Err(GltrError::InvalidIndex(name, index)) => self.dangling(idx) == Some(
                    (name, index),
                ),
                Err(GltrError::ConstraintViolation(message)) => {
                    &&& self.dangling(idx) is None
                    &&& self.violation(idx, flags) matches Some(m) && message@ == m@
                },
                Err(GltrError::InvalidJson(_, _, _)) => false,
            },
            idx < self.nodes@.len() && self.nodes@[idx as int].mesh is Some
                && self.nodes@[idx as int].mesh.unwrap() >= self.meshes@.len() ==> res == Err::<
                GltfObject,
                GltrError,
            >(GltrError::InvalidIndex(MESH, self.nodes@[idx as int].mesh.unwrap())),
    {
        if idx >= self.nodes.len() {
            return Err(GltrError::InvalidIndex(NODE, idx));
        }
        let source = &self.nodes[idx];
        let selection = match self.select(source.mesh) {
            Ok(selection) => selection,
            Err(error) => {
                return Err(error);
            },
        };
        proof {
            self.lemma_closure_sound(source.mesh);
        }
        let recalculate = flags.has_flag(GltrExtractFlags::empty().recalculate_buffers());
        match self.check(&selection, recalculate) {
            Ok(_) => {},
            Err(error) => {
                return Err(error);
            },
        }
        let none: Vec<usize> = Vec::new();
        proof {
            if source.mesh is Some {
                assert(selection@.meshes[0] == source.mesh.unwrap());
            }
        }
        let mut node = source.extract(idx, remap(&selection.meshes, source.mesh), None);
        if flags.has_flag(GltrExtractFlags::empty().center_objects()) {
            node.center();
        }
        let mut nodes: Vec<GltfNode> = Vec::new();
        nodes.push(node);
        let meshes = self.copy_meshes(&selection);
        let accessors = copy_records(
            &self.accessors,
            &selection.accessors,
            &selection.buffer_views,
            &none,
        );
        let materials = copy_records(
            &self.materials,
            &selection.materials,
            &selection.textures,
            &none,
        );
        let textures = copy_records(
            &self.textures,
            &selection.textures,
            &selection.images,
            &selection.samplers,
        );
        let images = copy_records(&self.images, &selection.images, &selection.buffer_views, &none);
        let samplers = copy_records(&self.samplers, &selection.samplers, &none, &none);
        let (buffer_views, buffers) = if recalculate {
            self.repack(&selection)
        } else {
            (
                copy_records(&self.buffer_views, &selection.buffer_views, &selection.buffers, &none),
                self.copy_buffers(&selection),
            )
        };
        let blank = GltfObject::new();
        let extracted = GltfObject {
            extensions_used: blank.extensions_used,
            extensions_required: blank.extensions_required,
            accessors,
            animations: blank.animations,
            asset: blank.asset,
            buffers: GltfBinaryBuffers(buffers),
            buffer_views,
            cameras: blank.cameras,
            images,
            materials,
            meshes,
            nodes,
            samplers,
            scene: self.scene,
            scenes: blank.scenes,
            skins: blank.skins,
            textures,
            extensions: blank.extensions,
            extras: blank.extras,
        };
        proof {
            extracted.lemma_extraction_resolves(self, idx, flags);
        }
        Ok(extracted)
    }
}

} // verus!
