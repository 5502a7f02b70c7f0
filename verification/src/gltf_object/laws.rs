//! What holds of every extraction.

use crate::gltf_object::extract::resolves;
use crate::gltf_object::extract_flags::GltrExtractFlags;
use crate::gltf_object::gltf_node::coordinates;
use crate::gltf_object::packing::{lemma_packed_holds, packed, picked};
use crate::gltf_object::record::{count_up, Record};
use crate::gltf_object::walk::{
    collect, first_links, lemma_collect_contains, lemma_collect_distinct, lemma_collect_origin,
    second_links,
};
use crate::gltf_object::GltfObject;
use vstd::prelude::*;

verus! {

/// Whether no two records of `copies` are tagged with the same source index.
pub open spec fn tags_differ<R: Record>(copies: Seq<R>) -> bool {
    forall|i: int, j: int|
        0 <= i < j < copies.len() ==> (#[trigger] copies[i]).source_index() != (
        #[trigger] copies[j]).source_index()
}

/// Whether exactly one record of `copies` is tagged with source index `x`.
pub open spec fn copied_once<R: Record>(copies: Seq<R>, x: usize) -> bool {
    exists|k: int|
        0 <= k < copies.len() && (#[trigger] copies[k]).source_index() == Some(x) && forall|j: int|
            0 <= j < copies.len() && j != k ==> (#[trigger] copies[j]).source_index() != Some(x)
}

impl GltfObject {
    /// The closure of a mesh takes no record twice.
    pub proof fn lemma_closure_distinct(&self, mesh: Option<usize>)
        ensures
            self.closure(mesh).distinct(),
    {
        let c = self.closure(mesh);
        match mesh {
            None => {},
            Some(m) => {
                let none = Seq::<usize>::empty();
                lemma_collect_distinct(none, self.primitive_accessors(m));
                lemma_collect_distinct(none, self.primitive_materials(m));
                lemma_collect_distinct(none, first_links(self.materials@, c.materials));
                lemma_collect_distinct(none, first_links(self.textures@, c.textures));
                lemma_collect_distinct(none, second_links(self.textures@, c.textures));
                lemma_collect_distinct(none, first_links(self.accessors@, c.accessors));
                lemma_collect_distinct(
                    collect(none, first_links(self.accessors@, c.accessors)),
                    first_links(self.images@, c.images),
                );
                lemma_collect_distinct(none, first_links(self.buffer_views@, c.buffer_views));
                assert(c.meshes.no_duplicates());
            },
        }
    }

    /// The closure of a mesh takes nothing that is not referred to: every
    /// accessor and every material by a primitive of the mesh, every
    /// texture by a material that is taken, every image and every sampler
    /// by a texture that is taken, every buffer view by an accessor or an
    /// image that is taken, and every buffer by a buffer view that is taken.
    pub proof fn lemma_closure_reached(&self, m: usize)
        ensures
            ({
                let c = self.closure_of_mesh(m);
                &&& forall|x: usize| #[trigger]
                    c.accessors.contains(x) ==> self.primitive_accessors(m).contains(Some(x))
                &&& forall|x: usize| #[trigger]
                    c.materials.contains(x) ==> self.primitive_materials(m).contains(Some(x))
                &&& forall|x: usize| #[trigger]
                    c.textures.contains(x) ==> first_links(self.materials@, c.materials).contains(
                        Some(x),
                    )
                &&& forall|x: usize| #[trigger]
                    c.images.contains(x) ==> first_links(self.textures@, c.textures).contains(
                        Some(x),
                    )
                &&& forall|x: usize| #[trigger]
                    c.samplers.contains(x) ==> second_links(self.textures@, c.textures).contains(
                        Some(x),
                    )
                &&& forall|x: usize| #[trigger]
                    c.buffer_views.contains(x) ==> first_links(
                        self.accessors@,
                        c.accessors,
                    ).contains(Some(x)) || first_links(self.images@, c.images).contains(Some(x))
                &&& forall|x: usize| #[trigger]
                    c.buffers.contains(x) ==> first_links(
                        self.buffer_views@,
                        c.buffer_views,
                    ).contains(Some(x))
            }),
    {
        let c = self.closure_of_mesh(m);
        let none = Seq::<usize>::empty();
        assert forall|x: usize| #[trigger] c.accessors.contains(x) implies self.primitive_accessors(
            m,
        ).contains(Some(x)) by {
            lemma_collect_origin(none, self.primitive_accessors(m), x);
        }
        assert forall|x: usize| #[trigger] c.materials.contains(x) implies self.primitive_materials(
            m,
        ).contains(Some(x)) by {
            lemma_collect_origin(none, self.primitive_materials(m), x);
        }
        assert forall|x: usize| #[trigger] c.textures.contains(x) implies first_links(
            self.materials@,
            c.materials,
        ).contains(Some(x)) by {
            lemma_collect_origin(none, first_links(self.materials@, c.materials), x);
        }
        assert forall|x: usize| #[trigger] c.images.contains(x) implies first_links(
            self.textures@,
            c.textures,
        ).contains(Some(x)) by {
            lemma_collect_origin(none, first_links(self.textures@, c.textures), x);
        }
        assert forall|x: usize| #[trigger] c.samplers.contains(x) implies second_links(
            self.textures@,
            c.textures,
        ).contains(Some(x)) by {
            lemma_collect_origin(none, second_links(self.textures@, c.textures), x);
        }
        assert forall|x: usize| #[trigger] c.buffer_views.contains(x) implies first_links(
            self.accessors@,
            c.accessors,
        ).contains(Some(x)) || first_links(self.images@, c.images).contains(Some(x)) by {
            let from_accessors = collect(none, first_links(self.accessors@, c.accessors));
            lemma_collect_origin(from_accessors, first_links(self.images@, c.images), x);
            if from_accessors.contains(x) {
                lemma_collect_origin(none, first_links(self.accessors@, c.accessors), x);
            }
        }
        assert forall|x: usize| #[trigger] c.buffers.contains(x) implies first_links(
            self.buffer_views@,
            c.buffer_views,
        ).contains(Some(x)) by {
            lemma_collect_origin(none, first_links(self.buffer_views@, c.buffer_views), x);
        }
    }

    /// In an extracted scene every reference names a record of that scene.
    pub proof fn lemma_extraction_resolves(
        &self,
        source: &GltfObject,
        idx: usize,
        flags: GltrExtractFlags,
    )
        requires
            self.is_extraction_of(source, idx, flags),
        ensures
            self.references_resolve(),
    {
        let c = source.closure(source.nodes@[idx as int].mesh);
        assert forall|m: int, k: int|
            0 <= m < self.meshes@.len() && 0 <= k < self.meshes@[m].primitives@.len() implies {
            &&& resolves(
                (#[trigger] self.meshes@[m].primitives@[k]).accessor,
                self.accessors@.len(),
            )
            &&& resolves(self.meshes@[m].primitives@[k].material, self.materials@.len())
        } by {
            let mesh = self.meshes@[m];
            let from = source.meshes@[c.meshes[m] as int];
            assert(mesh.is_copy_of(&from, c.meshes[m], c.accessors, c.materials));
        }
    }

    /// An extracted scene holds no two copies of one record.
    pub proof fn lemma_extraction_deduplicates(
        &self,
        source: &GltfObject,
        idx: usize,
        flags: GltrExtractFlags,
    )
        requires
            self.is_extraction_of(source, idx, flags),
        ensures
            tags_differ(self.accessors@),
            tags_differ(self.materials@),
            tags_differ(self.textures@),
            tags_differ(self.images@),
            tags_differ(self.samplers@),
            tags_differ(self.buffer_views@),
            forall|i: int, j: int|
                0 <= i < j < self.buffers.0@.len() ==> (#[trigger] self.buffers.0@[i]).original_index
                    != (#[trigger] self.buffers.0@[j]).original_index,
    {
        source.lemma_closure_distinct(source.nodes@[idx as int].mesh);
    }

    /// Where several primitives of the mesh of the extracted node name one
    /// material, the extracted scene holds one copy of that material, and
    /// likewise for an accessor.
    pub proof fn lemma_shared_material_copied_once(
        &self,
        source: &GltfObject,
        idx: usize,
        flags: GltrExtractFlags,
        primitive: int,
    )
        requires
            self.is_extraction_of(source, idx, flags),
            source.nodes@[idx as int].mesh is Some,
            0 <= primitive < source.meshes@[source.nodes@[idx as int].mesh.unwrap() as int].primitives@.len(),
        ensures
            ({
                let mesh = source.meshes@[source.nodes@[idx as int].mesh.unwrap() as int];
                &&& mesh.primitives@[primitive].material matches Some(x) ==> copied_once(
                    self.materials@,
                    x,
                )
                &&& mesh.primitives@[primitive].accessor matches Some(x) ==> copied_once(
                    self.accessors@,
                    x,
                )
            }),
    {
        let m = source.nodes@[idx as int].mesh.unwrap();
        let c = source.closure_of_mesh(m);
        let primitives = source.meshes@[m as int].primitives@;
        let none = Seq::<usize>::empty();
        source.lemma_closure_distinct(Some(m));
        assert(primitives.len() == source.meshes@[m as int].primitives.len());
        assert(count_up(primitives.len())[primitive] == primitive);
        if primitives[primitive].material is Some {
            let x = primitives[primitive].material.unwrap();
            assert(source.primitive_materials(m)[primitive] == Some(x));
            lemma_collect_contains(none, source.primitive_materials(m), primitive);
            let k = choose|k: int| 0 <= k < c.materials.len() && c.materials[k] == x;
            assert(self.materials@[k].source_index() == Some(x));
            assert forall|j: int| 0 <= j < self.materials@.len() && j != k implies (
            #[trigger] self.materials@[j]).source_index() != Some(x) by {
                assert(c.materials[j] != c.materials[k]);
            }
        }
        if primitives[primitive].accessor is Some {
            let x = primitives[primitive].accessor.unwrap();
            assert(source.primitive_accessors(m)[primitive] == Some(x));
            lemma_collect_contains(none, source.primitive_accessors(m), primitive);
            let k = choose|k: int| 0 <= k < c.accessors.len() && c.accessors[k] == x;
            assert(self.accessors@[k].source_index() == Some(x));
            assert forall|j: int| 0 <= j < self.accessors@.len() && j != k implies (
            #[trigger] self.accessors@[j]).source_index() != Some(x) by {
                assert(c.accessors[j] != c.accessors[k]);
            }
        }
    }

    /// An extraction that centers the node leaves a node without a
    /// translation without one, and turns any translation into the origin;
    /// rotation, scale and matrix stay. An extraction that does not center
    /// keeps the translation.
    pub proof fn lemma_center_objects(
        &self,
        source: &GltfObject,
        idx: usize,
        flags: GltrExtractFlags,
    )
        requires
            self.is_extraction_of(source, idx, flags),
        ensures
            source.nodes@[idx as int].translation is None ==> self.nodes@[0].translation is None,
            flags.centers() && source.nodes@[idx as int].translation is Some ==> coordinates(
                self.nodes@[0].translation,
            ) == Some(seq![0u32, 0u32, 0u32]),
            !flags.centers() ==> coordinates(self.nodes@[0].translation) == coordinates(
                source.nodes@[idx as int].translation,
            ),
            self.nodes@[0].rotation == source.nodes@[idx as int].rotation,
            self.nodes@[0].scale == source.nodes@[idx as int].scale,
            self.nodes@[0].matrix == source.nodes@[idx as int].matrix,
    {
    }

    /// Every buffer of an extracted scene declares the length that its
    /// payload has.
    pub proof fn lemma_extracted_buffers_well_formed(
        &self,
        source: &GltfObject,
        idx: usize,
        flags: GltrExtractFlags,
    )
        requires
            self.is_extraction_of(source, idx, flags),
        ensures
            forall|b: int| 0 <= b < self.buffers.0@.len() ==> (#[trigger] self.buffers.0@[b]).wf(),
    {
    }

    /// A buffer view of an extracted scene resolves to what the view that
    /// it is a copy of resolves to in the source scene.
    pub proof fn lemma_views_resolve_alike(
        &self,
        source: &GltfObject,
        idx: usize,
        flags: GltrExtractFlags,
        k: int,
    )
        requires
            source.dangling(idx) is None,
            source.violation(idx, flags) is None,
            self.is_extraction_of(source, idx, flags),
            0 <= k < self.buffer_views@.len(),
        ensures
            ({
                let c = source.closure(source.nodes@[idx as int].mesh);
                self.buffers.resolved(&self.buffer_views@[k]) == source.buffers.resolved(
                    &source.buffer_views@[c.buffer_views[k] as int],
                )
            }),
    {
        let mesh = source.nodes@[idx as int].mesh;
        let c = source.closure(mesh);
        source.lemma_closure_sound(mesh);
        let new_view = self.buffer_views@[k];
        let view = source.buffer_views@[c.buffer_views[k] as int];
        assert(c.buffers.contains(view.buffer));
        assert(view.buffer < source.buffers.0@.len());
        if flags.recalculates() {
            let taken = picked(source.buffer_views@, c.buffer_views);
            assert(taken[k] == view);
            assert(source.view_fits(view));
            lemma_packed_holds(taken, source.buffers.0@, k);
            let new_buffer = self.buffers.0@[new_view.buffer as int];
            assert(new_buffer.bytes@ == packed(
                taken,
                source.buffers.0@,
                c.buffers[new_view.buffer as int],
            ));
        } else {
            let new_buffer = self.buffers.0@[new_view.buffer as int];
            assert(new_buffer.bytes@ == source.buffers.0@[view.buffer as int].bytes@);
        }
    }
}

} // verus!
