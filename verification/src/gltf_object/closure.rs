//! Which records an extraction takes: the closure of a mesh under the
//! references that are followed, and the first reference that points nowhere.

use crate::gltf_object::record::{count_up, counted, link_known};
use crate::gltf_object::walk::{
    bounded, collect, first_dangling, first_links, follow, lemma_collect_distinct,
    lemma_collect_keeps_items, lemma_walk, second_links, Dangling,
};
use crate::gltf_object::{GltfObject, GltrError};
use vstd::prelude::*;

verus! {

pub const NODE: &'static str = "Node";

pub const MESH: &'static str = "Mesh";

pub const ACCESSOR: &'static str = "Accessor";

pub const MATERIAL: &'static str = "Material";

pub const TEXTURE: &'static str = "Texture";

pub const IMAGE: &'static str = "Image";

pub const SAMPLER: &'static str = "Sampler";

pub const BUFFER_VIEW: &'static str = "buffer_view";

pub const BUFFER: &'static str = "buffer";

/// For each collection of a scene, the indices of the records that an
/// extraction takes, in the order in which the new scene holds their copies.
pub struct Closure {
    pub meshes: Seq<usize>,
    pub accessors: Seq<usize>,
    pub materials: Seq<usize>,
    pub textures: Seq<usize>,
    pub images: Seq<usize>,
    pub samplers: Seq<usize>,
    pub buffer_views: Seq<usize>,
    pub buffers: Seq<usize>,
}

/// A closure, as the extraction holds it.
pub struct Selection {
    pub meshes: Vec<usize>,
    pub accessors: Vec<usize>,
    pub materials: Vec<usize>,
    pub textures: Vec<usize>,
    pub images: Vec<usize>,
    pub samplers: Vec<usize>,
    pub buffer_views: Vec<usize>,
    pub buffers: Vec<usize>,
}

impl View for Selection {
    type V = Closure;

    open spec fn view(&self) -> Closure {
        Closure {
            meshes: self.meshes@,
            accessors: self.accessors@,
            materials: self.materials@,
            textures: self.textures@,
            images: self.images@,
            samplers: self.samplers@,
            buffer_views: self.buffer_views@,
            buffers: self.buffers@,
        }
    }
}

impl Closure {
    /// The closure that takes nothing.
    pub open spec fn nothing() -> Closure {
        Closure {
            meshes: Seq::empty(),
            accessors: Seq::empty(),
            materials: Seq::empty(),
            textures: Seq::empty(),
            images: Seq::empty(),
            samplers: Seq::empty(),
            buffer_views: Seq::empty(),
            buffers: Seq::empty(),
        }
    }

    /// Whether every index names a record of `scene`.
    pub open spec fn within(&self, scene: &GltfObject) -> bool {
        &&& bounded(self.meshes, scene.meshes@.len())
        &&& bounded(self.accessors, scene.accessors@.len())
        &&& bounded(self.materials, scene.materials@.len())
        &&& bounded(self.textures, scene.textures@.len())
        &&& bounded(self.images, scene.images@.len())
        &&& bounded(self.samplers, scene.samplers@.len())
        &&& bounded(self.buffer_views, scene.buffer_views@.len())
        &&& bounded(self.buffers, scene.buffers.0@.len())
    }

    /// Whether no collection takes a record twice.
    pub open spec fn distinct(&self) -> bool {
        &&& self.meshes.no_duplicates()
        &&& self.accessors.no_duplicates()
        &&& self.materials.no_duplicates()
        &&& self.textures.no_duplicates()
        &&& self.images.no_duplicates()
        &&& self.samplers.no_duplicates()
        &&& self.buffer_views.no_duplicates()
        &&& self.buffers.no_duplicates()
    }
}

/// The collection and the index of a link that dangles.
pub open spec fn named(
    dangling: Option<Dangling>,
    first_name: &'static str,
    second_name: &'static str,
) -> Option<(&'static str, usize)> {
    match dangling {
        Some(Dangling::First(index)) => Some((first_name, index)),
        Some(Dangling::Second(index)) => Some((second_name, index)),
        None => None,
    }
}

impl GltfObject {
    /// The accessors that the primitives of mesh `m` name, in order.
    pub open spec fn primitive_accessors(&self, m: usize) -> Seq<Option<usize>> {
        let primitives = self.meshes@[m as int].primitives@;
        first_links(primitives, count_up(primitives.len()))
    }

    /// The materials that the primitives of mesh `m` name, in order.
    pub open spec fn primitive_materials(&self, m: usize) -> Seq<Option<usize>> {
        let primitives = self.meshes@[m as int].primitives@;
        second_links(primitives, count_up(primitives.len()))
    }

    /// What an extraction of a node with mesh `m` takes. The primitives of
    /// the mesh lead to accessors and materials, the materials to textures,
    /// the textures to images and samplers, the accessors and then the
    /// images to buffer views, and the buffer views to buffers.
    pub open spec fn closure_of_mesh(&self, m: usize) -> Closure {
        let accessors = collect(Seq::empty(), self.primitive_accessors(m));
        let materials = collect(Seq::empty(), self.primitive_materials(m));
        let textures = collect(Seq::empty(), first_links(self.materials@, materials));
        let images = collect(Seq::empty(), first_links(self.textures@, textures));
        let samplers = collect(Seq::empty(), second_links(self.textures@, textures));
        let buffer_views = collect(
            collect(Seq::empty(), first_links(self.accessors@, accessors)),
            first_links(self.images@, images),
        );
        let buffers = collect(Seq::empty(), first_links(self.buffer_views@, buffer_views));
        Closure {
            meshes: seq![m],
            accessors,
            materials,
            textures,
            images,
            samplers,
            buffer_views,
            buffers,
        }
    }

    /// What an extraction of a node with the given mesh takes.
    pub open spec fn closure(&self, mesh: Option<usize>) -> Closure {
        match mesh {
            Some(m) => self.closure_of_mesh(m),
            None => Closure::nothing(),
        }
    }

    /// The first link of a primitive of mesh `m` that dangles.
    pub open spec fn dangling_in_primitives(&self, m: usize) -> Option<Dangling> {
        first_dangling(
            self.primitive_accessors(m),
            self.accessors@.len(),
            self.primitive_materials(m),
            self.materials@.len(),
        )
    }

    /// The first texture link of a taken material that dangles.
    pub open spec fn dangling_in_materials(&self, c: Closure) -> Option<Dangling> {
        first_dangling(
            first_links(self.materials@, c.materials),
            self.textures@.len(),
            second_links(self.materials@, c.materials),
            0,
        )
    }

    /// The first link of a taken texture that dangles.
    pub open spec fn dangling_in_textures(&self, c: Closure) -> Option<Dangling> {
        first_dangling(
            first_links(self.textures@, c.textures),
            self.images@.len(),
            second_links(self.textures@, c.textures),
            self.samplers@.len(),
        )
    }

    /// The first buffer view link of a taken accessor that dangles.
    pub open spec fn dangling_in_accessors(&self, c: Closure) -> Option<Dangling> {
        first_dangling(
            first_links(self.accessors@, c.accessors),
            self.buffer_views@.len(),
            second_links(self.accessors@, c.accessors),
            0,
        )
    }

    /// The first buffer view link of a taken image that dangles.
    pub open spec fn dangling_in_images(&self, c: Closure) -> Option<Dangling> {
        first_dangling(
            first_links(self.images@, c.images),
            self.buffer_views@.len(),
            second_links(self.images@, c.images),
            0,
        )
    }

    /// The first buffer link of a taken buffer view that dangles.
    pub open spec fn dangling_in_views(&self, c: Closure) -> Option<Dangling> {
        first_dangling(
            first_links(self.buffer_views@, c.buffer_views),
            self.buffers.0@.len(),
            second_links(self.buffer_views@, c.buffer_views),
            0,
        )
    }

    /// The first reference that dangles on the way from mesh `m`, with the
    /// name of the collection that it points into. The way leads through
    /// the primitives, then the materials, the textures, the accessors, the
    /// images and the buffer views that are taken, each in the order of the
    /// closure.
    pub open spec fn dangling_from_mesh(&self, m: usize) -> Option<(&'static str, usize)> {
        let c = self.closure_of_mesh(m);
        if self.dangling_in_primitives(m) is Some {
            named(self.dangling_in_primitives(m), ACCESSOR, MATERIAL)
        } else if self.dangling_in_materials(c) is Some {
            named(self.dangling_in_materials(c), TEXTURE, TEXTURE)
        } else if self.dangling_in_textures(c) is Some {
            named(self.dangling_in_textures(c), IMAGE, SAMPLER)
        } else if self.dangling_in_accessors(c) is Some {
            named(self.dangling_in_accessors(c), BUFFER_VIEW, BUFFER_VIEW)
        } else if self.dangling_in_images(c) is Some {
            named(self.dangling_in_images(c), BUFFER_VIEW, BUFFER_VIEW)
        } else {
            named(self.dangling_in_views(c), BUFFER, BUFFER)
        }
    }

    /// The first reference that dangles on the way from an optional mesh.
    pub open spec fn dangling_from(&self, mesh: Option<usize>) -> Option<(&'static str, usize)> {
        match mesh {
            None => None,
            Some(m) => if m >= self.meshes@.len() {
                Some((MESH, m))
            } else {
                self.dangling_from_mesh(m)
            },
        }
    }

    /// The first reference that dangles on the way from node `idx`, the
    /// reference to the node itself included.
    pub open spec fn dangling(&self, idx: usize) -> Option<(&'static str, usize)> {
        if idx >= self.nodes@.len() {
            Some((NODE, idx))
        } else {
            self.dangling_from(self.nodes@[idx as int].mesh)
        }
    }
}

/// Turns a link that dangles into the error that names it.
fn refuse(dangling: Option<Dangling>, first_name: &'static str, second_name: &'static str) -> (res:
    Result<(), GltrError>)
    ensures
        match res {
            Ok(_) => dangling is None,
            Err(error) => named(dangling, first_name, second_name) matches Some(d) && error
                == GltrError::InvalidIndex(d.0, d.1),
        },
{
    match dangling {
        Some(Dangling::First(index)) => Err(GltrError::InvalidIndex(first_name, index)),
        Some(Dangling::Second(index)) => Err(GltrError::InvalidIndex(second_name, index)),
        None => Ok(()),
    }
}

impl Closure {
    /// Whether the closure holds what the links of its own records name.
    pub open spec fn closed(&self, scene: &GltfObject) -> bool {
        &&& forall|m: int, k: int|
            #![trigger scene.meshes@[self.meshes[m] as int].primitives@[k]]
            0 <= m < self.meshes.len() && 0 <= k < scene.meshes@[self.meshes[m] as int].primitives@.len()
                ==> {
                let primitive = scene.meshes@[self.meshes[m] as int].primitives@[k];
                &&& link_known(self.accessors, primitive.accessor)
                &&& link_known(self.materials, primitive.material)
            }
        &&& forall|k: int|
            0 <= k < self.materials.len() ==> link_known(
                self.textures,
                (#[trigger] scene.materials@[self.materials[k] as int]).texture_index(),
            )
        &&& forall|k: int|
            #![trigger scene.textures@[self.textures[k] as int]]
            0 <= k < self.textures.len() ==> {
                let texture = scene.textures@[self.textures[k] as int];
                &&& link_known(self.images, texture.source_image_index)
                &&& link_known(self.samplers, texture.sample_index)
            }
        &&& forall|k: int|
            0 <= k < self.accessors.len() ==> link_known(
                self.buffer_views,
                (#[trigger] scene.accessors@[self.accessors[k] as int]).buffer_view,
            )
        &&& forall|k: int|
            0 <= k < self.images.len() ==> link_known(
                self.buffer_views,
                (#[trigger] scene.images@[self.images[k] as int]).buffer_view,
            )
        &&& forall|k: int|
            0 <= k < self.buffer_views.len() ==> self.buffers.contains(
                (#[trigger] scene.buffer_views@[self.buffer_views[k] as int]).buffer,
            )
    }
}

impl GltfObject {
    /// Where no reference dangles on the way from a mesh, the closure names
    /// records of the scene only, none of them twice, and holds whatever
    /// its own records refer to.
    pub proof fn lemma_closure_sound(&self, mesh: Option<usize>)
        requires
            self.dangling_from(mesh) is None,
        ensures
            self.closure(mesh).within(self),
            self.closure(mesh).distinct(),
            self.closure(mesh).closed(self),
    {
        let c = self.closure(mesh);
        match mesh {
            None => {},
            Some(m) => {
                let none = Seq::<usize>::empty();
                let primitives = self.meshes@[m as int].primitives@;
                lemma_walk(
                    none,
                    self.primitive_accessors(m),
                    self.accessors@.len(),
                    none,
                    self.primitive_materials(m),
                    self.materials@.len(),
                );
                lemma_walk(
                    none,
                    first_links(self.materials@, c.materials),
                    self.textures@.len(),
                    none,
                    second_links(self.materials@, c.materials),
                    0,
                );
                lemma_walk(
                    none,
                    first_links(self.textures@, c.textures),
                    self.images@.len(),
                    none,
                    second_links(self.textures@, c.textures),
                    self.samplers@.len(),
                );
                let from_accessors = collect(none, first_links(self.accessors@, c.accessors));
                lemma_walk(
                    none,
                    first_links(self.accessors@, c.accessors),
                    self.buffer_views@.len(),
                    none,
                    second_links(self.accessors@, c.accessors),
                    0,
                );
                lemma_walk(
                    from_accessors,
                    first_links(self.images@, c.images),
                    self.buffer_views@.len(),
                    none,
                    second_links(self.images@, c.images),
                    0,
                );
                lemma_walk(
                    none,
                    first_links(self.buffer_views@, c.buffer_views),
                    self.buffers.0@.len(),
                    none,
                    second_links(self.buffer_views@, c.buffer_views),
                    0,
                );
                lemma_collect_distinct(none, self.primitive_accessors(m));
                lemma_collect_distinct(none, self.primitive_materials(m));
                lemma_collect_distinct(none, first_links(self.materials@, c.materials));
                lemma_collect_distinct(none, first_links(self.textures@, c.textures));
                lemma_collect_distinct(none, second_links(self.textures@, c.textures));
                lemma_collect_distinct(none, first_links(self.accessors@, c.accessors));
                lemma_collect_distinct(from_accessors, first_links(self.images@, c.images));
                lemma_collect_distinct(none, first_links(self.buffer_views@, c.buffer_views));
                assert forall|i: int, k: int|
                    #![trigger self.meshes@[c.meshes[i] as int].primitives@[k]]
                    0 <= i < c.meshes.len() && 0 <= k < self.meshes@[c.meshes[i] as int].primitives@.len()
                    implies link_known(
                    c.accessors,
                    self.meshes@[c.meshes[i] as int].primitives@[k].accessor,
                ) && link_known(
                    c.materials,
                    self.meshes@[c.meshes[i] as int].primitives@[k].material,
                ) by {
                    assert(primitives.len() == self.meshes@[m as int].primitives.len());
                    assert(count_up(primitives.len())[k] == k);
                    assert(self.primitive_accessors(m)[k] == primitives[k].accessor);
                    assert(self.primitive_materials(m)[k] == primitives[k].material);
                }
                assert forall|k: int| 0 <= k < c.materials.len() implies link_known(
                    c.textures,
                    (#[trigger] self.materials@[c.materials[k] as int]).texture_index(),
                ) by {
                    assert(first_links(self.materials@, c.materials)[k]
                        == self.materials@[c.materials[k] as int].texture_index());
                }
                assert forall|k: int|
                    #![trigger self.textures@[c.textures[k] as int]]
                    0 <= k < c.textures.len() implies link_known(
                    c.images,
                    self.textures@[c.textures[k] as int].source_image_index,
                ) && link_known(c.samplers, self.textures@[c.textures[k] as int].sample_index) by {
                    assert(first_links(self.textures@, c.textures)[k]
                        == self.textures@[c.textures[k] as int].source_image_index);
                    assert(second_links(self.textures@, c.textures)[k]
                        == self.textures@[c.textures[k] as int].sample_index);
                }
                assert forall|k: int| 0 <= k < c.accessors.len() implies link_known(
                    c.buffer_views,
                    (#[trigger] self.accessors@[c.accessors[k] as int]).buffer_view,
                ) by {
                    let link = self.accessors@[c.accessors[k] as int].buffer_view;
                    assert(first_links(self.accessors@, c.accessors)[k] == link);
                    if link is Some {
                        lemma_collect_keeps_items(
                            from_accessors,
                            first_links(self.images@, c.images),
                            link.unwrap(),
                        );
                    }
                }
                assert forall|k: int| 0 <= k < c.images.len() implies link_known(
                    c.buffer_views,
                    (#[trigger] self.images@[c.images[k] as int]).buffer_view,
                ) by {
                    assert(first_links(self.images@, c.images)[k]
                        == self.images@[c.images[k] as int].buffer_view);
                }
                assert forall|k: int| 0 <= k < c.buffer_views.len() implies c.buffers.contains(
                    (#[trigger] self.buffer_views@[c.buffer_views[k] as int]).buffer,
                ) by {
                    assert(first_links(self.buffer_views@, c.buffer_views)[k] == Some(
                        self.buffer_views@[c.buffer_views[k] as int].buffer,
                    ));
                }
                assert(c.meshes.no_duplicates());
                assert(bounded(c.meshes, self.meshes@.len()));
            },
        }
    }

    /// Finds what an extraction of a node with the given mesh takes, or the
    /// first reference that dangles on the way.
    pub fn select(&self, mesh: Option<usize>) -> (res: Result<Selection, GltrError>)
        ensures
            match res {
                Ok(selection) => self.dangling_from(mesh) is None && selection@ == self.closure(
                    mesh,
                ),
                Err(error) => self.dangling_from(mesh) matches Some(d) && error
                    == GltrError::InvalidIndex(d.0, d.1),
            },
    {
        let mut meshes: Vec<usize> = Vec::new();
        let mut accessors: Vec<usize> = Vec::new();
        let mut materials: Vec<usize> = Vec::new();
        let mut textures: Vec<usize> = Vec::new();
        let mut images: Vec<usize> = Vec::new();
        let mut samplers: Vec<usize> = Vec::new();
        let mut buffer_views: Vec<usize> = Vec::new();
        let mut buffers: Vec<usize> = Vec::new();
        let mut unused: Vec<usize> = Vec::new();
        let ghost none = Seq::<usize>::empty();
        let m = match mesh {
            Some(m) => m,
            None => {
                return Ok(
                    Selection {
                        meshes,
                        accessors,
                        materials,
                        textures,
                        images,
                        samplers,
                        buffer_views,
                        buffers,
                    },
                );
            },
        };
        if m >= self.meshes.len() {
            return Err(GltrError::InvalidIndex(MESH, m));
        }
        meshes.push(m);
        assert(meshes@ =~= seq![m]);
        let ghost c = self.closure_of_mesh(m);
        let primitives = &self.meshes[m].primitives;
        let all = counted(primitives.len());
        match refuse(
            follow(
                primitives,
                &all,
                &mut accessors,
                self.accessors.len(),
                &mut materials,
                self.materials.len(),
            ),
            ACCESSOR,
            MATERIAL,
        ) {
            Err(error) => {
                return Err(error);
            },
            Ok(_) => {},
        }
        proof {
            lemma_walk(
                none,
                self.primitive_accessors(m),
                self.accessors@.len(),
                none,
                self.primitive_materials(m),
                self.materials@.len(),
            );
        }
        match refuse(
            follow(&self.materials, &materials, &mut textures, self.textures.len(), &mut unused, 0),
            TEXTURE,
            TEXTURE,
        ) {
            Err(error) => {
                return Err(error);
            },
            Ok(_) => {},
        }
        proof {
            lemma_walk(
                none,
                first_links(self.materials@, c.materials),
                self.textures@.len(),
                none,
                second_links(self.materials@, c.materials),
                0,
            );
        }
        match refuse(
            follow(
                &self.textures,
                &textures,
                &mut images,
                self.images.len(),
                &mut samplers,
                self.samplers.len(),
            ),
            IMAGE,
            SAMPLER,
        ) {
            Err(error) => {
                return Err(error);
            },
            Ok(_) => {},
        }
        proof {
            lemma_walk(
                none,
                first_links(self.textures@, c.textures),
                self.images@.len(),
                none,
                second_links(self.textures@, c.textures),
                self.samplers@.len(),
            );
        }
        let mut unused: Vec<usize> = Vec::new();
        match refuse(
            follow(
                &self.accessors,
                &accessors,
                &mut buffer_views,
                self.buffer_views.len(),
                &mut unused,
                0,
            ),
            BUFFER_VIEW,
            BUFFER_VIEW,
        ) {
            Err(error) => {
                return Err(error);
            },
            Ok(_) => {},
        }
        proof {
            lemma_walk(
                none,
                first_links(self.accessors@, c.accessors),
                self.buffer_views@.len(),
                none,
                second_links(self.accessors@, c.accessors),
                0,
            );
        }
        let mut unused: Vec<usize> = Vec::new();
        match refuse(
            follow(
                &self.images,
                &images,
                &mut buffer_views,
                self.buffer_views.len(),
                &mut unused,
                0,
            ),
            BUFFER_VIEW,
            BUFFER_VIEW,
        ) {
            Err(error) => {
                return Err(error);
            },
            Ok(_) => {},
        }
        proof {
            lemma_walk(
                collect(none, first_links(self.accessors@, c.accessors)),
                first_links(self.images@, c.images),
                self.buffer_views@.len(),
                none,
                second_links(self.images@, c.images),
                0,
            );
        }
        let mut unused: Vec<usize> = Vec::new();
        match refuse(
            follow(
                &self.buffer_views,
                &buffer_views,
                &mut buffers,
                self.buffers.0.len(),
                &mut unused,
                0,
            ),
            BUFFER,
            BUFFER,
        ) {
            Err(error) => {
                return Err(error);
            },
            Ok(_) => {},
        }
        Ok(
            Selection {
                meshes,
                accessors,
                materials,
                textures,
                images,
                samplers,
                buffer_views,
                buffers,
            },
        )
    }
}

} // verus!
