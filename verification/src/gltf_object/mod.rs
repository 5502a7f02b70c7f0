//! The scene: its collections of records, and the extraction of one node
//! with everything that it depends on.

pub mod closure;
pub mod extract;
pub mod extract_flags;
pub mod extras;
pub mod gltf_accessor;
pub mod gltf_animation;
pub mod gltf_asset;
pub mod gltf_camera;
pub mod gltf_image;
pub mod gltf_material;
pub mod gltf_mesh;
pub mod gltf_node;
pub mod gltf_sampler;
pub mod gltf_scene;
pub mod gltf_texture;
pub mod laws;
pub mod packing;
pub mod record;
pub mod walk;

use crate::buffers::{GltfBinaryBuffers, GltfBufferView};
use crate::gltf_object::extras::{Extensions, Extras};
use crate::gltf_object::gltf_accessor::GltfAccessor;
use crate::gltf_object::gltf_animation::GltfAnimation;
use crate::gltf_object::gltf_asset::GltfAsset;
use crate::gltf_object::gltf_camera::GltfCamera;
use crate::gltf_object::gltf_image::GltfImage;
use crate::gltf_object::gltf_material::GltfMaterial;
use crate::gltf_object::gltf_mesh::GltfMesh;
use crate::gltf_object::gltf_node::GltfNode;
use crate::gltf_object::gltf_sampler::GltfSampler;
use crate::gltf_object::gltf_scene::GltfScene;
use crate::gltf_object::gltf_texture::GltfTexture;
use vstd::prelude::*;

verus! {

/// What made the scenes that this library builds.
pub const GENERATOR: &'static str = "Gltr Library v0.0.1";

/// The version of the schema that those scenes follow.
pub const VERSION: &'static str = "2.0";

/// Why a document was refused or an extraction abandoned.
#[derive(Debug)]
pub enum GltrError {
    /// The document is not valid JSON for a scene: line, column, message.
    InvalidJson(usize, usize, String),
    /// The scene breaks a rule of the schema.
    ConstraintViolation(String),
    /// A reference points past the end of the named collection.
    InvalidIndex(&'static str, usize),
}

pub type GltrResult<T> = Result<T, GltrError>;

#[derive(Debug)]
pub struct GltfSkin {
    pub inverse_bind_matrices: Option<usize>,
    pub skeleton: Option<usize>,
    pub joins: Vec<usize>,
    pub name: Option<String>,
    pub extensions: Extensions,
    pub extras: Extras,
}

impl Clone for GltfSkin {
    fn clone(&self) -> (res: Self)
        ensures
            res.inverse_bind_matrices == self.inverse_bind_matrices,
            res.skeleton == self.skeleton,
            res.joins@ == self.joins@,
            res.name == self.name,
            res.extensions == self.extensions,
            res.extras == self.extras,
    {
        GltfSkin {
            inverse_bind_matrices: self.inverse_bind_matrices,
            skeleton: self.skeleton,
            joins: self.joins.clone(),
            name: self.name.clone(),
            extensions: self.extensions.clone(),
            extras: self.extras.clone(),
        }
    }
}

/// A scene graph: records in collections, which refer to one another by
/// index, and the buffers that hold their binary data.
#[derive(Debug)]
pub struct GltfObject {
    /// Names of the extensions that the scene uses.
    pub extensions_used: Vec<String>,
    /// Names of the extensions that are needed to load the scene.
    pub extensions_required: Vec<String>,
    pub accessors: Vec<GltfAccessor>,
    pub animations: Vec<GltfAnimation>,
    pub asset: GltfAsset,
    pub buffers: GltfBinaryBuffers,
    pub buffer_views: Vec<GltfBufferView>,
    pub cameras: Vec<GltfCamera>,
    pub images: Vec<GltfImage>,
    pub materials: Vec<GltfMaterial>,
    pub meshes: Vec<GltfMesh>,
    pub nodes: Vec<GltfNode>,
    pub samplers: Vec<GltfSampler>,
    /// The index of the scene to show.
    pub scene: usize,
    pub scenes: Vec<GltfScene>,
    pub skins: Vec<GltfSkin>,
    pub textures: Vec<GltfTexture>,
    pub extensions: Extensions,
    pub extras: Extras,
}

impl GltfObject {
    /// Whether the scene holds nothing but what is said of every scene that
    /// this library builds: who made it, and for which version.
    pub open spec fn is_blank(&self) -> bool {
        &&& self.extensions_used@.len() == 0
        &&& self.extensions_required@.len() == 0
        &&& self.accessors@.len() == 0
        &&& self.animations@.len() == 0
        &&& self.asset.generator@ == GENERATOR@
        &&& self.asset.version@ == VERSION@
        &&& self.buffers.0@.len() == 0
        &&& self.buffer_views@.len() == 0
        &&& self.cameras@.len() == 0
        &&& self.images@.len() == 0
        &&& self.materials@.len() == 0
        &&& self.meshes@.len() == 0
        &&& self.nodes@.len() == 0
        &&& self.samplers@.len() == 0
        &&& self.scene == 0
        &&& self.scenes@.len() == 0
        &&& self.skins@.len() == 0
        &&& self.textures@.len() == 0
        &&& self.extensions is None
        &&& self.extras is None
    }

    /// An empty scene.
    pub fn new() -> (res: Self)
        ensures
            res.is_blank(),
    {
        GltfObject {
            extensions_used: Vec::new(),
            asset: GltfAsset { generator: GENERATOR.to_string(), version: VERSION.to_string() },
            scene: 0,
            scenes: Vec::new(),
            nodes: Vec::new(),
            meshes: Vec::new(),
            textures: Vec::new(),
            extensions: None,
            images: Vec::new(),
            accessors: Vec::new(),
            materials: Vec::new(),
            buffer_views: Vec::new(),
            samplers: Vec::new(),
            buffers: GltfBinaryBuffers(Vec::new()),
            extensions_required: Vec::new(),
            animations: Vec::new(),
            cameras: Vec::new(),
            skins: Vec::new(),
            extras: None,
        }
    }
}

} // verus!
