//! The types of the crate under one path.

pub use crate::buffers::{
    BufferViewTarget, DecodeFailure, GltfBase64Buffer, GltfBinaryBuffer, GltfBinaryBuffers,
    GltfBufferView, GltfBuffers,
};
pub use crate::gltf_object::closure::{Closure, Selection};
pub use crate::gltf_object::extract_flags::GltrExtractFlags;
pub use crate::gltf_object::extras::{Extensions, Extras};
pub use crate::gltf_object::gltf_accessor::{
    GltfAccessor, GltfAccessorSparse, GltfAccessorSparseIndices, GltfAccessorSparseValues,
};
pub use crate::gltf_object::gltf_animation::{
    GltfAnimation, GltfAnimationChannel, GltfAnimationChannelTarget, GltfAnimationSampler,
};
pub use crate::gltf_object::gltf_asset::GltfAsset;
pub use crate::gltf_object::gltf_camera::{
    GltfCamera, GltfCameraOrthographic, GltfCameraPerspective,
};
pub use crate::gltf_object::gltf_image::GltfImage;
pub use crate::gltf_object::gltf_material::{
    GltfEmissiveTexture, GltfMaterial, GltfMetallicRoughness, GltfNormalTexture,
    GltfOcclusionTexture, GltfTextureInfo,
};
pub use crate::gltf_object::gltf_mesh::{GltfMesh, GltfMeshPrimitive};
pub use crate::gltf_object::gltf_node::GltfNode;
pub use crate::gltf_object::gltf_sampler::GltfSampler;
pub use crate::gltf_object::gltf_scene::GltfScene;
pub use crate::gltf_object::gltf_texture::GltfTexture;
pub use crate::gltf_object::record::Record;
pub use crate::gltf_object::{GltfObject, GltfSkin, GltrError, GltrResult};
pub use crate::ops::VecExt;
