//! Materials: how a primitive looks.

use crate::gltf_object::extras::{Extensions, Extras};
use crate::gltf_object::record::{relinked, Record};
use vstd::prelude::*;

verus! {

/// A material. Floating-point numbers are held as the bits of their IEEE 754
/// single-precision form.
#[derive(Debug)]
pub struct GltfMaterial {
    pub name: String,
    pub pbr_metallic_roughness: Option<GltfMetallicRoughness>,
    pub normal_texture: Option<GltfNormalTexture>,
    pub occlusion_texture: Option<GltfOcclusionTexture>,
    pub emissive_texture: Option<GltfEmissiveTexture>,
    pub emissive_factor: Option<[usize; 3]>,
    pub alpha_mode: String,
    pub alpha_cutoff: u32,
    pub extensions: Extensions,
    pub extras: Extras,
    pub original_index: Option<usize>,
}

#[derive(Clone, Copy, Debug)]
pub struct GltfNormalTexture {}

#[derive(Clone, Copy, Debug)]
pub struct GltfOcclusionTexture {}

#[derive(Clone, Copy, Debug)]
pub struct GltfEmissiveTexture {}

#[derive(Debug)]
pub struct GltfMetallicRoughness {
    pub base_color_factor: [u32; 4],
    pub base_color_texture: Option<GltfTextureInfo>,
    pub metallic_factor: Option<u32>,
    pub roughness_factor: Option<u32>,
    pub metallic_roughness_texture: Option<GltfTextureInfo>,
    pub extensions: Extensions,
    pub extras: Extras,
}

/// A reference to a texture, and the set of texture coordinates to use.
#[derive(Debug)]
pub struct GltfTextureInfo {
    pub texture_index: usize,
    pub tex_coord: usize,
    pub extensions: Extensions,
    pub extras: Extras,
}

impl GltfTextureInfo {
    /// The same reference, to another texture.
    pub fn with_index(&self, texture_index: usize) -> (res: GltfTextureInfo)
        ensures
            res == (GltfTextureInfo { texture_index, ..*self }),
    {
        GltfTextureInfo {
            texture_index,
            tex_coord: self.tex_coord,
            extensions: self.extensions.clone(),
            extras: self.extras.clone(),
        }
    }
}

impl Clone for GltfTextureInfo {
    fn clone(&self) -> (res: Self)
        ensures
            res == *self,
    {
        self.with_index(self.texture_index)
    }
}

impl GltfMetallicRoughness {
    /// The texture of the base color, where there is one.
    pub open spec fn texture_index(&self) -> Option<usize> {
        match self.base_color_texture {
            Some(info) => Some(info.texture_index),
            None => None,
        }
    }

    /// Whether `self` holds what `source` holds, but for which texture the
    /// base color names.
    pub open spec fn same_payload(&self, source: &Self) -> bool {
        &&& self.base_color_factor == source.base_color_factor
        &&& match (self.base_color_texture, source.base_color_texture) {
            (Some(mine), Some(other)) => mine == (GltfTextureInfo {
                texture_index: mine.texture_index,
                ..other
            }),
            (None, None) => true,
            _ => false,
        }
        &&& self.metallic_factor == source.metallic_factor
        &&& self.roughness_factor == source.roughness_factor
        &&& self.metallic_roughness_texture == source.metallic_roughness_texture
        &&& self.extensions == source.extensions
        &&& self.extras == source.extras
    }

    /// The same properties, with the base color taken from the texture at
    /// `texture_index`, where there is a base color texture and an index is
    /// given.
    pub fn with_texture_index(&self, texture_index: Option<usize>) -> (res: GltfMetallicRoughness)
        ensures
            res.same_payload(self),
            res.texture_index() == relinked(self.texture_index(), texture_index),
    {
        let base_color_texture = match &self.base_color_texture {
            None => None,
            Some(info) => match texture_index {
                Some(index) => Some(info.with_index(index)),
                None => Some(info.clone()),
            },
        };
        GltfMetallicRoughness {
            base_color_factor: self.base_color_factor,
            base_color_texture,
            metallic_factor: self.metallic_factor,
            roughness_factor: self.roughness_factor,
            metallic_roughness_texture: self.metallic_roughness_texture.clone(),
            extensions: self.extensions.clone(),
            extras: self.extras.clone(),
        }
    }
}

impl Clone for GltfMetallicRoughness {
    fn clone(&self) -> (res: Self)
        ensures
            res == *self,
    {
        GltfMetallicRoughness {
            base_color_factor: self.base_color_factor,
            base_color_texture: self.base_color_texture.clone(),
            metallic_factor: self.metallic_factor,
            roughness_factor: self.roughness_factor,
            metallic_roughness_texture: self.metallic_roughness_texture.clone(),
            extensions: self.extensions.clone(),
            extras: self.extras.clone(),
        }
    }
}

impl GltfMaterial {
    /// The texture of the base color, where the material has one.
    pub open spec fn texture_index(&self) -> Option<usize> {
        match self.pbr_metallic_roughness {
            Some(pbr) => pbr.texture_index(),
            None => None,
        }
    }

    pub fn get_texture_index(&self) -> (res: Option<usize>)
        ensures
            res == self.texture_index(),
    {
        match &self.pbr_metallic_roughness {
            Some(pmr) => match &pmr.base_color_texture {
                Some(texture) => Some(texture.texture_index),
                None => None,
            },
            None => None,
        }
    }
}

impl Record for GltfMaterial {
    /// The texture of the base color.
    open spec fn first_link(&self) -> Option<usize> {
        self.texture_index()
    }

    open spec fn second_link(&self) -> Option<usize> {
        None
    }

    open spec fn source_index(&self) -> Option<usize> {
        self.original_index
    }

    open spec fn same_payload(&self, source: &Self) -> bool {
        &&& self.name == source.name
        &&& match (self.pbr_metallic_roughness, source.pbr_metallic_roughness) {
            (Some(mine), Some(other)) => mine.same_payload(&other),
            (None, None) => true,
            _ => false,
        }
        &&& self.normal_texture == source.normal_texture
        &&& self.occlusion_texture == source.occlusion_texture
        &&& self.emissive_texture == source.emissive_texture
        &&& self.emissive_factor == source.emissive_factor
        &&& self.alpha_mode == source.alpha_mode
        &&& self.alpha_cutoff == source.alpha_cutoff
        &&& self.extensions == source.extensions
        &&& self.extras == source.extras
    }

    fn links(&self) -> (res: (Option<usize>, Option<usize>)) {
        (self.get_texture_index(), None)
    }

    fn extract(&self, source_index: usize, first: Option<usize>, second: Option<usize>) -> (res:
        Self) {
        let pbr_metallic_roughness = match &self.pbr_metallic_roughness {
            None => None,
            Some(pbr) => Some(pbr.with_texture_index(first)),
        };
        GltfMaterial {
            name: self.name.clone(),
            pbr_metallic_roughness,
            normal_texture: self.normal_texture,
            occlusion_texture: self.occlusion_texture,
            emissive_texture: self.emissive_texture,
            emissive_factor: self.emissive_factor,
            alpha_mode: self.alpha_mode.clone(),
            alpha_cutoff: self.alpha_cutoff,
            extensions: self.extensions.clone(),
            extras: self.extras.clone(),
            original_index: Some(source_index),
        }
    }
}

impl Clone for GltfMaterial {
    fn clone(&self) -> (res: Self)
        ensures
            res == *self,
    {
        GltfMaterial {
            name: self.name.clone(),
            pbr_metallic_roughness: self.pbr_metallic_roughness.clone(),
            normal_texture: self.normal_texture,
            occlusion_texture: self.occlusion_texture,
            emissive_texture: self.emissive_texture,
            emissive_factor: self.emissive_factor,
            alpha_mode: self.alpha_mode.clone(),
            alpha_cutoff: self.alpha_cutoff,
            extensions: self.extensions.clone(),
            extras: self.extras.clone(),
            original_index: self.original_index,
        }
    }
}

} // verus!
