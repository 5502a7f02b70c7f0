//! Cameras: projections of a scene.

use crate::gltf_object::extras::{Extensions, Extras};
use vstd::prelude::*;

verus! {

#[derive(Debug)]
pub struct GltfCamera {
    pub orthographic: Option<GltfCameraOrthographic>,
    pub perspective: Option<GltfCameraPerspective>,
    pub camera_type: String,
    pub name: Option<String>,
    pub extensions: Extensions,
    pub extras: Extras,
}

#[derive(Debug)]
pub struct GltfCameraOrthographic {
    pub x_magnitude: usize,
    pub y_magnitude: usize,
    pub z_far: usize,
    pub z_near: usize,
    pub extensions: Extensions,
    pub extras: Extras,
}

#[derive(Debug)]
pub struct GltfCameraPerspective {
    pub aspect_ratio: Option<usize>,
    pub y_fov: usize,
    pub z_far: Option<usize>,
    pub z_near: usize,
    pub extensions: Extensions,
    pub extras: Extras,
}

impl Clone for GltfCameraOrthographic {
    fn clone(&self) -> (res: Self)
        ensures
            res == *self,
    {
        GltfCameraOrthographic {
            x_magnitude: self.x_magnitude,
            y_magnitude: self.y_magnitude,
            z_far: self.z_far,
            z_near: self.z_near,
            extensions: self.extensions.clone(),
            extras: self.extras.clone(),
        }
    }
}

impl Clone for GltfCameraPerspective {
    fn clone(&self) -> (res: Self)
        ensures
            res == *self,
    {
        GltfCameraPerspective {
            aspect_ratio: self.aspect_ratio,
            y_fov: self.y_fov,
            z_far: self.z_far,
            z_near: self.z_near,
            extensions: self.extensions.clone(),
            extras: self.extras.clone(),
        }
    }
}

impl Clone for GltfCamera {
    fn clone(&self) -> (res: Self)
        ensures
            res == *self,
    {
        GltfCamera {
            orthographic: self.orthographic.clone(),
            perspective: self.perspective.clone(),
            camera_type: self.camera_type.clone(),
            name: self.name.clone(),
            extensions: self.extensions.clone(),
            extras: self.extras.clone(),
        }
    }
}

} // verus!
