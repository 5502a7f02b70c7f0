//! Keyframe animations.

use crate::gltf_object::extras::{Extensions, Extras};
use vstd::prelude::*;

verus! {

#[derive(Debug)]
pub struct GltfAnimation {
    pub channels: Vec<GltfAnimationChannel>,
    pub sampler: Vec<GltfAnimationSampler>,
    pub name: Option<String>,
    pub extensions: Extensions,
    pub extras: Extras,
}

#[derive(Debug)]
pub struct GltfAnimationChannel {
    pub sampler: usize,
    pub target: GltfAnimationChannelTarget,
    pub extensions: Extensions,
    pub extras: Extras,
}

#[derive(Debug)]
pub struct GltfAnimationChannelTarget {
    pub node: Option<usize>,
    pub path: String,
    pub extensions: Extensions,
    pub extras: Extras,
}

#[derive(Debug)]
pub struct GltfAnimationSampler {
    pub input: usize,
    pub interpolation: String,
    pub output: usize,
}

impl Clone for GltfAnimationChannelTarget {
    fn clone(&self) -> (res: Self)
        ensures
            res == *self,
    {
        GltfAnimationChannelTarget {
            node: self.node,
            path: self.path.clone(),
            extensions: self.extensions.clone(),
            extras: self.extras.clone(),
        }
    }
}

impl Clone for GltfAnimationChannel {
    fn clone(&self) -> (res: Self)
        ensures
            res == *self,
    {
        GltfAnimationChannel {
            sampler: self.sampler,
            target: self.target.clone(),
            extensions: self.extensions.clone(),
            extras: self.extras.clone(),
        }
    }
}

impl Clone for GltfAnimationSampler {
    fn clone(&self) -> (res: Self)
        ensures
            res == *self,
    {
        GltfAnimationSampler {
            input: self.input,
            interpolation: self.interpolation.clone(),
            output: self.output,
        }
    }
}

impl Clone for GltfAnimation {
    fn clone(&self) -> (res: Self)
        ensures
            res.channels@ == self.channels@,
            res.sampler@ == self.sampler@,
            res.name == self.name,
            res.extensions == self.extensions,
            res.extras == self.extras,
    {
        GltfAnimation {
            channels: self.channels.clone(),
            sampler: self.sampler.clone(),
            name: self.name.clone(),
            extensions: self.extensions.clone(),
            extras: self.extras.clone(),
        }
    }
}

} // verus!
