//! Scenes: the nodes to show together.

use vstd::prelude::*;

verus! {

#[derive(Debug)]
pub struct GltfScene {
    pub name: String,
    pub nodes: Vec<usize>,
    pub original_index: Option<usize>,
}

impl Clone for GltfScene {
    fn clone(&self) -> (res: Self)
        ensures
            res.name == self.name,
            res.nodes@ == self.nodes@,
            res.original_index == self.original_index,
    {
        GltfScene {
            name: self.name.clone(),
            nodes: self.nodes.clone(),
            original_index: self.original_index,
        }
    }
}

} // verus!
