//! Metadata of a document.

use vstd::prelude::*;

verus! {

/// What made a document, and the version of the schema that it follows.
#[derive(Debug)]
pub struct GltfAsset {
    pub generator: String,
    pub version: String,
}

impl Clone for GltfAsset {
    fn clone(&self) -> (res: Self)
        ensures
            res == *self,
    {
        GltfAsset { generator: self.generator.clone(), version: self.version.clone() }
    }
}

} // verus!
