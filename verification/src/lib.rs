//! Extraction of a single node of a glTF scene, with everything it depends on,
//! into a scene of its own; and bounds-checked access to binary buffers.

pub mod buffers;
pub mod defaults;
pub mod gltf_object;
pub mod ops;
pub mod prelude;
