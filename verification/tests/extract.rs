use gltr::buffers::{BufferViewTarget, GltfBinaryBuffer, GltfBinaryBuffers, GltfBufferView};
use gltr::gltf_object::extract::{ERR_BUFFER_LENGTH, ERR_VIEW_RANGE};
use gltr::prelude::{
    GltfAccessor, GltfImage, GltfMaterial, GltfMesh, GltfMeshPrimitive, GltfMetallicRoughness,
    GltfNode, GltfObject, GltfSampler, GltfTexture, GltfTextureInfo, GltrError, GltrExtractFlags,
};

fn node(mesh: Option<usize>, translation: Option<[f32; 3]>) -> GltfNode {
    GltfNode {
        mesh,
        name: Some("node".to_string()),
        camera: Some(4),
        children: Some(vec![0, 7]),
        translation: translation.map(|t| [t[0].to_bits(), t[1].to_bits(), t[2].to_bits()]),
        matrix: None,
        rotation: Some([0f32.to_bits(), 0f32.to_bits(), 0f32.to_bits(), 1f32.to_bits()]),
        scale: Some([2f32.to_bits(), 2f32.to_bits(), 2f32.to_bits()]),
        weights: None,
        extras: Some(serde_json::Value::String("kept".to_string())),
        extensions: None,
        original_index: None,
    }
}

fn primitive(accessor: Option<usize>, material: Option<usize>) -> GltfMeshPrimitive {
    GltfMeshPrimitive {
        attributes: serde_json::Value::Bool(true),
        accessor,
        material,
        mode: Some(4),
        targets: None,
        extensions: None,
        extras: Some(vec![serde_json::Value::Null]),
        original_index: None,
    }
}

fn mesh(name: &str, primitives: Vec<GltfMeshPrimitive>) -> GltfMesh {
    GltfMesh { name: name.to_string(), primitives, original_index: None }
}

fn accessor(name: &str, buffer_view: Option<usize>) -> GltfAccessor {
    GltfAccessor {
        buffer_view,
        byte_offset: Some(0),
        component_type: 5126,
        normalized: false,
        count: 3,
        element_type: "VEC3".to_string(),
        max: vec![1.5f32.to_bits()],
        min: vec![0.5f32.to_bits()],
        sparse: None,
        name: Some(name.to_string()),
        extensions: None,
        extras: None,
        original_index: None,
    }
}

fn material(name: &str, texture: Option<usize>) -> GltfMaterial {
    GltfMaterial {
        name: name.to_string(),
        pbr_metallic_roughness: Some(GltfMetallicRoughness {
            base_color_factor: [1f32.to_bits(); 4],
            base_color_texture: texture.map(|texture_index| GltfTextureInfo {
                texture_index,
                tex_coord: 1,
                extensions: None,
                extras: None,
            }),
            metallic_factor: Some(0.25f32.to_bits()),
            roughness_factor: None,
            metallic_roughness_texture: None,
            extensions: None,
            extras: None,
        }),
        normal_texture: None,
        occlusion_texture: None,
        emissive_texture: None,
        emissive_factor: None,
        alpha_mode: "OPAQUE".to_string(),
        alpha_cutoff: 0.5f32.to_bits(),
        extensions: None,
        extras: None,
        original_index: None,
    }
}

fn texture(name: &str, image: Option<usize>, sampler: Option<usize>) -> GltfTexture {
    GltfTexture {
        sample_index: sampler,
        source_image_index: image,
        name: Some(name.to_string()),
        extensions: None,
        extras: None,
        original_index: None,
    }
}

fn image(name: &str, buffer_view: Option<usize>) -> GltfImage {
    GltfImage {
        uri: None,
        mime_type: Some("image/png".to_string()),
        buffer_view,
        name: Some(name.to_string()),
        extensions: None,
        extras: None,
        original_index: None,
    }
}

fn sampler(name: &str) -> GltfSampler {
    GltfSampler {
        mag_filter: Some(9729),
        min_filter: None,
        wrap_s: None,
        wrap_t: None,
        name: Some(name.to_string()),
        extras: None,
        extensions: None,
        original_index: None,
    }
}

fn view(buffer: usize, byte_offset: usize, byte_length: usize) -> GltfBufferView {
    GltfBufferView {
        buffer,
        byte_length,
        byte_offset,
        target: Some(BufferViewTarget::array_buffer()),
        original_index: None,
    }
}

fn buffer(bytes: Vec<u8>) -> GltfBinaryBuffer {
    GltfBinaryBuffer { byte_length: bytes.len(), bytes, original_index: None }
}

/// A scene in which node 1 reaches some records twice and others not at all.
fn scene() -> GltfObject {
    let mut g = GltfObject::new();
    g.scene = 3;
    g.nodes = vec![
        node(None, None),
        node(Some(1), Some([1.0, 2.0, 3.0])),
        node(Some(0), Some([0.0, 0.0, 0.0])),
    ];
    g.meshes = vec![
        mesh("m0", vec![primitive(Some(0), Some(0))]),
        mesh(
            "m1",
            vec![
                primitive(Some(2), Some(1)),
                primitive(Some(1), Some(1)),
                primitive(Some(2), Some(2)),
                primitive(None, None),
                primitive(Some(4), None),
            ],
        ),
    ];
    g.accessors = vec![
        accessor("a0", Some(0)),
        accessor("a1", Some(2)),
        accessor("a2", Some(1)),
        accessor("a3", None),
        accessor("a4", Some(4)),
    ];
    g.materials = vec![
        material("mat0", Some(0)),
        material("mat1", Some(2)),
        material("mat2", Some(2)),
        material("mat3", None),
    ];
    g.textures = vec![
        texture("t0", Some(0), Some(0)),
        texture("t1", Some(1), None),
        texture("t2", Some(2), Some(1)),
    ];
    g.images = vec![image("i0", None), image("i1", Some(3)), image("i2", Some(1))];
    g.samplers = vec![sampler("s0"), sampler("s1")];
    g.buffer_views =
        vec![view(0, 0, 4), view(1, 2, 3), view(0, 4, 2), view(1, 0, 8), view(1, 0, 2)];
    g.buffers =
        GltfBinaryBuffers(vec![buffer((0u8..10).collect()), buffer((100u8..108).collect())]);
    g
}

fn invalid_index(result: Result<GltfObject, GltrError>) -> (&'static str, usize) {
    match result {
        Err(GltrError::InvalidIndex(name, index)) => (name, index),
        other => panic!("expected an invalid index, got {:?}", other),
    }
}

fn violation(result: Result<GltfObject, GltrError>) -> String {
    match result {
        Err(GltrError::ConstraintViolation(message)) => message,
        other => panic!("expected a constraint violation, got {:?}", other),
    }
}

fn tags<T>(records: &[T], tag: fn(&T) -> Option<usize>) -> Vec<Option<usize>> {
    records.iter().map(tag).collect()
}

#[test]
fn extract_single_object() {
    let object = scene();
    let new = object.extract_node(
        1,
        GltrExtractFlags::empty().center_objects() | GltrExtractFlags::empty().recalculate_buffers(),
    );
    assert!(new.is_ok());
}

#[test]
fn records_are_taken_in_the_order_first_seen() {
    let out = scene().extract_node(1, GltrExtractFlags::empty()).unwrap();
    assert_eq!(tags(&out.nodes, |r| r.original_index), vec![Some(1)]);
    assert_eq!(tags(&out.meshes, |r| r.original_index), vec![Some(1)]);
    assert_eq!(tags(&out.accessors, |r| r.original_index), vec![Some(2), Some(1), Some(4)]);
    assert_eq!(tags(&out.materials, |r| r.original_index), vec![Some(1), Some(2)]);
    assert_eq!(tags(&out.textures, |r| r.original_index), vec![Some(2)]);
    assert_eq!(tags(&out.images, |r| r.original_index), vec![Some(2)]);
    assert_eq!(tags(&out.samplers, |r| r.original_index), vec![Some(1)]);
    assert_eq!(tags(&out.buffer_views, |r| r.original_index), vec![Some(1), Some(2), Some(4)]);
    assert_eq!(tags(&out.buffers.0, |r| r.original_index), vec![Some(1), Some(0)]);
}

#[test]
fn references_name_places_in_the_new_scene() {
    let out = scene().extract_node(1, GltrExtractFlags::empty()).unwrap();
    assert_eq!(out.nodes[0].mesh, Some(0));
    let links: Vec<(Option<usize>, Option<usize>)> =
        out.meshes[0].primitives.iter().map(|p| (p.accessor, p.material)).collect();
    assert_eq!(
        links,
        vec![
            (Some(0), Some(0)),
            (Some(1), Some(0)),
            (Some(0), Some(1)),
            (None, None),
            (Some(2), None)
        ]
    );
    assert_eq!(tags(&out.accessors, |r| r.buffer_view), vec![Some(0), Some(1), Some(2)]);
    assert_eq!(tags(&out.materials, |r| r.get_texture_index()), vec![Some(0), Some(0)]);
    assert_eq!(out.textures[0].source_image_index, Some(0));
    assert_eq!(out.textures[0].sample_index, Some(0));
    assert_eq!(out.images[0].buffer_view, Some(0));
    let buffers: Vec<usize> = out.buffer_views.iter().map(|v| v.buffer).collect();
    assert_eq!(buffers, vec![0, 1, 0]);
}

#[test]
fn no_reference_dangles_in_the_new_scene() {
    for flags in [GltrExtractFlags::empty(), GltrExtractFlags::all()] {
        for idx in 0..3 {
            let out = scene().extract_node(idx, flags).unwrap();
            assert!(out.nodes.iter().all(|n| n.mesh.map_or(true, |m| m < out.meshes.len())));
            for m in &out.meshes {
                for p in &m.primitives {
                    assert!(p.accessor.map_or(true, |a| a < out.accessors.len()));
                    assert!(p.material.map_or(true, |a| a < out.materials.len()));
                }
            }
            for m in &out.materials {
                assert!(m.get_texture_index().map_or(true, |t| t < out.textures.len()));
            }
            for t in &out.textures {
                assert!(t.source_image_index.map_or(true, |i| i < out.images.len()));
                assert!(t.sample_index.map_or(true, |s| s < out.samplers.len()));
            }
            for a in &out.accessors {
                assert!(a.buffer_view.map_or(true, |v| v < out.buffer_views.len()));
            }
            for i in &out.images {
                assert!(i.buffer_view.map_or(true, |v| v < out.buffer_views.len()));
            }
            for v in &out.buffer_views {
                assert!(v.buffer < out.buffers.0.len());
            }
        }
    }
}

#[test]
fn shared_material_is_copied_once() {
    let mut g = GltfObject::new();
    g.nodes = vec![node(Some(0), None)];
    g.meshes = vec![mesh("m", vec![primitive(None, Some(1)), primitive(None, Some(1))])];
    g.materials = vec![material("unused", None), material("shared", None)];
    let out = g.extract_node(0, GltrExtractFlags::empty()).unwrap();
    assert_eq!(out.materials.len(), 1);
    assert_eq!(out.materials[0].name, "shared");
    assert_eq!(out.materials[0].original_index, Some(1));
    assert_eq!(out.meshes[0].primitives[0].material, Some(0));
    assert_eq!(out.meshes[0].primitives[1].material, Some(0));
}

#[test]
fn shared_buffer_is_copied_once() {
    let out = scene().extract_node(1, GltrExtractFlags::empty()).unwrap();
    assert_eq!(out.buffers.0.len(), 2);
    assert_eq!(out.buffers.0[0].bytes, (100u8..108).collect::<Vec<u8>>());
    assert_eq!(out.buffers.0[1].bytes, (0u8..10).collect::<Vec<u8>>());
    assert_eq!(out.buffers.0[0].byte_length, 8);
    assert_eq!(out.buffers.0[1].byte_length, 10);
}

#[test]
fn payload_is_kept() {
    let g = scene();
    let out = g.extract_node(1, GltrExtractFlags::empty()).unwrap();
    let n = &out.nodes[0];
    assert_eq!(n.name, Some("node".to_string()));
    assert_eq!(n.camera, Some(4));
    assert_eq!(n.children, Some(vec![0, 7]));
    assert_eq!(n.rotation, g.nodes[1].rotation);
    assert_eq!(n.scale, g.nodes[1].scale);
    assert_eq!(n.matrix, None);
    assert_eq!(n.extras, Some(serde_json::Value::String("kept".to_string())));
    assert_eq!(out.meshes[0].name, "m1");
    let p = &out.meshes[0].primitives[4];
    assert_eq!(p.attributes, serde_json::Value::Bool(true));
    assert_eq!(p.mode, Some(4));
    assert_eq!(p.extras, Some(vec![serde_json::Value::Null]));
    assert_eq!(p.original_index, Some(4));
    let a = &out.accessors[0];
    assert_eq!(a.name, Some("a2".to_string()));
    assert_eq!((a.component_type, a.count, a.normalized), (5126, 3, false));
    assert_eq!(a.element_type, "VEC3");
    assert_eq!(f32::from_bits(a.max[0]), 1.5);
    assert_eq!(f32::from_bits(a.min[0]), 0.5);
    let m = &out.materials[1];
    assert_eq!(m.name, "mat2");
    assert_eq!(m.alpha_mode, "OPAQUE");
    assert_eq!(f32::from_bits(m.alpha_cutoff), 0.5);
    let pbr = m.pbr_metallic_roughness.as_ref().unwrap();
    assert_eq!(pbr.metallic_factor, Some(0.25f32.to_bits()));
    assert_eq!(pbr.base_color_texture.as_ref().unwrap().tex_coord, 1);
    assert_eq!(out.textures[0].name, Some("t2".to_string()));
    assert_eq!(out.images[0].name, Some("i2".to_string()));
    assert_eq!(out.images[0].mime_type, Some("image/png".to_string()));
    assert_eq!(out.samplers[0].name, Some("s1".to_string()));
    assert_eq!(out.samplers[0].mag_filter, Some(9729));
    let v = &out.buffer_views[0];
    assert_eq!((v.byte_offset, v.byte_length), (2, 3));
    assert_eq!(v.target, Some(BufferViewTarget::array_buffer()));
}

#[test]
fn new_scene_holds_nothing_else() {
    let mut g = scene();
    g.extensions_used = vec!["KHR_x".to_string()];
    g.extras = Some(serde_json::Value::Null);
    let out = g.extract_node(1, GltrExtractFlags::empty()).unwrap();
    assert_eq!(out.scene, 3);
    assert_eq!(out.nodes.len(), 1);
    assert!(out.animations.is_empty() && out.cameras.is_empty());
    assert!(out.scenes.is_empty() && out.skins.is_empty());
    assert!(out.extensions_used.is_empty() && out.extensions_required.is_empty());
    assert!(out.extensions.is_none() && out.extras.is_none());
    assert_eq!(out.asset.generator, "Gltr Library v0.0.1");
    assert_eq!(out.asset.version, "2.0");
}

#[test]
fn node_without_mesh_comes_alone() {
    let out = scene().extract_node(0, GltrExtractFlags::all()).unwrap();
    assert_eq!(out.nodes.len(), 1);
    assert_eq!(out.nodes[0].mesh, None);
    assert_eq!(out.nodes[0].original_index, Some(0));
    assert!(out.meshes.is_empty() && out.accessors.is_empty() && out.materials.is_empty());
    assert!(out.textures.is_empty() && out.images.is_empty() && out.samplers.is_empty());
    assert!(out.buffer_views.is_empty() && out.buffers.0.is_empty());
}

#[test]
fn source_is_not_changed() {
    let g = scene();
    let _ = g.extract_node(1, GltrExtractFlags::all()).unwrap();
    assert_eq!(g.nodes[1].mesh, Some(1));
    assert_eq!(g.nodes[1].original_index, None);
    assert_eq!(g.nodes[1].translation, Some([1f32.to_bits(), 2f32.to_bits(), 3f32.to_bits()]));
    assert_eq!(g.meshes[1].primitives[0].accessor, Some(2));
    assert_eq!(g.accessors[2].buffer_view, Some(1));
    assert_eq!(g.accessors[2].original_index, None);
    assert_eq!(g.buffer_views[1].byte_offset, 2);
    assert_eq!(g.buffers.0[1].bytes.len(), 8);
}

#[test]
fn centering_zeroes_a_translation() {
    let center = GltrExtractFlags::empty().center_objects();
    let out = scene().extract_node(1, center).unwrap();
    assert_eq!(out.nodes[0].translation, Some([0f32.to_bits(); 3]));
    assert_eq!(out.nodes[0].translation, Some([0, 0, 0]));
    assert_eq!(out.nodes[0].rotation, scene().nodes[1].rotation);
    assert_eq!(out.nodes[0].scale, scene().nodes[1].scale);
    let already = scene().extract_node(2, center).unwrap();
    assert_eq!(already.nodes[0].translation, Some([0, 0, 0]));
}

#[test]
fn centering_leaves_a_node_without_translation_alone() {
    let center = GltrExtractFlags::empty().center_objects();
    let out = scene().extract_node(0, center).unwrap();
    assert_eq!(out.nodes[0].translation, None);
}

#[test]
fn translation_is_kept_without_the_flag() {
    for flags in [GltrExtractFlags::empty(), GltrExtractFlags::empty().recalculate_buffers()] {
        let out = scene().extract_node(1, flags).unwrap();
        assert_eq!(
            out.nodes[0].translation,
            Some([1f32.to_bits(), 2f32.to_bits(), 3f32.to_bits()])
        );
    }
}

#[test]
fn node_can_be_centered_directly() {
    let mut n = node(Some(1), Some([4.0, 5.0, 6.0]));
    n.center();
    assert_eq!(n.translation, Some([0, 0, 0]));
    assert_eq!(n.mesh, Some(1));
    let mut m = node(None, None);
    m.center();
    assert_eq!(m.translation, None);
}

#[test]
fn whole_buffers_are_copied_without_the_flag() {
    let out = scene().extract_node(1, GltrExtractFlags::empty().center_objects()).unwrap();
    let offsets: Vec<(usize, usize)> =
        out.buffer_views.iter().map(|v| (v.byte_offset, v.byte_length)).collect();
    assert_eq!(offsets, vec![(2, 3), (4, 2), (0, 2)]);
    assert_eq!(out.buffers.0[0].bytes.len(), 8);
    assert_eq!(out.buffers.0[1].bytes.len(), 10);
}

#[test]
fn recalculated_buffers_hold_the_referenced_ranges() {
    let out = scene().extract_node(1, GltrExtractFlags::empty().recalculate_buffers()).unwrap();
    assert_eq!(out.buffers.0.len(), 2);
    assert_eq!(out.buffers.0[0].bytes, vec![102u8, 103, 104, 100, 101]);
    assert_eq!(out.buffers.0[0].byte_length, 5);
    assert_eq!(out.buffers.0[0].original_index, Some(1));
    assert_eq!(out.buffers.0[1].bytes, vec![4u8, 5]);
    assert_eq!(out.buffers.0[1].byte_length, 2);
    assert_eq!(out.buffers.0[1].original_index, Some(0));
    let placed: Vec<(usize, usize, usize)> =
        out.buffer_views.iter().map(|v| (v.buffer, v.byte_offset, v.byte_length)).collect();
    assert_eq!(placed, vec![(0, 0, 3), (1, 0, 2), (0, 3, 2)]);
}

#[test]
fn views_resolve_to_the_same_bytes() {
    let g = scene();
    for flags in [GltrExtractFlags::empty(), GltrExtractFlags::all()] {
        let out = g.extract_node(1, flags).unwrap();
        for v in &out.buffer_views {
            let from = &g.buffer_views[v.original_index.unwrap()];
            assert_eq!(out.buffers.get_view(v), g.buffers.get_view(from));
            assert!(out.buffers.get_view(v).is_ok());
        }
    }
}

#[test]
fn overlapping_ranges_are_each_packed() {
    let mut g = GltfObject::new();
    g.nodes = vec![node(Some(0), None)];
    g.meshes = vec![mesh("m", vec![primitive(Some(0), None), primitive(Some(1), None)])];
    g.accessors = vec![accessor("a", Some(0)), accessor("b", Some(1))];
    g.buffer_views = vec![view(0, 1, 3), view(0, 2, 3)];
    g.buffers = GltfBinaryBuffers(vec![buffer(vec![10, 11, 12, 13, 14, 15])]);
    let out = g.extract_node(0, GltrExtractFlags::all()).unwrap();
    assert_eq!(out.buffers.0[0].bytes, vec![11u8, 12, 13, 12, 13, 14]);
    assert_eq!(out.buffer_views[0].byte_offset, 0);
    assert_eq!(out.buffer_views[1].byte_offset, 3);
}

#[test]
fn missing_node_is_reported() {
    assert_eq!(invalid_index(scene().extract_node(3, GltrExtractFlags::empty())), ("Node", 3));
    let empty = GltfObject::new();
    assert_eq!(invalid_index(empty.extract_node(0, GltrExtractFlags::all())), ("Node", 0));
}

#[test]
fn missing_mesh_is_reported() {
    let mut g = scene();
    g.nodes[1].mesh = Some(2);
    assert_eq!(invalid_index(g.extract_node(1, GltrExtractFlags::empty())), ("Mesh", 2));
    g.nodes[1].mesh = Some(usize::MAX);
    assert_eq!(invalid_index(g.extract_node(1, GltrExtractFlags::all())), ("Mesh", usize::MAX));
}

#[test]
fn missing_accessor_is_reported() {
    let mut g = scene();
    g.meshes[1].primitives[1].accessor = Some(5);
    assert_eq!(invalid_index(g.extract_node(1, GltrExtractFlags::empty())), ("Accessor", 5));
}

#[test]
fn missing_material_is_reported() {
    let mut g = scene();
    g.meshes[1].primitives[2].material = Some(9);
    assert_eq!(invalid_index(g.extract_node(1, GltrExtractFlags::empty())), ("Material", 9));
}

#[test]
fn missing_texture_is_reported() {
    let mut g = scene();
    g.materials[2] = material("mat2", Some(3));
    assert_eq!(invalid_index(g.extract_node(1, GltrExtractFlags::empty())), ("Texture", 3));
}

#[test]
fn missing_image_is_reported() {
    let mut g = scene();
    g.textures[2].source_image_index = Some(3);
    assert_eq!(invalid_index(g.extract_node(1, GltrExtractFlags::empty())), ("Image", 3));
}

#[test]
fn missing_sampler_is_reported() {
    let mut g = scene();
    g.textures[2].sample_index = Some(2);
    assert_eq!(invalid_index(g.extract_node(1, GltrExtractFlags::empty())), ("Sampler", 2));
}

#[test]
fn missing_buffer_view_is_reported() {
    let mut g = scene();
    g.accessors[1].buffer_view = Some(5);
    assert_eq!(invalid_index(g.extract_node(1, GltrExtractFlags::empty())), ("buffer_view", 5));
    let mut g = scene();
    g.images[2].buffer_view = Some(6);
    assert_eq!(invalid_index(g.extract_node(1, GltrExtractFlags::empty())), ("buffer_view", 6));
}

#[test]
fn missing_buffer_is_reported() {
    let mut g = scene();
    g.buffer_views[2].buffer = 2;
    assert_eq!(invalid_index(g.extract_node(1, GltrExtractFlags::empty())), ("buffer", 2));
}

#[test]
fn first_dangling_reference_on_the_way_is_reported() {
    let mut g = scene();
    g.meshes[1].primitives[0].material = Some(8);
    g.meshes[1].primitives[1].accessor = Some(7);
    assert_eq!(invalid_index(g.extract_node(1, GltrExtractFlags::empty())), ("Material", 8));
    let mut g = scene();
    g.meshes[1].primitives[1].material = Some(8);
    g.meshes[1].primitives[1].accessor = Some(7);
    assert_eq!(invalid_index(g.extract_node(1, GltrExtractFlags::empty())), ("Accessor", 7));
    let mut g = scene();
    g.textures[2].source_image_index = Some(5);
    g.textures[2].sample_index = Some(6);
    g.buffer_views[1].buffer = 9;
    assert_eq!(invalid_index(g.extract_node(1, GltrExtractFlags::empty())), ("Image", 5));
    let mut g = scene();
    g.materials[1] = material("mat1", Some(4));
    g.accessors[2].buffer_view = Some(9);
    assert_eq!(invalid_index(g.extract_node(1, GltrExtractFlags::empty())), ("Texture", 4));
}

#[test]
fn dangling_references_off_the_way_do_no_harm() {
    let mut g = scene();
    g.meshes[0].primitives[0].accessor = Some(50);
    g.materials[0] = material("mat0", Some(50));
    g.textures[0].source_image_index = Some(50);
    g.images[1].buffer_view = Some(50);
    g.buffer_views[0].buffer = 50;
    g.nodes[0].mesh = Some(50);
    assert!(g.extract_node(1, GltrExtractFlags::all()).is_ok());
}

#[test]
fn buffer_with_a_wrong_length_is_refused() {
    let mut g = scene();
    g.buffers.0[0].byte_length = 11;
    assert_eq!(violation(g.extract_node(1, GltrExtractFlags::empty())), ERR_BUFFER_LENGTH);
    assert_eq!(violation(g.extract_node(1, GltrExtractFlags::all())), ERR_BUFFER_LENGTH);
    assert!(g.extract_node(0, GltrExtractFlags::all()).is_ok());
}

#[test]
fn view_past_its_buffer_is_refused_when_buffers_are_recalculated() {
    let mut g = scene();
    g.buffer_views[1].byte_length = 7;
    assert_eq!(violation(g.extract_node(1, GltrExtractFlags::all())), ERR_VIEW_RANGE);
    let kept = g.extract_node(1, GltrExtractFlags::empty()).unwrap();
    assert_eq!(kept.buffer_views[0].byte_length, 7);
    g.buffer_views[1].byte_length = 6;
    assert!(g.extract_node(1, GltrExtractFlags::all()).is_ok());
    g.buffer_views[1].byte_offset = usize::MAX;
    assert_eq!(violation(g.extract_node(1, GltrExtractFlags::all())), ERR_VIEW_RANGE);
}

#[test]
fn dangling_reference_is_reported_before_a_violation() {
    let mut g = scene();
    g.buffers.0[0].byte_length = 11;
    g.buffer_views[2].buffer = 2;
    assert_eq!(invalid_index(g.extract_node(1, GltrExtractFlags::all())), ("buffer", 2));
}

#[test]
fn closure_is_found_or_refused() {
    let g = scene();
    let selection = g.select(Some(1)).unwrap();
    assert_eq!(selection.meshes, vec![1]);
    assert_eq!(selection.accessors, vec![2, 1, 4]);
    assert_eq!(selection.materials, vec![1, 2]);
    assert_eq!(selection.textures, vec![2]);
    assert_eq!(selection.images, vec![2]);
    assert_eq!(selection.samplers, vec![1]);
    assert_eq!(selection.buffer_views, vec![1, 2, 4]);
    assert_eq!(selection.buffers, vec![1, 0]);
    let nothing = g.select(None).unwrap();
    assert!(nothing.meshes.is_empty() && nothing.buffers.is_empty());
    assert!(matches!(g.select(Some(2)), Err(GltrError::InvalidIndex("Mesh", 2))));
}

#[test]
fn images_are_reached_after_accessors() {
    let mut g = GltfObject::new();
    g.nodes = vec![node(Some(0), None)];
    g.meshes = vec![mesh("m", vec![primitive(Some(0), Some(0))])];
    g.accessors = vec![accessor("a", Some(1))];
    g.materials = vec![material("mat", Some(0))];
    g.textures = vec![texture("t", Some(0), None)];
    g.images = vec![image("i", Some(0))];
    g.buffer_views = vec![view(0, 0, 1), view(0, 1, 1)];
    g.buffers = GltfBinaryBuffers(vec![buffer(vec![1, 2])]);
    let out = g.extract_node(0, GltrExtractFlags::empty()).unwrap();
    assert_eq!(tags(&out.buffer_views, |r| r.original_index), vec![Some(1), Some(0)]);
    assert_eq!(out.accessors[0].buffer_view, Some(0));
    assert_eq!(out.images[0].buffer_view, Some(1));
    assert!(out.samplers.is_empty());
    assert_eq!(out.textures[0].sample_index, None);
}

#[test]
fn empty_scene_is_blank() {
    let g = GltfObject::new();
    assert_eq!(g.scene, 0);
    assert!(g.nodes.is_empty() && g.meshes.is_empty() && g.buffers.0.is_empty());
    assert_eq!(g.asset.generator, "Gltr Library v0.0.1");
    assert_eq!(g.asset.version, "2.0");
}
