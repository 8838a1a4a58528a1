use model_loader::binding::{Bindable, BindingResource, BindingType, Visibility};
use model_loader::error::LoadError;
use model_loader::geometry::{build_vertices, pack_vertices, AttributeFormat, MeshRecord,
    ModelVertex, StepMode, Vertex};
use model_loader::loader::{collect_results, Model, ModelLoader};
use model_loader::material::{material_bind_group_layout, texture_format_for, texture_requests,
    Material, MaterialRecord, Texture, TextureFormat};
use model_loader::mesh::{ComputeStep, Mesh};

fn quad_record(name: &str, material_id: Option<usize>) -> MeshRecord {
    MeshRecord {
        name: name.to_string(),
        positions: (1..=12).collect(),
        texcoords: (21..=28).collect(),
        normals: (31..=42).collect(),
        indices: vec![0, 1, 2, 0, 2, 3],
        material_id,
    }
}

fn plain_material(name: &str) -> Material {
    let layout = material_bind_group_layout();
    Material::new(
        name,
        Texture::new(format!("{name}-diffuse.png"), false),
        Texture::new(format!("{name}-normal.png"), true),
        &layout,
    )
}

#[test]
fn vertex_layout_is_packed_and_contiguous() {
    let desc = ModelVertex::desc();
    assert_eq!(desc.array_stride, 56);
    assert_eq!(desc.step_mode, StepMode::Vertex);
    let offsets: Vec<u64> = desc.attributes.iter().map(|a| a.offset).collect();
    assert_eq!(offsets, vec![0, 12, 20, 32, 44]);
    let locations: Vec<u32> = desc.attributes.iter().map(|a| a.shader_location).collect();
    assert_eq!(locations, vec![0, 1, 2, 3, 4]);
    assert_eq!(desc.attributes[1].format, AttributeFormat::Vec2);
    assert_eq!(desc.attributes[0].format, AttributeFormat::Vec3);
    // contiguity: each attribute starts where the previous ends
    for w in desc.attributes.windows(2) {
        assert_eq!(w[1].offset, w[0].offset + w[0].format.size_bytes());
    }
}

#[test]
fn build_vertices_packs_fields_and_zeroes_tangents() {
    let rec = quad_record("quad", None);
    let vs = build_vertices(&rec.positions, &rec.texcoords, &rec.normals).unwrap();
    assert_eq!(vs.len(), 4);
    assert_eq!(vs[0].position_x, 1);
    assert_eq!(vs[0].position_z, 3);
    assert_eq!(vs[0].tex_u, 21);
    assert_eq!(vs[0].normal_x, 31);
    assert_eq!(vs[3].position_x, 10);
    assert_eq!(vs[3].tex_v, 28);
    assert_eq!(vs[3].normal_z, 42);
    for v in &vs {
        assert_eq!(
            (v.tangent_x, v.tangent_y, v.tangent_z, v.bitangent_x, v.bitangent_y, v.bitangent_z),
            (0, 0, 0, 0, 0, 0)
        );
    }
}

#[test]
fn build_vertices_rejects_inconsistent_arrays() {
    // three vertices of positions but texcoords for two
    let positions: Vec<u32> = (0..9).collect();
    let texcoords: Vec<u32> = (0..4).collect();
    let normals: Vec<u32> = (0..9).collect();
    assert_eq!(
        build_vertices(&positions, &texcoords, &normals),
        Err(LoadError::MalformedMeshData)
    );
    // positions not divisible by three
    let positions: Vec<u32> = (0..8).collect();
    let texcoords: Vec<u32> = (0..4).collect();
    let normals: Vec<u32> = (0..8).collect();
    assert_eq!(
        build_vertices(&positions, &texcoords, &normals),
        Err(LoadError::MalformedMeshData)
    );
}

#[test]
fn pack_vertices_places_each_scalar() {
    let rec = quad_record("quad", None);
    let vs = build_vertices(&rec.positions, &rec.texcoords, &rec.normals).unwrap();
    let data = pack_vertices(&vs);
    assert_eq!(data.len(), 4 * 14);
    // vertex 1 starts at word 14: position scalars 4,5,6 of the flat input
    assert_eq!(&data[14..17], &[4, 5, 6]);
    // its texture coordinate at offset 12 bytes = word 3 inside the record
    assert_eq!(&data[14 + 3..14 + 5], &[23, 24]);
    // its normal at offset 20 bytes = word 5
    assert_eq!(&data[14 + 5..14 + 8], &[34, 35, 36]);
    // tangent and bitangent slots zeroed
    assert_eq!(&data[14 + 8..14 + 14], &[0, 0, 0, 0, 0, 0]);
}

#[test]
fn texture_format_follows_normal_map_flag() {
    assert_eq!(texture_format_for(false), TextureFormat::Rgba8UnormSrgb);
    assert_eq!(texture_format_for(true), TextureFormat::Rgba8Unorm);
    let t = Texture::new("bricks.png".to_string(), true);
    assert_eq!(t.format, TextureFormat::Rgba8Unorm);
    let t = Texture::new("bricks.png".to_string(), false);
    assert_eq!(t.format, TextureFormat::Rgba8UnormSrgb);
}

#[test]
fn texture_requests_resolve_against_folder() {
    let rec = MaterialRecord {
        name: "stone".to_string(),
        diffuse_texture: Some("stone-d.png".to_string()),
        normal_texture: Some("stone-n.png".to_string()),
    };
    let reqs = texture_requests(&rec, "assets/models");
    assert_eq!(reqs.len(), 2);
    assert_eq!(reqs[0].path, "assets/models/stone-d.png");
    assert!(!reqs[0].is_normal_map);
    assert_eq!(reqs[1].path, "assets/models/stone-n.png");
    assert!(reqs[1].is_normal_map);
    // a record that names no file resolves to the bare directory
    let rec = MaterialRecord {
        name: "bare".to_string(),
        diffuse_texture: None,
        normal_texture: None,
    };
    let reqs = texture_requests(&rec, "assets");
    assert_eq!(reqs[0].path, "assets/");
    assert_eq!(reqs[1].path, "assets/");
    // an asset in the working directory: empty folder, bare file names
    let rec = MaterialRecord {
        name: "here".to_string(),
        diffuse_texture: Some("tex.png".to_string()),
        normal_texture: None,
    };
    let reqs = texture_requests(&rec, "");
    assert_eq!(reqs[0].path, "tex.png");
    assert_eq!(reqs[1].path, "");
}

#[test]
fn material_bind_group_fills_slots_in_order() {
    let m = plain_material("stone");
    assert_eq!(m.name, "stone");
    let bindings: Vec<u32> = m.bind_group.entries.iter().map(|e| e.binding).collect();
    assert_eq!(bindings, vec![0, 1, 2, 3]);
    assert!(matches!(m.bind_group.entries[0].resource, BindingResource::TextureView(_)));
    assert!(matches!(m.bind_group.entries[1].resource, BindingResource::Sampler(_)));
    assert!(matches!(m.bind_group.entries[2].resource, BindingResource::TextureView(_)));
    assert!(matches!(m.bind_group.entries[3].resource, BindingResource::Sampler(_)));
}

#[test]
fn mesh_layout_declares_distinct_storage_slots() {
    let entries = Mesh::layout_entries();
    assert_eq!(entries.len(), 2);
    assert_eq!(entries[0].binding, 0);
    assert_eq!(entries[0].visibility, Visibility::Compute);
    assert_eq!(entries[0].ty, BindingType::StorageBuffer { read_only: false });
    assert_eq!(entries[1].binding, 1);
    assert_eq!(entries[1].visibility, Visibility::Compute);
    assert_eq!(entries[1].ty, BindingType::StorageBuffer { read_only: true });
}

#[test]
fn load_assembles_model_in_order() {
    let loader = ModelLoader::new();
    let records = vec![quad_record("floor", Some(1)), quad_record("wall", None)];
    let mut outcomes = vec![
        Ok(plain_material("stone")),
        Ok(plain_material("brick")),
    ];
    let (model, passes) = loader.load(&records, &mut outcomes).unwrap();
    assert_eq!(model.meshes.len(), 2);
    assert_eq!(model.materials.len(), 2);
    assert_eq!(model.meshes[0].name, "floor");
    assert_eq!(model.meshes[1].name, "wall");
    assert_eq!(model.materials[0].name, "stone");
    assert_eq!(model.materials[1].name, "brick");
    assert_eq!(model.meshes[0].material, 1);
    assert_eq!(model.meshes[1].material, 0);
    for mesh in &model.meshes {
        assert!(mesh.material < model.materials.len());
        assert_eq!(mesh.num_elements, 6);
        assert!(mesh.vertex_buffer.usage.vertex && mesh.vertex_buffer.usage.storage);
        assert!(!mesh.vertex_buffer.usage.index);
        assert!(mesh.index_buffer.usage.index && mesh.index_buffer.usage.storage);
        assert_eq!(mesh.vertex_buffer.contents.len(), 4 * 14);
        assert_eq!(mesh.index_buffer.contents, vec![0, 1, 2, 0, 2, 3]);
    }
    assert_eq!(passes.len(), 2);
    for pass in &passes {
        // one workgroup per triangle, then the explicit device barrier
        assert_eq!(
            pass.steps,
            vec![
                ComputeStep::Dispatch { workgroups_x: 2, workgroups_y: 1, workgroups_z: 1 },
                ComputeStep::AwaitDeviceIdle,
            ]
        );
        let bindings: Vec<(u32, BindingResource)> =
            pass.bind_group.entries.iter().map(|e| (e.binding, e.resource)).collect();
        assert_eq!(
            bindings,
            vec![(0, BindingResource::VertexBuffer), (1, BindingResource::IndexBuffer)]
        );
    }
}

#[test]
fn load_zero_faces_yields_empty_draw_call() {
    let loader = ModelLoader::new();
    let mut rec = quad_record("empty", None);
    rec.indices = vec![];
    let mut outcomes = vec![Ok(plain_material("stone"))];
    let (model, passes) = loader.load(&vec![rec], &mut outcomes).unwrap();
    assert_eq!(model.meshes.len(), 1);
    assert_eq!(model.meshes[0].num_elements, 0);
    assert_eq!(
        passes[0].steps[0],
        ComputeStep::Dispatch { workgroups_x: 0, workgroups_y: 1, workgroups_z: 1 }
    );
}

#[test]
fn load_missing_texture_fails_whole_load() {
    let loader = ModelLoader::new();
    let records = vec![quad_record("floor", None)];
    // the second material's texture failed to load; the first succeeded
    let mut outcomes = vec![
        Ok(plain_material("stone")),
        Err(LoadError::TextureLoadError),
    ];
    let r = loader.load(&records, &mut outcomes);
    assert!(matches!(r, Err(LoadError::TextureLoadError)));
}

#[test]
fn load_reports_first_material_error_before_mesh_errors() {
    let loader = ModelLoader::new();
    let mut bad = quad_record("bad", None);
    bad.texcoords = vec![1, 2, 3];
    let records = vec![bad];
    let mut outcomes = vec![Err(LoadError::TextureLoadError)];
    assert!(matches!(loader.load(&records, &mut outcomes), Err(LoadError::TextureLoadError)));
    // with the material healthy, the malformed geometry surfaces instead
    let mut bad = quad_record("bad", None);
    bad.texcoords = vec![1, 2, 3];
    let records = vec![bad];
    let mut outcomes = vec![Ok(plain_material("stone"))];
    assert!(matches!(loader.load(&records, &mut outcomes), Err(LoadError::MalformedMeshData)));
}

#[test]
fn load_rejects_out_of_bounds_material_index() {
    let loader = ModelLoader::new();
    let records = vec![quad_record("floor", Some(3))];
    let mut outcomes = vec![Ok(plain_material("stone"))];
    assert!(matches!(loader.load(&records, &mut outcomes), Err(LoadError::AssetParseError)));
    // a mesh that declares no material needs slot zero to exist
    let records = vec![quad_record("floor", None)];
    let mut outcomes: Vec<Result<Material, LoadError>> = vec![];
    assert!(matches!(loader.load(&records, &mut outcomes), Err(LoadError::AssetParseError)));
}

#[test]
fn load_is_deterministic_across_runs() {
    let loader = ModelLoader::new();
    let records = vec![quad_record("floor", Some(0)), quad_record("wall", Some(1))];
    let run = |loader: &ModelLoader| -> (Model, Vec<String>) {
        let mut outcomes = vec![
            Ok(plain_material("stone")),
            Ok(plain_material("brick")),
        ];
        let (model, _) = loader.load(&records, &mut outcomes).unwrap();
        let names = model.meshes.iter().map(|m| m.name.clone()).collect();
        (model, names)
    };
    let (a, a_names) = run(&loader);
    let (b, b_names) = run(&loader);
    assert_eq!(a_names, b_names);
    assert_eq!(a.meshes.len(), b.meshes.len());
    assert_eq!(a.materials.len(), b.materials.len());
    for (ma, mb) in a.meshes.iter().zip(b.meshes.iter()) {
        assert_eq!(ma.vertex_buffer.contents, mb.vertex_buffer.contents);
        assert_eq!(ma.index_buffer.contents, mb.index_buffer.contents);
        assert_eq!(ma.num_elements, mb.num_elements);
        assert_eq!(ma.material, mb.material);
    }
    for (ma, mb) in a.materials.iter().zip(b.materials.iter()) {
        assert_eq!(ma.name, mb.name);
        assert_eq!(ma.diffuse_texture.path, mb.diffuse_texture.path);
    }
}

#[test]
fn collect_results_returns_first_failure() {
    let mut results: Vec<Result<u32, LoadError>> = vec![
        Ok(1),
        Err(LoadError::TextureLoadError),
        Err(LoadError::MalformedMeshData),
    ];
    assert_eq!(collect_results(&mut results), Err(LoadError::TextureLoadError));
    let mut results: Vec<Result<u32, LoadError>> = vec![Ok(1), Ok(2), Ok(3)];
    assert_eq!(collect_results(&mut results), Ok(vec![1, 2, 3]));
}

#[test]
fn loader_owns_mesh_compatible_pipeline_layout() {
    let loader = ModelLoader::new();
    assert_eq!(loader.binder.layout.entries, Mesh::layout_entries());
    assert_eq!(loader.pipeline.layout.entries, Mesh::layout_entries());
}
