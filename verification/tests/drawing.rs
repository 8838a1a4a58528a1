use model_loader::draw::{BindGroupSel, DrawLight, DrawModel, GpuBindGroup, RenderCommand,
    RenderPass};
use model_loader::error::LoadError;
use model_loader::geometry::MeshRecord;
use model_loader::loader::{Model, ModelLoader};
use model_loader::material::{material_bind_group_layout, Material, Texture};

fn tri_record(name: &str, material_id: Option<usize>) -> MeshRecord {
    MeshRecord {
        name: name.to_string(),
        positions: (1..=9).collect(),
        texcoords: (11..=16).collect(),
        normals: (21..=29).collect(),
        indices: vec![0, 1, 2],
        material_id,
    }
}

fn plain_material(name: &str) -> Material {
    let layout = material_bind_group_layout();
    Material::new(
        name,
        Texture::new(format!("{name}-d.png"), false),
        Texture::new(format!("{name}-n.png"), true),
        &layout,
    )
}

fn two_mesh_model() -> Model {
    let loader = ModelLoader::new();
    let records = vec![tri_record("floor", Some(1)), tri_record("wall", None)];
    let mut outcomes: Vec<Result<Material, LoadError>> = vec![
        Ok(plain_material("stone")),
        Ok(plain_material("brick")),
    ];
    loader.load(&records, &mut outcomes).unwrap().0
}

fn mesh_commands(mesh: &str, material: &str, instances: (u32, u32)) -> Vec<RenderCommand> {
    vec![
        RenderCommand::SetVertexBuffer { slot: 0, mesh: mesh.to_string() },
        RenderCommand::SetIndexBuffer { mesh: mesh.to_string() },
        RenderCommand::SetBindGroup {
            index: 0,
            group: BindGroupSel::MaterialTextures(material.to_string()),
        },
        RenderCommand::SetBindGroup { index: 1, group: BindGroupSel::Frontend(7) },
        RenderCommand::SetBindGroup { index: 2, group: BindGroupSel::Frontend(9) },
        RenderCommand::DrawIndexed {
            index_start: 0,
            index_end: 3,
            base_vertex: 0,
            instance_start: instances.0,
            instance_end: instances.1,
        },
    ]
}

fn light_commands(mesh: &str, instances: (u32, u32)) -> Vec<RenderCommand> {
    vec![
        RenderCommand::SetVertexBuffer { slot: 0, mesh: mesh.to_string() },
        RenderCommand::SetIndexBuffer { mesh: mesh.to_string() },
        RenderCommand::SetBindGroup { index: 0, group: BindGroupSel::Frontend(7) },
        RenderCommand::SetBindGroup { index: 1, group: BindGroupSel::Frontend(9) },
        RenderCommand::DrawIndexed {
            index_start: 0,
            index_end: 3,
            base_vertex: 0,
            instance_start: instances.0,
            instance_end: instances.1,
        },
    ]
}

#[test]
fn draw_model_resolves_materials_by_index() {
    let model = two_mesh_model();
    let mut pass = RenderPass::new();
    let uniforms = GpuBindGroup { id: 7 };
    let light = GpuBindGroup { id: 9 };
    pass.draw_model_instanced(&model, 0..4, &uniforms, &light);
    let mut expected = mesh_commands("floor", "brick", (0, 4));
    expected.extend(mesh_commands("wall", "stone", (0, 4)));
    assert_eq!(pass.commands, expected);
}

#[test]
fn draw_model_single_instance() {
    let model = two_mesh_model();
    let mut pass = RenderPass::new();
    let uniforms = GpuBindGroup { id: 7 };
    let light = GpuBindGroup { id: 9 };
    pass.draw_model(&model, &uniforms, &light);
    let mut expected = mesh_commands("floor", "brick", (0, 1));
    expected.extend(mesh_commands("wall", "stone", (0, 1)));
    assert_eq!(pass.commands, expected);
}

#[test]
fn draw_with_material_overrides_every_mesh() {
    let model = two_mesh_model();
    let chalk = plain_material("chalk");
    let mut pass = RenderPass::new();
    let uniforms = GpuBindGroup { id: 7 };
    let light = GpuBindGroup { id: 9 };
    pass.draw_model_instanced_with_material(&model, &chalk, 2..5, &uniforms, &light);
    let mut expected = mesh_commands("floor", "chalk", (2, 5));
    expected.extend(mesh_commands("wall", "chalk", (2, 5)));
    assert_eq!(pass.commands, expected);
}

#[test]
fn draw_light_model_uses_two_slots() {
    let model = two_mesh_model();
    let mut pass = RenderPass::new();
    let uniforms = GpuBindGroup { id: 7 };
    let light = GpuBindGroup { id: 9 };
    pass.draw_light_model(&model, &uniforms, &light);
    let mut expected = light_commands("floor", (0, 1));
    expected.extend(light_commands("wall", (0, 1)));
    assert_eq!(pass.commands, expected);
}

#[test]
fn draw_calls_only_append() {
    let model = two_mesh_model();
    let mut pass = RenderPass::new();
    let uniforms = GpuBindGroup { id: 7 };
    let light = GpuBindGroup { id: 9 };
    pass.draw_light_mesh(&model.meshes[0], &uniforms, &light);
    let after_first = pass.commands.clone();
    pass.draw_mesh(&model.meshes[1], &model.materials[0], &uniforms, &light);
    assert_eq!(&pass.commands[..after_first.len()], &after_first[..]);
    let mut expected = light_commands("floor", (0, 1));
    expected.extend(mesh_commands("wall", "stone", (0, 1)));
    assert_eq!(pass.commands, expected);
}
