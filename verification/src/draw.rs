use vstd::prelude::*;

use core::ops::Range;

use crate::loader::Model;
use crate::material::Material;
use crate::mesh::{Mesh, MeshView};

verus! {

/// Handle to a bind group the rendering front end owns and supplies per
/// frame: the uniform transform data and the light data.
#[derive(Clone, Copy, Debug, PartialEq, Eq, Structural)]
pub struct GpuBindGroup {
    pub id: usize,
}

/// Which bind group a draw command attaches to a slot.
#[derive(Clone, Debug, PartialEq, Eq)]
pub enum BindGroupSel {
    /// The texture bind group of the named material.
    MaterialTextures(String),
    /// A front-end-owned bind group, by handle.
    Frontend(usize),
}

/// The mathematical value of a `BindGroupSel`.
#[verifier::ext_equal]
pub ghost enum BindGroupSelView {
    MaterialTextures(Seq<char>),
    Frontend(usize),
}

impl View for BindGroupSel {
    type V = BindGroupSelView;

    open spec fn view(&self) -> BindGroupSelView {
        match self {
            BindGroupSel::MaterialTextures(name) => BindGroupSelView::MaterialTextures(name@),
            BindGroupSel::Frontend(id) => BindGroupSelView::Frontend(*id),
        }
    }
}

/// One command of a render pass, as the draw layer records it.  Buffers are
/// named by the mesh that owns them; the front end replays the commands
/// against its device objects.
#[derive(Clone, Debug, PartialEq, Eq)]
pub enum RenderCommand {
    /// Bind the named mesh's vertex buffer to a vertex-input slot.
    SetVertexBuffer { slot: u32, mesh: String },
    /// Bind the named mesh's index buffer.
    SetIndexBuffer { mesh: String },
    /// Attach a bind group to a pipeline slot.
    SetBindGroup { index: u32, group: BindGroupSel },
    /// Issue an indexed draw over an instance range.
    DrawIndexed {
        index_start: u32,
        index_end: u32,
        base_vertex: i32,
        instance_start: u32,
        instance_end: u32,
    },
}

/// The mathematical value of a `RenderCommand`.
#[verifier::ext_equal]
pub ghost enum CommandView {
    SetVertexBuffer { slot: u32, mesh: Seq<char> },
    SetIndexBuffer { mesh: Seq<char> },
    SetBindGroup { index: u32, group: BindGroupSelView },
    DrawIndexed {
        index_start: u32,
        index_end: u32,
        base_vertex: i32,
        instance_start: u32,
        instance_end: u32,
    },
}

impl View for RenderCommand {
    type V = CommandView;

    open spec fn view(&self) -> CommandView {
        match self {
            RenderCommand::SetVertexBuffer { slot, mesh } => CommandView::SetVertexBuffer {
                slot: *slot,
                mesh: mesh@,
            },
            RenderCommand::SetIndexBuffer { mesh } => CommandView::SetIndexBuffer { mesh: mesh@ },
            RenderCommand::SetBindGroup { index, group } => CommandView::SetBindGroup {
                index: *index,
                group: group@,
            },
            RenderCommand::DrawIndexed {
                index_start,
                index_end,
                base_vertex,
                instance_start,
                instance_end,
            } => CommandView::DrawIndexed {
                index_start: *index_start,
                index_end: *index_end,
                base_vertex: *base_vertex,
                instance_start: *instance_start,
                instance_end: *instance_end,
            },
        }
    }
}

/// The commands that draw one mesh with one material: bind the mesh's
/// buffers, attach the material's textures at slot 0 and the front end's
/// uniform and light groups at slots 1 and 2, then draw the mesh's whole
/// index range over the instance range.
pub open spec fn mesh_draw_commands(
    mesh: MeshView,
    material_name: Seq<char>,
    instance_start: u32,
    instance_end: u32,
    uniforms: usize,
    light: usize,
) -> Seq<CommandView> {
    seq![
        CommandView::SetVertexBuffer { slot: 0, mesh: mesh.name },
        CommandView::SetIndexBuffer { mesh: mesh.name },
        CommandView::SetBindGroup {
            index: 0,
            group: BindGroupSelView::MaterialTextures(material_name),
        },
        CommandView::SetBindGroup { index: 1, group: BindGroupSelView::Frontend(uniforms) },
        CommandView::SetBindGroup { index: 2, group: BindGroupSelView::Frontend(light) },
        CommandView::DrawIndexed {
            index_start: 0,
            index_end: mesh.num_elements,
            base_vertex: 0,
            instance_start: instance_start,
            instance_end: instance_end,
        },
    ]
}

/// The commands that draw a whole model: each mesh in order, with the
/// material its stored index resolves to.
pub open spec fn model_draw_commands(
    meshes: Seq<Mesh>,
    materials: Seq<Material>,
    instance_start: u32,
    instance_end: u32,
    uniforms: usize,
    light: usize,
) -> Seq<CommandView>
    decreases meshes.len(),
{
    if meshes.len() == 0 {
        Seq::empty()
    } else {
        mesh_draw_commands(
            meshes[0]@,
            materials[meshes[0].material as int]@.name,
            instance_start,
            instance_end,
            uniforms,
            light,
        ) + model_draw_commands(meshes.drop_first(), materials, instance_start, instance_end, uniforms, light)
    }
}

/// The commands that draw a whole model with one overriding material, as the
/// light-only and shadow passes do.
pub open spec fn model_with_material_commands(
    meshes: Seq<Mesh>,
    material_name: Seq<char>,
    instance_start: u32,
    instance_end: u32,
    uniforms: usize,
    light: usize,
) -> Seq<CommandView>
    decreases meshes.len(),
{
    if meshes.len() == 0 {
        Seq::empty()
    } else {
        mesh_draw_commands(meshes[0]@, material_name, instance_start, instance_end, uniforms, light)
            + model_with_material_commands(
            meshes.drop_first(),
            material_name,
            instance_start,
            instance_end,
            uniforms,
            light,
        )
    }
}

/// The commands that draw one mesh in the light pass: no material — the
/// uniform and light groups sit at slots 0 and 1.
pub open spec fn light_mesh_commands(
    mesh: MeshView,
    instance_start: u32,
    instance_end: u32,
    uniforms: usize,
    light: usize,
) -> Seq<CommandView> {
    seq![
        CommandView::SetVertexBuffer { slot: 0, mesh: mesh.name },
        CommandView::SetIndexBuffer { mesh: mesh.name },
        CommandView::SetBindGroup { index: 0, group: BindGroupSelView::Frontend(uniforms) },
        CommandView::SetBindGroup { index: 1, group: BindGroupSelView::Frontend(light) },
        CommandView::DrawIndexed {
            index_start: 0,
            index_end: mesh.num_elements,
            base_vertex: 0,
            instance_start: instance_start,
            instance_end: instance_end,
        },
    ]
}

/// The commands that draw a whole model in the light pass.
pub open spec fn light_model_commands(
    meshes: Seq<Mesh>,
    instance_start: u32,
    instance_end: u32,
    uniforms: usize,
    light: usize,
) -> Seq<CommandView>
    decreases meshes.len(),
{
    if meshes.len() == 0 {
        Seq::empty()
    } else {
        light_mesh_commands(meshes[0]@, instance_start, instance_end, uniforms, light) + light_model_commands(
            meshes.drop_first(),
            instance_start,
            instance_end,
            uniforms,
            light,
        )
    }
}

/// Appending a mesh appends its draw commands.
proof fn lemma_model_commands_push(
    meshes: Seq<Mesh>,
    m: Mesh,
    materials: Seq<Material>,
    instance_start: u32,
    instance_end: u32,
    uniforms: usize,
    light: usize,
)
    ensures
        model_draw_commands(meshes.push(m), materials, instance_start, instance_end, uniforms, light)
            == model_draw_commands(meshes, materials, instance_start, instance_end, uniforms, light)
            + mesh_draw_commands(m@, materials[m.material as int]@.name, instance_start, instance_end, uniforms, light),
    decreases meshes.len(),
{
    if meshes.len() == 0 {
        assert(meshes.push(m)[0] == m);
        assert(meshes.push(m).drop_first() =~= Seq::<Mesh>::empty());
        assert(model_draw_commands(meshes.push(m), materials, instance_start, instance_end, uniforms, light)
            == mesh_draw_commands(
            m@,
            materials[m.material as int]@.name,
            instance_start,
            instance_end,
            uniforms,
            light,
        ) + model_draw_commands(
            Seq::<Mesh>::empty(),
            materials,
            instance_start,
            instance_end,
            uniforms,
            light,
        ));
        assert(model_draw_commands(meshes.push(m), materials, instance_start, instance_end, uniforms, light)
            =~= model_draw_commands(meshes, materials, instance_start, instance_end, uniforms, light)
            + mesh_draw_commands(
            m@,
            materials[m.material as int]@.name,
            instance_start,
            instance_end,
            uniforms,
            light,
        ));
    } else {
        assert(meshes.push(m)[0] == meshes[0]);
        assert(meshes.push(m).drop_first() =~= meshes.drop_first().push(m));
        lemma_model_commands_push(meshes.drop_first(), m, materials, instance_start, instance_end, uniforms, light);
        assert(model_draw_commands(meshes.push(m), materials, instance_start, instance_end, uniforms, light)
            == mesh_draw_commands(
            meshes[0]@,
            materials[meshes[0].material as int]@.name,
            instance_start,
            instance_end,
            uniforms,
            light,
        ) + (model_draw_commands(meshes.drop_first(), materials, instance_start, instance_end, uniforms, light)
            + mesh_draw_commands(
            m@,
            materials[m.material as int]@.name,
            instance_start,
            instance_end,
            uniforms,
            light,
        )));
        assert(model_draw_commands(meshes.push(m), materials, instance_start, instance_end, uniforms, light)
            =~= model_draw_commands(meshes, materials, instance_start, instance_end, uniforms, light)
            + mesh_draw_commands(
            m@,
            materials[m.material as int]@.name,
            instance_start,
            instance_end,
            uniforms,
            light,
        ));
    }
}

/// Appending a mesh appends its draw commands under an overriding material.
proof fn lemma_with_material_commands_push(
    meshes: Seq<Mesh>,
    m: Mesh,
    material_name: Seq<char>,
    instance_start: u32,
    instance_end: u32,
    uniforms: usize,
    light: usize,
)
    ensures
        model_with_material_commands(meshes.push(m), material_name, instance_start, instance_end, uniforms, light)
            == model_with_material_commands(meshes, material_name, instance_start, instance_end, uniforms, light)
            + mesh_draw_commands(m@, material_name, instance_start, instance_end, uniforms, light),
    decreases meshes.len(),
{
    if meshes.len() == 0 {
        assert(meshes.push(m)[0] == m);
        assert(meshes.push(m).drop_first() =~= Seq::<Mesh>::empty());
        assert(model_with_material_commands(
            meshes.push(m),
            material_name,
            instance_start,
            instance_end,
            uniforms,
            light,
        ) == mesh_draw_commands(m@, material_name, instance_start, instance_end, uniforms, light)
            + model_with_material_commands(
            Seq::<Mesh>::empty(),
            material_name,
            instance_start,
            instance_end,
            uniforms,
            light,
        ));
        assert(model_with_material_commands(
            meshes.push(m),
            material_name,
            instance_start,
            instance_end,
            uniforms,
            light,
        ) =~= model_with_material_commands(meshes, material_name, instance_start, instance_end, uniforms, light)
            + mesh_draw_commands(m@, material_name, instance_start, instance_end, uniforms, light));
    } else {
        assert(meshes.push(m)[0] == meshes[0]);
        assert(meshes.push(m).drop_first() =~= meshes.drop_first().push(m));
        lemma_with_material_commands_push(
            meshes.drop_first(),
            m,
            material_name,
            instance_start,
            instance_end,
            uniforms,
            light,
        );
        assert(model_with_material_commands(
            meshes.push(m),
            material_name,
            instance_start,
            instance_end,
            uniforms,
            light,
        ) == mesh_draw_commands(meshes[0]@, material_name, instance_start, instance_end, uniforms, light)
            + (model_with_material_commands(
            meshes.drop_first(),
            material_name,
            instance_start,
            instance_end,
            uniforms,
            light,
        ) + mesh_draw_commands(m@, material_name, instance_start, instance_end, uniforms, light)));
        assert(model_with_material_commands(
            meshes.push(m),
            material_name,
            instance_start,
            instance_end,
            uniforms,
            light,
        ) =~= model_with_material_commands(meshes, material_name, instance_start, instance_end, uniforms, light)
            + mesh_draw_commands(m@, material_name, instance_start, instance_end, uniforms, light));
    }
}

/// Appending a mesh appends its light-pass commands.
proof fn lemma_light_commands_push(
    meshes: Seq<Mesh>,
    m: Mesh,
    instance_start: u32,
    instance_end: u32,
    uniforms: usize,
    light: usize,
)
    ensures
        light_model_commands(meshes.push(m), instance_start, instance_end, uniforms, light) == light_model_commands(
            meshes,
            instance_start,
            instance_end,
            uniforms,
            light,
        ) + light_mesh_commands(m@, instance_start, instance_end, uniforms, light),
    decreases meshes.len(),
{
    if meshes.len() == 0 {
        assert(meshes.push(m)[0] == m);
        assert(meshes.push(m).drop_first() =~= Seq::<Mesh>::empty());
        assert(light_model_commands(meshes.push(m), instance_start, instance_end, uniforms, light)
            == light_mesh_commands(m@, instance_start, instance_end, uniforms, light)
            + light_model_commands(Seq::<Mesh>::empty(), instance_start, instance_end, uniforms, light));
        assert(light_model_commands(meshes.push(m), instance_start, instance_end, uniforms, light)
            =~= light_model_commands(meshes, instance_start, instance_end, uniforms, light) + light_mesh_commands(
            m@,
            instance_start,
            instance_end,
            uniforms,
            light,
        ));
    } else {
        assert(meshes.push(m)[0] == meshes[0]);
        assert(meshes.push(m).drop_first() =~= meshes.drop_first().push(m));
        lemma_light_commands_push(meshes.drop_first(), m, instance_start, instance_end, uniforms, light);
        assert(light_model_commands(meshes.push(m), instance_start, instance_end, uniforms, light)
            == light_mesh_commands(meshes[0]@, instance_start, instance_end, uniforms, light)
            + (light_model_commands(meshes.drop_first(), instance_start, instance_end, uniforms, light)
            + light_mesh_commands(m@, instance_start, instance_end, uniforms, light)));
        assert(light_model_commands(meshes.push(m), instance_start, instance_end, uniforms, light)
            =~= light_model_commands(meshes, instance_start, instance_end, uniforms, light) + light_mesh_commands(
            m@,
            instance_start,
            instance_end,
            uniforms,
            light,
        ));
    }
}

/// Anything that records render commands into an inspectable log.
pub trait CommandLog {
    /// The commands recorded so far, in order.
    spec fn log(&self) -> Seq<CommandView>;
}

/// The main render path: draws meshes and models with their materials and
/// the front end's uniform and light bind groups.  Every method only appends
/// to the command log — what it appends is pinned exactly.
pub trait DrawModel: CommandLog {
    /// Draw one mesh with one material, a single instance.
    fn draw_mesh(
        &mut self,
        mesh: &Mesh,
        material: &Material,
        uniforms: &GpuBindGroup,
        light: &GpuBindGroup,
    )
        ensures
            final(self).log() == old(self).log() + mesh_draw_commands(
                mesh@,
                material@.name,
                0,
                1,
                uniforms.id,
                light.id,
            ),
    ;

    /// Draw one mesh with one material over an instance range.
    fn draw_mesh_instanced(
        &mut self,
        mesh: &Mesh,
        material: &Material,
        instances: Range<u32>,
        uniforms: &GpuBindGroup,
        light: &GpuBindGroup,
    )
        ensures
            final(self).log() == old(self).log() + mesh_draw_commands(
                mesh@,
                material@.name,
                instances.start,
                instances.end,
                uniforms.id,
                light.id,
            ),
    ;

    /// Draw a whole model, a single instance of each mesh.
    fn draw_model(&mut self, model: &Model, uniforms: &GpuBindGroup, light: &GpuBindGroup)
        requires
            model.wf(),
        ensures
            final(self).log() == old(self).log() + model_draw_commands(
                model.meshes@,
                model.materials@,
                0,
                1,
                uniforms.id,
                light.id,
            ),
    ;

    /// Draw a whole model over an instance range: each mesh in order, its
    /// material resolved by its stored index.
    fn draw_model_instanced(
        &mut self,
        model: &Model,
        instances: Range<u32>,
        uniforms: &GpuBindGroup,
        light: &GpuBindGroup,
    )
        requires
            model.wf(),
        ensures
            final(self).log() == old(self).log() + model_draw_commands(
                model.meshes@,
                model.materials@,
                instances.start,
                instances.end,
                uniforms.id,
                light.id,
            ),
    ;

    /// Draw a whole model with one caller-supplied material overriding every
    /// mesh's own.
    fn draw_model_instanced_with_material(
        &mut self,
        model: &Model,
        material: &Material,
        instances: Range<u32>,
        uniforms: &GpuBindGroup,
        light: &GpuBindGroup,
    )
        ensures
            final(self).log() == old(self).log() + model_with_material_commands(
                model.meshes@,
                material@.name,
                instances.start,
                instances.end,
                uniforms.id,
                light.id,
            ),
    ;
}

/// The light-only render path: draws meshes and models with the uniform and
/// light bind groups alone.
pub trait DrawLight: CommandLog {
    /// Draw one mesh in the light pass, a single instance.
    fn draw_light_mesh(&mut self, mesh: &Mesh, uniforms: &GpuBindGroup, light: &GpuBindGroup)
        ensures
            final(self).log() == old(self).log() + light_mesh_commands(
                mesh@,
                0,
                1,
                uniforms.id,
                light.id,
            ),
    ;

    /// Draw one mesh in the light pass over an instance range.
    fn draw_light_mesh_instanced(
        &mut self,
        mesh: &Mesh,
        instances: Range<u32>,
        uniforms: &GpuBindGroup,
        light: &GpuBindGroup,
    )
        ensures
            final(self).log() == old(self).log() + light_mesh_commands(
                mesh@,
                instances.start,
                instances.end,
                uniforms.id,
                light.id,
            ),
    ;

    /// Draw a whole model in the light pass, a single instance of each mesh.
    fn draw_light_model(&mut self, model: &Model, uniforms: &GpuBindGroup, light: &GpuBindGroup)
        ensures
            final(self).log() == old(self).log() + light_model_commands(
                model.meshes@,
                0,
                1,
                uniforms.id,
                light.id,
            ),
    ;

    /// Draw a whole model in the light pass over an instance range.
    fn draw_light_model_instanced(
        &mut self,
        model: &Model,
        instances: Range<u32>,
        uniforms: &GpuBindGroup,
        light: &GpuBindGroup,
    )
        ensures
            final(self).log() == old(self).log() + light_model_commands(
                model.meshes@,
                instances.start,
                instances.end,
                uniforms.id,
                light.id,
            ),
    ;
}

/// Records the commands of one render pass for the front end to replay, in
/// order, against its device objects.
pub struct RenderPass {
    pub commands: Vec<RenderCommand>,
}

impl RenderPass {
    /// An empty pass.
    pub fn new() -> (r: RenderPass)
        ensures
            r.log() == Seq::<CommandView>::empty(),
    {
        let r = RenderPass { commands: Vec::new() };
        proof {
            assert(r.log() =~= Seq::<CommandView>::empty());
        }
        r
    }

    fn push_command(&mut self, c: RenderCommand)
        ensures
            final(self).log() == old(self).log().push(c@),
    {
        self.commands.push(c);
        proof {
            assert(self.log() =~= old(self).log().push(c@));
        }
    }
}

impl CommandLog for RenderPass {
    open spec fn log(&self) -> Seq<CommandView> {
        self.commands@.map_values(|c: RenderCommand| c@)
    }
}

impl DrawModel for RenderPass {
    fn draw_mesh(
        &mut self,
        mesh: &Mesh,
        material: &Material,
        uniforms: &GpuBindGroup,
        light: &GpuBindGroup,
    ) {
        self.draw_mesh_instanced(mesh, material, 0u32..1u32, uniforms, light);
    }

    fn draw_mesh_instanced(
        &mut self,
        mesh: &Mesh,
        material: &Material,
        instances: Range<u32>,
        uniforms: &GpuBindGroup,
        light: &GpuBindGroup,
    ) {
        self.push_command(RenderCommand::SetVertexBuffer { slot: 0, mesh: mesh.name.clone() });
        self.push_command(RenderCommand::SetIndexBuffer { mesh: mesh.name.clone() });
        self.push_command(
            RenderCommand::SetBindGroup {
                index: 0,
                group: BindGroupSel::MaterialTextures(material.name.clone()),
            },
        );
        self.push_command(
            RenderCommand::SetBindGroup { index: 1, group: BindGroupSel::Frontend(uniforms.id) },
        );
        self.push_command(
            RenderCommand::SetBindGroup { index: 2, group: BindGroupSel::Frontend(light.id) },
        );
        self.push_command(
            RenderCommand::DrawIndexed {
                index_start: 0,
                index_end: mesh.num_elements,
                base_vertex: 0,
                instance_start: instances.start,
                instance_end: instances.end,
            },
        );
        proof {
            assert(self.log() =~= old(self).log() + mesh_draw_commands(
                mesh@,
                material@.name,
                instances.start,
                instances.end,
                uniforms.id,
                light.id,
            ));
        }
    }

    fn draw_model(&mut self, model: &Model, uniforms: &GpuBindGroup, light: &GpuBindGroup) {
        self.draw_model_instanced(model, 0u32..1u32, uniforms, light);
    }

    fn draw_model_instanced(
        &mut self,
        model: &Model,
        instances: Range<u32>,
        uniforms: &GpuBindGroup,
        light: &GpuBindGroup,
    ) {
        let mut i: usize = 0;
        while i < model.meshes.len()
            invariant
                i <= model.meshes@.len(),
                model.wf(),
                self.log() == old(self).log() + model_draw_commands(
                    model.meshes@.take(i as int),
                    model.materials@,
                    instances.start,
                    instances.end,
                    uniforms.id,
                    light.id,
                ),
            decreases model.meshes@.len() - i,
        {
            let mesh = &model.meshes[i];
            let material = &model.materials[mesh.material];
            self.draw_mesh_instanced(
                mesh,
                material,
                instances.start..instances.end,
                uniforms,
                light,
            );
            proof {
                lemma_model_commands_push(
                    model.meshes@.take(i as int),
                    model.meshes@[i as int],
                    model.materials@,
                    instances.start,
                    instances.end,
                    uniforms.id,
                    light.id,
                );
                assert(model.meshes@.take(i as int).push(model.meshes@[i as int])
                    =~= model.meshes@.take(i + 1 as int));
            }
            i = i + 1;
        }
        proof {
            assert(model.meshes@.take(model.meshes@.len() as int) =~= model.meshes@);
        }
    }

    fn draw_model_instanced_with_material(
        &mut self,
        model: &Model,
        material: &Material,
        instances: Range<u32>,
        uniforms: &GpuBindGroup,
        light: &GpuBindGroup,
    ) {
        let mut i: usize = 0;
        while i < model.meshes.len()
            invariant
                i <= model.meshes@.len(),
                self.log() == old(self).log() + model_with_material_commands(
                    model.meshes@.take(i as int),
                    material@.name,
                    instances.start,
                    instances.end,
                    uniforms.id,
                    light.id,
                ),
            decreases model.meshes@.len() - i,
        {
            let mesh = &model.meshes[i];
            self.draw_mesh_instanced(
                mesh,
                material,
                instances.start..instances.end,
                uniforms,
                light,
            );
            proof {
                lemma_with_material_commands_push(
                    model.meshes@.take(i as int),
                    model.meshes@[i as int],
                    material@.name,
                    instances.start,
                    instances.end,
                    uniforms.id,
                    light.id,
                );
                assert(model.meshes@.take(i as int).push(model.meshes@[i as int])
                    =~= model.meshes@.take(i + 1 as int));
            }
            i = i + 1;
        }
        proof {
            assert(model.meshes@.take(model.meshes@.len() as int) =~= model.meshes@);
        }
    }
}

impl DrawLight for RenderPass {
    fn draw_light_mesh(&mut self, mesh: &Mesh, uniforms: &GpuBindGroup, light: &GpuBindGroup) {
        self.draw_light_mesh_instanced(mesh, 0u32..1u32, uniforms, light);
    }

    fn draw_light_mesh_instanced(
        &mut self,
        mesh: &Mesh,
        instances: Range<u32>,
        uniforms: &GpuBindGroup,
        light: &GpuBindGroup,
    ) {
        self.push_command(RenderCommand::SetVertexBuffer { slot: 0, mesh: mesh.name.clone() });
        self.push_command(RenderCommand::SetIndexBuffer { mesh: mesh.name.clone() });
        self.push_command(
            RenderCommand::SetBindGroup { index: 0, group: BindGroupSel::Frontend(uniforms.id) },
        );
        self.push_command(
            RenderCommand::SetBindGroup { index: 1, group: BindGroupSel::Frontend(light.id) },
        );
        self.push_command(
            RenderCommand::DrawIndexed {
                index_start: 0,
                index_end: mesh.num_elements,
                base_vertex: 0,
                instance_start: instances.start,
                instance_end: instances.end,
            },
        );
        proof {
            assert(self.log() =~= old(self).log() + light_mesh_commands(
                mesh@,
                instances.start,
                instances.end,
                uniforms.id,
                light.id,
            ));
        }
    }

    fn draw_light_model(&mut self, model: &Model, uniforms: &GpuBindGroup, light: &GpuBindGroup) {
        self.draw_light_model_instanced(model, 0u32..1u32, uniforms, light);
    }

    fn draw_light_model_instanced(
        &mut self,
        model: &Model,
        instances: Range<u32>,
        uniforms: &GpuBindGroup,
        light: &GpuBindGroup,
    ) {
        let mut i: usize = 0;
        while i < model.meshes.len()
            invariant
                i <= model.meshes@.len(),
                self.log() == old(self).log() + light_model_commands(
                    model.meshes@.take(i as int),
                    instances.start,
                    instances.end,
                    uniforms.id,
                    light.id,
                ),
            decreases model.meshes@.len() - i,
        {
            let mesh = &model.meshes[i];
            self.draw_light_mesh_instanced(
                mesh,
                instances.start..instances.end,
                uniforms,
                light,
            );
            proof {
                lemma_light_commands_push(
                    model.meshes@.take(i as int),
                    model.meshes@[i as int],
                    instances.start,
                    instances.end,
                    uniforms.id,
                    light.id,
                );
                assert(model.meshes@.take(i as int).push(model.meshes@[i as int])
                    =~= model.meshes@.take(i + 1 as int));
            }
            i = i + 1;
        }
        proof {
            assert(model.meshes@.take(model.meshes@.len() as int) =~= model.meshes@);
        }
    }
}

} // verus!
