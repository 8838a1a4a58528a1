use vstd::prelude::*;

use crate::binding::{Bindable, BindGroup, BindGroupEntry, BindGroupLayoutEntry, Binder,
    BindingResource, BindingType, Visibility};
use crate::error::LoadError;
use crate::geometry::{build_vertices, consistent_arrays, pack_vertices, packed, vertices_of,
    MeshRecord, MeshRecordView};

verus! {

/// What a buffer may be used for on the device.
#[derive(Clone, Copy, Debug, PartialEq, Eq, Structural)]
pub struct BufferUsage {
    pub vertex: bool,
    pub index: bool,
    pub storage: bool,
}

/// Usage of a mesh's vertex buffer: rendered as vertex input and written in
/// place by the tangent-space compute pass.
pub open spec fn vertex_buffer_usage() -> BufferUsage {
    BufferUsage { vertex: true, index: false, storage: true }
}

/// Usage of a mesh's index buffer: rendered as index input and read by the
/// tangent-space compute pass.
pub open spec fn index_buffer_usage() -> BufferUsage {
    BufferUsage { vertex: false, index: true, storage: true }
}

/// A device-resident buffer, modelled by the 32-bit words uploaded to it and
/// the usage it was created with.
pub struct BufferInit {
    pub contents: Vec<u32>,
    pub usage: BufferUsage,
}

/// The mathematical value of a `BufferInit`.
#[verifier::ext_equal]
pub ghost struct BufferInitView {
    pub contents: Seq<u32>,
    pub usage: BufferUsage,
}

impl View for BufferInit {
    type V = BufferInitView;

    open spec fn view(&self) -> BufferInitView {
        BufferInitView { contents: self.contents@, usage: self.usage }
    }
}

/// One renderable sub-mesh: its packed vertex buffer, its index buffer, the
/// number of indices to draw, and the slot of its material in the owning
/// model's material list.
pub struct Mesh {
    pub name: String,
    pub vertex_buffer: BufferInit,
    pub index_buffer: BufferInit,
    pub num_elements: u32,
    pub material: usize,
}

/// The mathematical value of a `Mesh`.
#[verifier::ext_equal]
pub ghost struct MeshView {
    pub name: Seq<char>,
    pub vertex_buffer: BufferInitView,
    pub index_buffer: BufferInitView,
    pub num_elements: u32,
    pub material: usize,
}

impl View for Mesh {
    type V = MeshView;

    open spec fn view(&self) -> MeshView {
        MeshView {
            name: self.name@,
            vertex_buffer: self.vertex_buffer@,
            index_buffer: self.index_buffer@,
            num_elements: self.num_elements,
            material: self.material,
        }
    }
}

/// The material slot a record resolves to: the declared one, or slot zero
/// when the record declares none.
pub open spec fn spec_material_slot(material_id: Option<usize>) -> usize {
    match material_id {
        Some(m) => m,
        None => 0,
    }
}

/// What building a mesh from a record yields, given how many materials the
/// model has.  Inconsistent geometry arrays are malformed mesh data; a
/// resolved material slot outside the material list is a parse error, since
/// the draw layer must be able to resolve every mesh's material.
pub open spec fn build_mesh_spec(rec: MeshRecordView, n_materials: int) -> Result<
    MeshView,
    LoadError,
> {
    if !consistent_arrays(rec.positions, rec.texcoords, rec.normals) {
        Err(LoadError::MalformedMeshData)
    } else if spec_material_slot(rec.material_id) >= n_materials {
        Err(LoadError::AssetParseError)
    } else {
        Ok(
            MeshView {
                name: rec.name,
                vertex_buffer: BufferInitView {
                    contents: packed(vertices_of(rec.positions, rec.texcoords, rec.normals)),
                    usage: vertex_buffer_usage(),
                },
                index_buffer: BufferInitView {
                    contents: rec.indices,
                    usage: index_buffer_usage(),
                },
                num_elements: rec.indices.len() as u32,
                material: spec_material_slot(rec.material_id),
            },
        )
    }
}

/// A mesh build outcome, viewed mathematically.
pub open spec fn mesh_result_view(r: Result<Mesh, LoadError>) -> Result<MeshView, LoadError> {
    match r {
        Ok(m) => Ok(m@),
        Err(e) => Err(e),
    }
}

/// Build one mesh from a parsed record: pack its vertices, upload-shape its
/// two buffers with render-plus-storage usage, and resolve its material
/// slot.  The element count is the index count; a record with no faces
/// yields an empty, still valid draw range.
pub fn build_mesh(rec: &MeshRecord, n_materials: usize) -> (r: Result<Mesh, LoadError>)
    requires
        rec.indices@.len() <= u32::MAX,
    ensures
        mesh_result_view(r) == build_mesh_spec(rec@, n_materials as int),
{
    let vertices = match build_vertices(&rec.positions, &rec.texcoords, &rec.normals) {
        Ok(v) => v,
        Err(e) => {
            return Err(e);
        },
    };
    let material = match rec.material_id {
        Some(m) => m,
        None => 0,
    };
    if material >= n_materials {
        return Err(LoadError::AssetParseError);
    }
    let vertex_data = pack_vertices(&vertices);
    let mesh = Mesh {
        name: rec.name.clone(),
        vertex_buffer: BufferInit {
            contents: vertex_data,
            usage: BufferUsage { vertex: true, index: false, storage: true },
        },
        index_buffer: BufferInit {
            contents: rec.indices.clone(),
            usage: BufferUsage { vertex: false, index: true, storage: true },
        },
        num_elements: rec.indices.len() as u32,
        material,
    };
    proof {
        assert(mesh.index_buffer.contents@ =~= rec.indices@);
        assert(mesh@ =~= build_mesh_spec(rec@, n_materials as int)->Ok_0);
    }
    Ok(mesh)
}

impl Bindable for Mesh {
    /// The compute pass's two slots: binding 0 is the vertex buffer, which
    /// the tangent pass writes; binding 1 is the index buffer, which it only
    /// reads.  Both are visible to compute stages alone.
    open spec fn spec_layout_entries() -> Seq<BindGroupLayoutEntry> {
        seq![
            BindGroupLayoutEntry {
                binding: 0,
                visibility: Visibility::Compute,
                ty: BindingType::StorageBuffer { read_only: false },
            },
            BindGroupLayoutEntry {
                binding: 1,
                visibility: Visibility::Compute,
                ty: BindingType::StorageBuffer { read_only: true },
            },
        ]
    }

    /// The mesh's buffers, wired to distinct slots: vertices at binding 0,
    /// indices at binding 1, matching the declared layout one to one.
    open spec fn spec_bind_group_entries(&self) -> Seq<BindGroupEntry> {
        seq![
            BindGroupEntry { binding: 0, resource: BindingResource::VertexBuffer },
            BindGroupEntry { binding: 1, resource: BindingResource::IndexBuffer },
        ]
    }

    fn layout_entries() -> (r: Vec<BindGroupLayoutEntry>) {
        let mut r: Vec<BindGroupLayoutEntry> = Vec::new();
        r.push(
            BindGroupLayoutEntry {
                binding: 0,
                visibility: Visibility::Compute,
                ty: BindingType::StorageBuffer { read_only: false },
            },
        );
        r.push(
            BindGroupLayoutEntry {
                binding: 1,
                visibility: Visibility::Compute,
                ty: BindingType::StorageBuffer { read_only: true },
            },
        );
        proof {
            assert(r@ =~= Self::spec_layout_entries());
        }
        r
    }

    fn bind_group_entries(&self) -> (r: Vec<BindGroupEntry>) {
        let mut r: Vec<BindGroupEntry> = Vec::new();
        r.push(BindGroupEntry { binding: 0, resource: BindingResource::VertexBuffer });
        r.push(BindGroupEntry { binding: 1, resource: BindingResource::IndexBuffer });
        proof {
            assert(r@ =~= self.spec_bind_group_entries());
        }
        r
    }
}

/// One step the load pipeline asks the device runner to perform for a mesh's
/// tangent-space pass.
#[derive(Clone, Copy, Debug, PartialEq, Eq, Structural)]
pub enum ComputeStep {
    /// Dispatch the tangent compute pipeline over the bound mesh.
    Dispatch { workgroups_x: u32, workgroups_y: u32, workgroups_z: u32 },
    /// Block until the device is idle, so that no render pass can observe a
    /// partially computed vertex buffer.
    AwaitDeviceIdle,
}

/// The planned tangent-space pass of one mesh: the bind group wiring its
/// buffers to the compute pipeline, and the steps to run, in order.
pub struct TangentPass {
    pub bind_group: BindGroup,
    pub steps: Vec<ComputeStep>,
}

/// The mathematical value of a `TangentPass`.
#[verifier::ext_equal]
pub ghost struct TangentPassView {
    pub bind_group: Seq<BindGroupEntry>,
    pub steps: Seq<ComputeStep>,
}

impl View for TangentPass {
    type V = TangentPassView;

    open spec fn view(&self) -> TangentPassView {
        TangentPassView { bind_group: self.bind_group@, steps: self.steps@ }
    }
}

/// The steps of a mesh's tangent pass: one workgroup per triangle — the
/// index count divided by three — followed by a blocking wait for the
/// device, after which the mesh is usable.
pub open spec fn tangent_pass_steps(num_elements: u32) -> Seq<ComputeStep> {
    seq![
        ComputeStep::Dispatch {
            workgroups_x: (num_elements / 3) as u32,
            workgroups_y: 1,
            workgroups_z: 1,
        },
        ComputeStep::AwaitDeviceIdle,
    ]
}

/// Plan the tangent-space compute pass of one mesh: bind its buffers through
/// the binder and dispatch one workgroup per triangle, then wait until the
/// device is idle.
pub fn plan_tangent_pass(mesh: &Mesh, binder: &Binder<Mesh>) -> (r: TangentPass)
    ensures
        r@.bind_group == mesh.spec_bind_group_entries(),
        r@.steps == tangent_pass_steps(mesh.num_elements),
{
    let bind_group = binder.create_bind_group(mesh);
    let mut steps: Vec<ComputeStep> = Vec::new();
    steps.push(
        ComputeStep::Dispatch {
            workgroups_x: mesh.num_elements / 3,
            workgroups_y: 1,
            workgroups_z: 1,
        },
    );
    steps.push(ComputeStep::AwaitDeviceIdle);
    proof {
        assert(steps@ =~= tangent_pass_steps(mesh.num_elements));
    }
    TangentPass { bind_group, steps }
}

} // verus!
