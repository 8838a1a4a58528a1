use vstd::prelude::*;

use crate::error::LoadError;

verus! {

/// Number of 32-bit scalars in one packed vertex record.
pub const SCALARS_PER_VERTEX: usize = 14;

/// One vertex of the packed layout the render and compute pipelines share:
/// position (3 scalars), texture coordinate (2), normal (3), tangent (3) and
/// bitangent (3), in this order and with nothing in between.
///
/// Geometry scalars are carried as opaque 32-bit words: the loader never
/// interprets them numerically, it only packs them.  The tangent and
/// bitangent slots are zeroed at build time and filled on the device by the
/// tangent-space compute pass.
#[derive(Clone, Copy, Debug, PartialEq, Eq, Structural)]
pub struct ModelVertex {
    pub position_x: u32,
    pub position_y: u32,
    pub position_z: u32,
    pub tex_u: u32,
    pub tex_v: u32,
    pub normal_x: u32,
    pub normal_y: u32,
    pub normal_z: u32,
    pub tangent_x: u32,
    pub tangent_y: u32,
    pub tangent_z: u32,
    pub bitangent_x: u32,
    pub bitangent_y: u32,
    pub bitangent_z: u32,
}

/// The scalars of one vertex, in buffer order.
pub open spec fn scalars_of(v: ModelVertex) -> Seq<u32> {
    seq![
        v.position_x, v.position_y, v.position_z,
        v.tex_u, v.tex_v,
        v.normal_x, v.normal_y, v.normal_z,
        v.tangent_x, v.tangent_y, v.tangent_z,
        v.bitangent_x, v.bitangent_y, v.bitangent_z,
    ]
}

/// The contents of a vertex buffer: every vertex's scalars, concatenated.
pub open spec fn packed(vs: Seq<ModelVertex>) -> Seq<u32>
    decreases vs.len(),
{
    if vs.len() == 0 {
        Seq::empty()
    } else {
        scalars_of(vs[0]) + packed(vs.drop_first())
    }
}

/// The element type of a vertex attribute: two or three 32-bit scalars.
#[derive(Clone, Copy, Debug, PartialEq, Eq, Structural)]
pub enum AttributeFormat {
    Vec2,
    Vec3,
}

impl AttributeFormat {
    /// Size of one attribute of this format, in bytes.
    pub open spec fn spec_size_bytes(self) -> u64 {
        match self {
            AttributeFormat::Vec2 => 8,
            AttributeFormat::Vec3 => 12,
        }
    }

    /// Size of one attribute of this format, in bytes.
    pub fn size_bytes(self) -> (r: u64)
        ensures
            r == self.spec_size_bytes(),
    {
        match self {
            AttributeFormat::Vec2 => 8,
            AttributeFormat::Vec3 => 12,
        }
    }
}

/// How the device steps through a vertex buffer: to the next record once
/// per vertex, or once per instance.
#[derive(Clone, Copy, Debug, PartialEq, Eq, Structural)]
pub enum StepMode {
    Vertex,
    Instance,
}

/// One attribute of a vertex buffer layout: where it starts inside a vertex
/// record and which shader location reads it.
#[derive(Clone, Copy, Debug, PartialEq, Eq, Structural)]
pub struct VertexAttribute {
    pub offset: u64,
    pub shader_location: u32,
    pub format: AttributeFormat,
}

/// How a vertex buffer is walked by the device: the distance between two
/// vertex records and the attributes inside one record.
pub struct VertexBufferLayout {
    pub array_stride: u64,
    pub step_mode: StepMode,
    pub attributes: Vec<VertexAttribute>,
}

/// The mathematical value of a `VertexBufferLayout`.
#[verifier::ext_equal]
pub ghost struct VertexBufferLayoutView {
    pub array_stride: u64,
    pub step_mode: StepMode,
    pub attributes: Seq<VertexAttribute>,
}

impl View for VertexBufferLayout {
    type V = VertexBufferLayoutView;

    open spec fn view(&self) -> VertexBufferLayoutView {
        VertexBufferLayoutView {
            array_stride: self.array_stride,
            step_mode: self.step_mode,
            attributes: self.attributes@,
        }
    }
}

impl VertexBufferLayoutView {
    /// A layout is well formed when its attributes are contiguous — each one
    /// starts exactly where the previous one ends — the stride covers them
    /// exactly, and shader locations count up from zero.  Any gap or overlap
    /// here would be a silent correctness bug in the shader, not a caught
    /// error, so constructors prove it once and for all.
    pub open spec fn wf(self) -> bool {
        &&& self.attributes.len() > 0
        &&& self.attributes[0].offset == 0
        &&& forall|i: int|
            1 <= i < self.attributes.len() ==> (#[trigger] self.attributes[i]).offset
                == self.attributes[i - 1].offset + self.attributes[i - 1].format.spec_size_bytes()
        &&& self.array_stride == self.attributes.last().offset
            + self.attributes.last().format.spec_size_bytes()
        &&& forall|i: int|
            0 <= i < self.attributes.len() ==> self.attributes[i].shader_location == i
    }
}

/// A vertex type that can describe its own buffer layout to the device.
pub trait Vertex {
    /// The layout this vertex type promises to the shaders.
    spec fn spec_desc() -> VertexBufferLayoutView;

    /// Produce the layout descriptor.  Every implementation must return a
    /// well-formed layout: contiguous offsets, exact stride, counted shader
    /// locations.
    fn desc() -> (r: VertexBufferLayout)
        ensures
            r@ == Self::spec_desc(),
            Self::spec_desc().wf(),
    ;
}

impl Vertex for ModelVertex {
    open spec fn spec_desc() -> VertexBufferLayoutView {
        VertexBufferLayoutView {
            array_stride: 56,
            step_mode: StepMode::Vertex,
            attributes: seq![
                VertexAttribute { offset: 0, shader_location: 0, format: AttributeFormat::Vec3 },
                VertexAttribute { offset: 12, shader_location: 1, format: AttributeFormat::Vec2 },
                VertexAttribute { offset: 20, shader_location: 2, format: AttributeFormat::Vec3 },
                VertexAttribute { offset: 32, shader_location: 3, format: AttributeFormat::Vec3 },
                VertexAttribute { offset: 44, shader_location: 4, format: AttributeFormat::Vec3 },
            ],
        }
    }

    fn desc() -> (r: VertexBufferLayout) {
        let mut attributes: Vec<VertexAttribute> = Vec::new();
        attributes.push(
            VertexAttribute { offset: 0, shader_location: 0, format: AttributeFormat::Vec3 },
        );
        attributes.push(
            VertexAttribute { offset: 12, shader_location: 1, format: AttributeFormat::Vec2 },
        );
        attributes.push(
            VertexAttribute { offset: 20, shader_location: 2, format: AttributeFormat::Vec3 },
        );
        attributes.push(
            VertexAttribute { offset: 32, shader_location: 3, format: AttributeFormat::Vec3 },
        );
        attributes.push(
            VertexAttribute { offset: 44, shader_location: 4, format: AttributeFormat::Vec3 },
        );
        let r = VertexBufferLayout { array_stride: 56, step_mode: StepMode::Vertex, attributes };
        proof {
            assert(r@.attributes =~= Self::spec_desc().attributes);
            assert(r@ =~= Self::spec_desc());
        }
        r
    }
}

/// One sub-mesh of a parsed asset, as plain values: flat geometry arrays,
/// triangle indices, and the material slot the sub-mesh declares, if any.
pub struct MeshRecord {
    pub name: String,
    pub positions: Vec<u32>,
    pub texcoords: Vec<u32>,
    pub normals: Vec<u32>,
    pub indices: Vec<u32>,
    pub material_id: Option<usize>,
}

/// The mathematical value of a `MeshRecord`.
#[verifier::ext_equal]
pub ghost struct MeshRecordView {
    pub name: Seq<char>,
    pub positions: Seq<u32>,
    pub texcoords: Seq<u32>,
    pub normals: Seq<u32>,
    pub indices: Seq<u32>,
    pub material_id: Option<usize>,
}

impl View for MeshRecord {
    type V = MeshRecordView;

    open spec fn view(&self) -> MeshRecordView {
        MeshRecordView {
            name: self.name@,
            positions: self.positions@,
            texcoords: self.texcoords@,
            normals: self.normals@,
            indices: self.indices@,
            material_id: self.material_id,
        }
    }
}

/// The flat geometry arrays describe the same vertex count: three position
/// scalars and three normal scalars per vertex, two texture coordinates.
pub open spec fn consistent_arrays(positions: Seq<u32>, texcoords: Seq<u32>, normals: Seq<u32>) -> bool {
    &&& positions.len() % 3 == 0
    &&& texcoords.len() % 2 == 0
    &&& texcoords.len() / 2 == positions.len() / 3
    &&& normals.len() == positions.len()
}

/// Vertex `i` of consistent geometry arrays, with tangent and bitangent
/// zeroed for the compute pass to fill.
pub open spec fn vertex_at(
    positions: Seq<u32>,
    texcoords: Seq<u32>,
    normals: Seq<u32>,
    i: int,
) -> ModelVertex {
    ModelVertex {
        position_x: positions[3 * i],
        position_y: positions[3 * i + 1],
        position_z: positions[3 * i + 2],
        tex_u: texcoords[2 * i],
        tex_v: texcoords[2 * i + 1],
        normal_x: normals[3 * i],
        normal_y: normals[3 * i + 1],
        normal_z: normals[3 * i + 2],
        tangent_x: 0,
        tangent_y: 0,
        tangent_z: 0,
        bitangent_x: 0,
        bitangent_y: 0,
        bitangent_z: 0,
    }
}

/// All vertices of consistent geometry arrays, in order.
pub open spec fn vertices_of(positions: Seq<u32>, texcoords: Seq<u32>, normals: Seq<u32>) -> Seq<
    ModelVertex,
> {
    Seq::new((positions.len() / 3) as nat, |i: int| vertex_at(positions, texcoords, normals, i))
}

/// Build the ordered vertex records of one mesh from its flat geometry
/// arrays, or reject mutually inconsistent arrays.
pub fn build_vertices(
    positions: &Vec<u32>,
    texcoords: &Vec<u32>,
    normals: &Vec<u32>,
) -> (r: Result<Vec<ModelVertex>, LoadError>)
    ensures
        r is Ok <==> consistent_arrays(positions@, texcoords@, normals@),
        r is Ok ==> r->Ok_0@ == vertices_of(positions@, texcoords@, normals@),
        r is Err ==> r->Err_0 == LoadError::MalformedMeshData,
{
    let n: usize = positions.len() / 3;
    if !(positions.len() % 3 == 0 && texcoords.len() % 2 == 0 && texcoords.len() / 2 == n
        && normals.len() == positions.len()) {
        return Err(LoadError::MalformedMeshData);
    }
    proof {
        vstd::arithmetic::div_mod::lemma_fundamental_div_mod(positions@.len() as int, 3);
        vstd::arithmetic::div_mod::lemma_fundamental_div_mod(texcoords@.len() as int, 2);
        assert(positions@.len() == 3 * n);
        assert(texcoords@.len() == 2 * n);
    }
    let plen: usize = positions.len();
    let tlen: usize = texcoords.len();
    let mut out: Vec<ModelVertex> = Vec::new();
    let mut i: usize = 0;
    while i < n
        invariant
            i <= n,
            plen == positions@.len(),
            tlen == texcoords@.len(),
            3 * n == positions@.len(),
            2 * n == texcoords@.len(),
            normals@.len() == positions@.len(),
            out@.len() == i,
            forall|j: int|
                0 <= j < i ==> out@[j] == vertex_at(positions@, texcoords@, normals@, j),
        decreases n - i,
    {
        let v = ModelVertex {
            position_x: positions[3 * i],
            position_y: positions[3 * i + 1],
            position_z: positions[3 * i + 2],
            tex_u: texcoords[2 * i],
            tex_v: texcoords[2 * i + 1],
            normal_x: normals[3 * i],
            normal_y: normals[3 * i + 1],
            normal_z: normals[3 * i + 2],
            tangent_x: 0,
            tangent_y: 0,
            tangent_z: 0,
            bitangent_x: 0,
            bitangent_y: 0,
            bitangent_z: 0,
        };
        out.push(v);
        i = i + 1;
    }
    proof {
        assert(out@ =~= vertices_of(positions@, texcoords@, normals@));
    }
    Ok(out)
}

/// Append the scalars of one vertex to a buffer under construction.
fn push_vertex_scalars(data: &mut Vec<u32>, v: &ModelVertex)
    ensures
        final(data)@ == old(data)@ + scalars_of(*v),
{
    data.push(v.position_x);
    data.push(v.position_y);
    data.push(v.position_z);
    data.push(v.tex_u);
    data.push(v.tex_v);
    data.push(v.normal_x);
    data.push(v.normal_y);
    data.push(v.normal_z);
    data.push(v.tangent_x);
    data.push(v.tangent_y);
    data.push(v.tangent_z);
    data.push(v.bitangent_x);
    data.push(v.bitangent_y);
    data.push(v.bitangent_z);
    proof {
        assert(data@ =~= old(data)@ + scalars_of(*v));
    }
}

/// Appending a vertex to a sequence appends its scalars to the packed data.
pub proof fn lemma_packed_push(vs: Seq<ModelVertex>, v: ModelVertex)
    ensures
        packed(vs.push(v)) == packed(vs) + scalars_of(v),
    decreases vs.len(),
{
    if vs.len() == 0 {
        assert(vs.push(v)[0] == v);
        assert(vs.push(v).drop_first() =~= Seq::<ModelVertex>::empty());
        assert(packed(vs.push(v)) == scalars_of(v) + packed(Seq::<ModelVertex>::empty()));
        assert(packed(vs.push(v)) =~= packed(vs) + scalars_of(v));
    } else {
        assert(vs.push(v)[0] == vs[0]);
        assert(vs.push(v).drop_first() =~= vs.drop_first().push(v));
        lemma_packed_push(vs.drop_first(), v);
        assert(packed(vs.push(v)) == scalars_of(vs[0]) + (packed(vs.drop_first())
            + scalars_of(v)));
        assert(packed(vs.push(v)) =~= packed(vs) + scalars_of(v));
    }
}

/// Packed data has a fixed record size, and vertex `i`'s scalars stand at
/// words `SCALARS_PER_VERTEX * i` onward.
pub proof fn lemma_packed_index(vs: Seq<ModelVertex>, i: int)
    requires
        0 <= i < vs.len(),
    ensures
        packed(vs).len() == SCALARS_PER_VERTEX * vs.len(),
        packed(vs).subrange(
            SCALARS_PER_VERTEX * i,
            SCALARS_PER_VERTEX * i + SCALARS_PER_VERTEX,
        ) == scalars_of(vs[i]),
    decreases vs.len(),
{
    lemma_packed_len(vs);
    if i == 0 {
        assert(packed(vs).subrange(0, SCALARS_PER_VERTEX as int) =~= scalars_of(vs[0]));
    } else {
        lemma_packed_index(vs.drop_first(), i - 1);
        lemma_packed_len(vs.drop_first());
        assert(packed(vs).subrange(
            SCALARS_PER_VERTEX * i,
            SCALARS_PER_VERTEX * i + SCALARS_PER_VERTEX,
        ) =~= packed(vs.drop_first()).subrange(
            SCALARS_PER_VERTEX * (i - 1),
            SCALARS_PER_VERTEX * (i - 1) + SCALARS_PER_VERTEX,
        ));
    }
}

/// Packed data holds exactly `SCALARS_PER_VERTEX` words per vertex.
pub proof fn lemma_packed_len(vs: Seq<ModelVertex>)
    ensures
        packed(vs).len() == SCALARS_PER_VERTEX * vs.len(),
    decreases vs.len(),
{
    if vs.len() > 0 {
        lemma_packed_len(vs.drop_first());
    }
}

/// Pack vertex records into the flat buffer contents the device receives.
pub fn pack_vertices(vs: &Vec<ModelVertex>) -> (r: Vec<u32>)
    ensures
        r@ == packed(vs@),
{
    let mut data: Vec<u32> = Vec::new();
    let mut i: usize = 0;
    while i < vs.len()
        invariant
            i <= vs@.len(),
            data@ == packed(vs@.take(i as int)),
        decreases vs@.len() - i,
    {
        push_vertex_scalars(&mut data, &vs[i]);
        proof {
            lemma_packed_push(vs@.take(i as int), vs@[i as int]);
            assert(vs@.take(i as int).push(vs@[i as int]) =~= vs@.take(i + 1 as int));
        }
        i = i + 1;
    }
    proof {
        assert(vs@.take(vs@.len() as int) =~= vs@);
    }
    data
}

/// Law: the layout `ModelVertex::desc` declares matches the packed vertex
/// data exactly.  For every vertex `i` and attribute `a`, the words the
/// layout addresses — stride words times `i`, plus the attribute's offset in
/// words — are exactly the corresponding scalars of vertex `i`.  A shader
/// walking the buffer by this layout therefore reads each field from where
/// the packer put it.
pub proof fn lemma_layout_matches_packing(vs: Seq<ModelVertex>, i: int, a: int)
    requires
        0 <= i < vs.len(),
        0 <= a < ModelVertex::spec_desc().attributes.len(),
    ensures
        ({
            let layout = ModelVertex::spec_desc();
            let attr = layout.attributes[a];
            let stride_words = layout.array_stride / 4;
            let start = stride_words * i + attr.offset / 4;
            packed(vs).subrange(start as int, start as int + attr.format.spec_size_bytes() / 4)
                == scalars_of(vs[i]).subrange(
                attr.offset as int / 4,
                (attr.offset + attr.format.spec_size_bytes()) as int / 4,
            )
        }),
{
    let layout = ModelVertex::spec_desc();
    let attr = layout.attributes[a];
    lemma_packed_index(vs, i);
    assert(layout.array_stride / 4 == SCALARS_PER_VERTEX);
    let base = SCALARS_PER_VERTEX * i;
    let lo = attr.offset as int / 4;
    let hi = (attr.offset + attr.format.spec_size_bytes()) as int / 4;
    assert(0 <= lo <= hi <= SCALARS_PER_VERTEX);
    assert(packed(vs).subrange(base + lo, base + hi) =~= packed(vs).subrange(
        base,
        base + SCALARS_PER_VERTEX,
    ).subrange(lo, hi));
}

} // verus!
