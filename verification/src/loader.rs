use vstd::prelude::*;

use rayon::iter::{IntoParallelRefIterator, ParallelIterator};

use crate::binding::{BindGroupLayout, Bindable, Binder};
use crate::error::LoadError;
use crate::geometry::{MeshRecord, MeshRecordView};
use crate::material::{Material, MaterialView};
use crate::mesh::{build_mesh, build_mesh_spec, mesh_result_view, plan_tangent_pass,
    tangent_pass_steps, Mesh, MeshView, TangentPass};

verus! {

/// Every sub-task of a fan-out succeeded.
pub open spec fn all_ok<T>(rs: Seq<Result<T, LoadError>>) -> bool {
    forall|i: int| 0 <= i < rs.len() ==> (#[trigger] rs[i]) is Ok
}

/// Fan-in of a parallel fan-out: all values in order, or the first failure.
pub open spec fn collect_spec<T>(rs: Seq<Result<T, LoadError>>) -> Result<Seq<T>, LoadError>
    decreases rs.len(),
{
    if rs.len() == 0 {
        Ok(Seq::empty())
    } else {
        match rs[0] {
            Err(e) => Err(e),
            Ok(v) => match collect_spec(rs.drop_first()) {
                Err(e) => Err(e),
                Ok(rest) => Ok(Seq::empty().push(v) + rest),
            },
        }
    }
}

/// Law: a fan-in succeeds exactly when every sub-task succeeded, and then
/// yields every value, in the order of the sub-tasks.
pub proof fn lemma_collect_spec_ok<T>(rs: Seq<Result<T, LoadError>>)
    ensures
        collect_spec(rs) is Ok <==> all_ok(rs),
        collect_spec(rs) is Ok ==> collect_spec(rs)->Ok_0 == rs.map_values(
            |x: Result<T, LoadError>| x->Ok_0,
        ),
    decreases rs.len(),
{
    if rs.len() == 0 {
        assert(all_ok(rs));
        assert(collect_spec(rs)->Ok_0 =~= rs.map_values(|x: Result<T, LoadError>| x->Ok_0));
    } else {
        lemma_collect_spec_ok(rs.drop_first());
        if rs[0] is Ok {
            assert(all_ok(rs.drop_first()) ==> all_ok(rs)) by {
                if all_ok(rs.drop_first()) {
                    assert forall|i: int| 0 <= i < rs.len() implies (#[trigger] rs[i]) is Ok by {
                        if i > 0 {
                            assert(rs.drop_first()[i - 1] is Ok);
                        }
                    }
                }
            }
            assert(all_ok(rs) ==> all_ok(rs.drop_first())) by {
                if all_ok(rs) {
                    assert forall|i: int|
                        0 <= i < rs.drop_first().len() implies (#[trigger] rs.drop_first()[i]) is Ok by {
                        assert(rs[i + 1] is Ok);
                    }
                }
            }
            if collect_spec(rs) is Ok {
                assert(collect_spec(rs)->Ok_0 =~= rs.map_values(
                    |x: Result<T, LoadError>| x->Ok_0,
                ));
            }
        } else {
            assert(!all_ok(rs));
        }
    }
}

/// Law: a fan-in reports the error of the earliest failed sub-task: the one
/// before which every sub-task succeeded.
pub proof fn lemma_collect_spec_first_err<T>(rs: Seq<Result<T, LoadError>>, j: int)
    requires
        0 <= j < rs.len(),
        rs[j] is Err,
        forall|k: int| 0 <= k < j ==> (#[trigger] rs[k]) is Ok,
    ensures
        collect_spec(rs) == Err::<Seq<T>, LoadError>(rs[j]->Err_0),
    decreases rs.len(),
{
    if j == 0 {
    } else {
        assert(rs[0] is Ok);
        assert forall|k: int| 0 <= k < j - 1 implies (#[trigger] rs.drop_first()[k]) is Ok by {
            assert(rs[k + 1] is Ok);
        }
        assert(rs.drop_first()[j - 1] is Err);
        lemma_collect_spec_first_err(rs.drop_first(), j - 1);
    }
}

/// The mathematical values of a sequence of parsed records.
pub open spec fn record_views(records: Seq<MeshRecord>) -> Seq<MeshRecordView> {
    records.map_values(|r: MeshRecord| r@)
}

/// A material load outcome, viewed mathematically.
pub open spec fn material_result_view(r: Result<Material, LoadError>) -> Result<
    MaterialView,
    LoadError,
> {
    match r {
        Ok(m) => Ok(m@),
        Err(e) => Err(e),
    }
}

/// Material load outcomes, viewed mathematically.
pub open spec fn material_result_views(rs: Seq<Result<Material, LoadError>>) -> Seq<
    Result<MaterialView, LoadError>,
> {
    rs.map_values(|r: Result<Material, LoadError>| material_result_view(r))
}

/// The mathematical values of a sequence of meshes.
pub open spec fn mesh_views(ms: Seq<Mesh>) -> Seq<MeshView> {
    ms.map_values(|m: Mesh| m@)
}

/// The mathematical values of a sequence of materials.
pub open spec fn material_views(ms: Seq<Material>) -> Seq<MaterialView> {
    ms.map_values(|m: Material| m@)
}

/// What building every mesh of an asset yields, record by record.
pub open spec fn built_meshes_spec(records: Seq<MeshRecordView>, n_materials: int) -> Seq<
    Result<MeshView, LoadError>,
> {
    records.map_values(|rec: MeshRecordView| build_mesh_spec(rec, n_materials))
}

/// What assembling a model from parsed records and per-material load
/// outcomes yields: the first material failure, else the first mesh build
/// failure, else the finished mesh and material sequences.  The assembly is
/// a function of the records and outcomes alone, however its fan-out is
/// scheduled.
pub open spec fn load_spec(
    records: Seq<MeshRecordView>,
    material_results: Seq<Result<MaterialView, LoadError>>,
) -> Result<(Seq<MeshView>, Seq<MaterialView>), LoadError> {
    match collect_spec(material_results) {
        Err(e) => Err(e),
        Ok(mats) => match collect_spec(built_meshes_spec(records, mats.len() as int)) {
            Err(e) => Err(e),
            Ok(meshes) => Ok((meshes, mats)),
        },
    }
}

/// Collect a fan-out's outcomes, consuming them: every value in sub-task
/// order, or the first failure, which aborts the whole aggregate.
pub fn collect_results<T>(results: &mut Vec<Result<T, LoadError>>) -> (r: Result<
    Vec<T>,
    LoadError,
>)
    ensures
        r is Ok <==> all_ok(old(results)@),
        r is Ok ==> final(results)@.len() == 0,
        r is Ok ==> r->Ok_0@.len() == old(results)@.len() && forall|i: int|
            0 <= i < old(results)@.len() ==> r->Ok_0@[i] == (#[trigger] old(results)@[i])->Ok_0,
        r is Err ==> exists|j: int|
            0 <= j < old(results)@.len() && (#[trigger] old(results)@[j]) is Err && r->Err_0
                == old(results)@[j]->Err_0 && (forall|k: int|
                0 <= k < j ==> (#[trigger] old(results)@[k]) is Ok),
{
    let mut out: Vec<T> = Vec::new();
    while results.len() > 0
        invariant
            out@.len() <= old(results)@.len(),
            results@ == old(results)@.subrange(out@.len() as int, old(results)@.len() as int),
            forall|k: int|
                0 <= k < out@.len() ==> (#[trigger] old(results)@[k]) is Ok && out@[k] == old(
                    results,
                )@[k]->Ok_0,
        decreases results@.len(),
    {
        let ghost i = out@.len() as int;
        let x = results.remove(0);
        proof {
            assert(x == old(results)@[i]);
            assert(results@ =~= old(results)@.subrange(i + 1, old(results)@.len() as int));
        }
        match x {
            Ok(v) => {
                out.push(v);
            },
            Err(e) => {
                proof {
                    assert(0 <= i < old(results)@.len() && (#[trigger] old(results)@[i]) is Err
                        && e == old(results)@[i]->Err_0 && (forall|k: int|
                        0 <= k < i ==> (#[trigger] old(results)@[k]) is Ok));
                }
                return Err(e);
            },
        }
    }
    proof {
        assert(out@.len() == old(results)@.len());
        assert(all_ok(old(results)@));
    }
    Ok(out)
}

/// Relies on rayon's indexed parallel iterators: a parallel map over a
/// vector, collected, yields one outcome per record, in the input order.
/// Each sub-task is the library's own verified mesh builder.
#[verifier::external_body]
fn par_build_meshes(records: &Vec<MeshRecord>, n_materials: usize) -> (r: Vec<
    Result<Mesh, LoadError>,
>)
    requires
        forall|i: int| 0 <= i < records@.len() ==> (#[trigger] records@[i]).indices@.len()
            <= u32::MAX,
    ensures
        r@.len() == records@.len(),
        forall|i: int|
            0 <= i < r@.len() ==> mesh_result_view(#[trigger] r@[i]) == build_mesh_spec(
                records@[i]@,
                n_materials as int,
            ),
{
    records.par_iter().map(|rec| build_mesh(rec, n_materials)).collect()
}

/// A loaded model: its meshes and its materials, in asset order.  Each mesh
/// references its material by index into the material sequence.
pub struct Model {
    pub meshes: Vec<Mesh>,
    pub materials: Vec<Material>,
}

impl Model {
    /// Every mesh's material index resolves inside the material sequence,
    /// so the draw layer never indexes out of bounds.
    pub open spec fn wf(&self) -> bool {
        forall|i: int|
            0 <= i < self.meshes@.len() ==> (#[trigger] self.meshes@[i]).material
                < self.materials@.len()
    }
}

/// The compute pipeline the tangent passes run on, modelled by its binding
/// contract: the shader program itself is an opaque external artifact.
pub struct ComputePipeline {
    pub layout: BindGroupLayout,
}

/// Owns the mesh binder and the tangent compute pipeline, and assembles
/// models out of parsed records and texture load outcomes.
pub struct ModelLoader {
    pub binder: Binder<Mesh>,
    pub pipeline: ComputePipeline,
}

impl ModelLoader {
    /// Set up the mesh binder and a compute pipeline over its layout.
    pub fn new() -> (r: Self)
        ensures
            r.binder.layout@ == Mesh::spec_layout_entries(),
            r.pipeline.layout@ == Mesh::spec_layout_entries(),
    {
        let binder: Binder<Mesh> = Binder::new();
        let pipeline = ComputePipeline { layout: BindGroupLayout { entries: Mesh::layout_entries() } };
        ModelLoader { binder, pipeline }
    }

    /// Assemble a model: fan in the per-material texture load outcomes,
    /// build every mesh from its record in a parallel fan-out, and plan one
    /// tangent pass per mesh.  All or nothing: the first failed material,
    /// else the first failed mesh build, aborts the load, and no partial
    /// model is returned.  The outcome vector is consumed; on success it is
    /// left empty.  The result is a function of the records and outcomes
    /// alone: re-running the assembly yields the same model.
    pub fn load(
        &self,
        mesh_records: &Vec<MeshRecord>,
        material_results: &mut Vec<Result<Material, LoadError>>,
    ) -> (r: Result<(Model, Vec<TangentPass>), LoadError>)
        requires
            forall|i: int|
                0 <= i < mesh_records@.len() ==> (#[trigger] mesh_records@[i]).indices@.len()
                    <= u32::MAX,
        ensures
            ({
                let s = load_spec(
                    record_views(mesh_records@),
                    material_result_views(old(material_results)@),
                );
                match r {
                    Ok(p) => {
                        &&& s is Ok
                        &&& final(material_results)@.len() == 0
                        &&& mesh_views(p.0.meshes@) == s->Ok_0.0
                        &&& material_views(p.0.materials@) == s->Ok_0.1
                        &&& p.0.meshes@.len() == mesh_records@.len()
                        &&& p.0.wf()
                        &&& p.1@.len() == p.0.meshes@.len()
                        &&& forall|i: int|
                            0 <= i < p.1@.len() ==> (#[trigger] p.1@[i])@.bind_group
                                == p.0.meshes@[i].spec_bind_group_entries() && p.1@[i]@.steps
                                == tangent_pass_steps(p.0.meshes@[i].num_elements)
                    },
                    Err(e) => s is Err && e == s->Err_0,
                }
            }),
    {
        let ghost mat_views = material_result_views(old(material_results)@);
        let ghost rec_views = record_views(mesh_records@);
        let materials = match collect_results(material_results) {
            Ok(v) => v,
            Err(e) => {
                proof {
                    let j = choose|j: int|
                        0 <= j < old(material_results)@.len() && (#[trigger] old(
                            material_results,
                        )@[j]) is Err && e == old(material_results)@[j]->Err_0 && (forall|k: int|
                            0 <= k < j ==> (#[trigger] old(material_results)@[k]) is Ok);
                    assert(mat_views[j] is Err && mat_views[j]->Err_0 == e);
                    assert forall|k: int| 0 <= k < j implies (#[trigger] mat_views[k]) is Ok by {
                        assert(old(material_results)@[k] is Ok);
                    }
                    lemma_collect_spec_first_err(mat_views, j);
                }
                return Err(e);
            },
        };
        proof {
            assert forall|i: int|
                0 <= i < mat_views.len() implies (#[trigger] mat_views[i]) is Ok by {
                assert(old(material_results)@[i] is Ok);
            }
            lemma_collect_spec_ok(mat_views);
            assert(material_views(materials@) =~= collect_spec(mat_views)->Ok_0);
        }
        let n_materials = materials.len();
        let mut mesh_results = par_build_meshes(mesh_records, n_materials);
        let ghost mesh_res = mesh_results@;
        let ghost built = built_meshes_spec(rec_views, n_materials as int);
        proof {
            assert forall|i: int|
                0 <= i < built.len() implies #[trigger] built[i] == mesh_result_view(
                mesh_res[i],
            ) by {
                assert(rec_views[i] == mesh_records@[i]@);
            }
        }
        let meshes = match collect_results(&mut mesh_results) {
            Ok(v) => v,
            Err(e) => {
                proof {
                    let j = choose|j: int|
                        0 <= j < mesh_res.len() && (#[trigger] mesh_res[j]) is Err && e
                            == mesh_res[j]->Err_0 && (forall|k: int|
                            0 <= k < j ==> (#[trigger] mesh_res[k]) is Ok);
                    assert(built[j] is Err && built[j]->Err_0 == e);
                    assert forall|k: int| 0 <= k < j implies (#[trigger] built[k]) is Ok by {
                        assert(mesh_res[k] is Ok);
                    }
                    lemma_collect_spec_first_err(built, j);
                }
                return Err(e);
            },
        };
        proof {
            assert forall|i: int| 0 <= i < built.len() implies (#[trigger] built[i]) is Ok by {
                assert(mesh_res[i] is Ok);
            }
            lemma_collect_spec_ok(built);
            assert(mesh_views(meshes@) =~= collect_spec(built)->Ok_0) by {
                assert forall|i: int|
                    0 <= i < meshes@.len() implies mesh_views(meshes@)[i] == collect_spec(
                    built,
                )->Ok_0[i] by {
                    assert(meshes@[i] == mesh_res[i]->Ok_0);
                    assert(built[i] == mesh_result_view(mesh_res[i]));
                }
            }
        }
        let mut passes: Vec<TangentPass> = Vec::new();
        let mut i: usize = 0;
        while i < meshes.len()
            invariant
                i <= meshes@.len(),
                passes@.len() == i,
                forall|k: int|
                    0 <= k < i ==> (#[trigger] passes@[k])@.bind_group
                        == meshes@[k].spec_bind_group_entries() && passes@[k]@.steps
                        == tangent_pass_steps(meshes@[k].num_elements),
            decreases meshes@.len() - i,
        {
            let pass = plan_tangent_pass(&meshes[i], &self.binder);
            passes.push(pass);
            i = i + 1;
        }
        let model = Model { meshes, materials };
        proof {
            assert(model.wf()) by {
                assert forall|k: int|
                    0 <= k < model.meshes@.len() implies (#[trigger] model.meshes@[k]).material
                    < model.materials@.len() by {
                    assert(built[k] is Ok);
                    assert(model.meshes@[k]@ == built[k]->Ok_0);
                }
            }
        }
        Ok((model, passes))
    }
}

/// Law: the assembly phase is deterministic.  Whatever interleaving the
/// parallel fan-outs ran under, two assemblies of the same records and the
/// same per-material outcomes yield the same meshes, materials and errors.
pub proof fn lemma_assembly_deterministic(
    records_a: Seq<MeshRecordView>,
    material_results_a: Seq<Result<MaterialView, LoadError>>,
    records_b: Seq<MeshRecordView>,
    material_results_b: Seq<Result<MaterialView, LoadError>>,
)
    requires
        records_a == records_b,
        material_results_a == material_results_b,
    ensures
        load_spec(records_a, material_results_a) == load_spec(records_b, material_results_b),
{
}

/// Law: a model assembled from successful outcomes has one mesh per parsed
/// record, in record order, and every mesh's material index in bounds of
/// the material sequence, which carries the outcomes' materials in their
/// source order.
pub proof fn lemma_load_ok(
    records: Seq<MeshRecordView>,
    material_results: Seq<Result<MaterialView, LoadError>>,
)
    requires
        all_ok(material_results),
        forall|i: int|
            0 <= i < records.len() ==> (#[trigger] build_mesh_spec(
                records[i],
                material_results.len() as int,
            )) is Ok,
    ensures
        load_spec(records, material_results) is Ok,
        load_spec(records, material_results)->Ok_0.0.len() == records.len(),
        forall|i: int|
            0 <= i < records.len() ==> load_spec(records, material_results)->Ok_0.0[i]
                == (#[trigger] build_mesh_spec(records[i], material_results.len() as int))->Ok_0,
        load_spec(records, material_results)->Ok_0.1 == material_results.map_values(
            |x: Result<MaterialView, LoadError>| x->Ok_0,
        ),
        forall|i: int|
            0 <= i < records.len() ==> (#[trigger] load_spec(records, material_results)->Ok_0.0[i]).material < material_results.len(),
{
    lemma_collect_spec_ok(material_results);
    let mats = collect_spec(material_results)->Ok_0;
    assert(mats.len() == material_results.len());
    let built = built_meshes_spec(records, mats.len() as int);
    assert forall|i: int| 0 <= i < built.len() implies (#[trigger] built[i]) is Ok by {
        assert(built[i] == build_mesh_spec(records[i], mats.len() as int));
    }
    lemma_collect_spec_ok(built);
    assert forall|i: int|
        0 <= i < records.len() implies load_spec(records, material_results)->Ok_0.0[i]
        == (#[trigger] build_mesh_spec(records[i], material_results.len() as int))->Ok_0 by {
        assert(built[i] == build_mesh_spec(records[i], mats.len() as int));
    }
    assert forall|i: int|
        0 <= i < records.len() implies (#[trigger] load_spec(records, material_results)->Ok_0.0[i]).material < material_results.len() by {
        assert(built[i] == build_mesh_spec(records[i], mats.len() as int));
        assert(built[i] is Ok);
    }
}

/// Law: one failed material load fails the whole load with that failure,
/// even when every other outcome succeeded — no partial model survives.
pub proof fn lemma_load_first_material_error(
    records: Seq<MeshRecordView>,
    material_results: Seq<Result<MaterialView, LoadError>>,
    j: int,
)
    requires
        0 <= j < material_results.len(),
        material_results[j] is Err,
        forall|k: int| 0 <= k < j ==> (#[trigger] material_results[k]) is Ok,
    ensures
        load_spec(records, material_results) == Err::<(Seq<MeshView>, Seq<MaterialView>),
            LoadError,
        >(material_results[j]->Err_0),
{
    lemma_collect_spec_first_err(material_results, j);
}

} // verus!
