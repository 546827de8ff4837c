//! What the commands of the geometry pass amount to: which draw sees which state.

use vstd::multiset::Multiset;
use vstd::prelude::*;
use vstd::seq_lib::lemma_multiset_commutative;

use crate::scene::Model;
use crate::vulkan::command::{
    Command, DescriptorContents, Extent, Op, PushData, SetRef, SetRequest, ShaderStages, Viewport,
};
use crate::vulkan::gpass::{
    binds_material, binds_mesh, binds_pipeline, gpass_ops, material_ops, mesh_ops, model_ops,
    pipeline_ops, submesh_op, transform_op,
};
use crate::vulkan::render_order::{law_sorted_order_groups_models, sorted_by_key};

verus! {

/// Where a block of push constants goes.
pub struct PushPlace {
    pub layout: u64,
    pub stages: ShaderStages,
    pub offset: u32,
}

/// What is in force in a command buffer at some point of the geometry pass.
pub struct Bound {
    pub pipeline: Option<u64>,
    pub viewport: Option<Viewport>,
    /// The model whose material the set fetched last belongs to.
    pub fetched: Option<usize>,
    /// The material whose set is bound for the pipeline in force.
    pub material: Option<u64>,
    pub vertex_buffer: Option<u64>,
    pub index_buffer: Option<u64>,
    /// The model whose transform the shaders see.
    pub transform: Option<usize>,
    /// Where that transform was put.
    pub transform_place: Option<PushPlace>,
}

/// A draw, with the state that it sees.
pub struct DrawRecord {
    pub pipeline: Option<u64>,
    pub viewport: Option<Viewport>,
    pub material: Option<u64>,
    pub vertex_buffer: Option<u64>,
    pub index_buffer: Option<u64>,
    pub transform: Option<usize>,
    pub transform_place: Option<PushPlace>,
    pub first_index: u32,
    pub index_count: u32,
    pub vertex_offset: i32,
    pub first_instance: u32,
    pub instance_count: u32,
}

/// The state before anything is bound.
pub open spec fn nothing_bound() -> Bound {
    Bound {
        pipeline: None,
        viewport: None,
        fetched: None,
        material: None,
        vertex_buffer: None,
        index_buffer: None,
        transform: None,
        transform_place: None,
    }
}

/// The state after one more step. The set of a material is lost with a change of pipeline.
pub open spec fn after_op(models: Seq<Model>, bound: Bound, op: Op) -> Bound {
    match op {
        Op::FetchDescriptorSet(
            SetRequest { layout: _, contents: DescriptorContents::Material(index) },
        ) => Bound { fetched: Some(index), ..bound },
        Op::BindDescriptorSet { layout: _, first_set: 1, set: SetRef::Latest, dynamic_offset: _ } => Bound {
            material: match bound.fetched {
                Some(index) => Some(models[index as int].material),
                None => None,
            },
            ..bound
        },
        Op::Command(Command::BindPipeline { pipeline }) => Bound {
            pipeline: Some(pipeline),
            material: None,
            ..bound
        },
        Op::Command(Command::SetViewport(viewport)) => Bound { viewport: Some(viewport), ..bound },
        Op::Command(Command::BindVertexBuffer { buffer }) => Bound {
            vertex_buffer: Some(buffer),
            ..bound
        },
        Op::Command(Command::BindIndexBuffer { buffer }) => Bound {
            index_buffer: Some(buffer),
            ..bound
        },
        Op::Command(
            Command::PushConstants { layout, stages, offset, data: PushData::Transform(index) },
        ) => Bound {
            transform: Some(index),
            transform_place: Some(PushPlace { layout, stages, offset }),
            ..bound
        },
        _ => bound,
    }
}

/// The state after a run of steps.
pub open spec fn replay(models: Seq<Model>, start: Bound, ops: Seq<Op>) -> Bound
    decreases ops.len(),
{
    if ops.len() == 0 {
        start
    } else {
        after_op(models, replay(models, start, ops.drop_last()), ops.last())
    }
}

/// A draw in a given state.
pub open spec fn record(
    bound: Bound,
    first_index: u32,
    index_count: u32,
    vertex_offset: i32,
    first_instance: u32,
    instance_count: u32,
) -> DrawRecord {
    DrawRecord {
        pipeline: bound.pipeline,
        viewport: bound.viewport,
        material: bound.material,
        vertex_buffer: bound.vertex_buffer,
        index_buffer: bound.index_buffer,
        transform: bound.transform,
        transform_place: bound.transform_place,
        first_index,
        index_count,
        vertex_offset,
        first_instance,
        instance_count,
    }
}

/// The draws among a run of steps, in order.
pub open spec fn draw_log(models: Seq<Model>, start: Bound, ops: Seq<Op>) -> Seq<DrawRecord>
    decreases ops.len(),
{
    if ops.len() == 0 {
        Seq::empty()
    } else {
        let log = draw_log(models, start, ops.drop_last());
        match ops.last() {
            Op::Command(
                Command::DrawIndexed {
                    index_count,
                    instance_count,
                    first_index,
                    vertex_offset,
                    first_instance,
                },
            ) => log.push(
                record(
                    replay(models, start, ops.drop_last()),
                    first_index,
                    index_count,
                    vertex_offset,
                    first_instance,
                    instance_count,
                ),
            ),
            _ => log,
        }
    }
}

/// The pipeline of a model, if it is not the null handle.
pub open spec fn own_pipeline(model: Model) -> Option<u64> {
    if model.pipeline == 0 {
        None
    } else {
        Some(model.pipeline)
    }
}

/// The viewport that is set with the pipeline of a model: the whole image, from the bottom up.
pub open spec fn own_viewport(model: Model, extent: Extent) -> Option<Viewport> {
    if model.pipeline == 0 {
        None
    } else {
        Some(
            Viewport {
                x: 0,
                y: extent.height,
                width: extent.width,
                negated_height: extent.height,
                min_depth: 0,
                max_depth: 1,
            },
        )
    }
}

/// The draw of one part of the mesh of the model at `index`, with everything that is its own. The
/// null pipeline is never bound: a draw of a model that has it sees no pipeline, and no viewport,
/// which is set with a pipeline. One instance is drawn, the first, from the first vertex of the
/// mesh on, and the transform goes to the start of the block of the vertex shader.
pub open spec fn own_draw(
    models: Seq<Model>,
    index: usize,
    extent: Extent,
    submesh: (u32, u32),
) -> DrawRecord {
    let model = models[index as int];
    DrawRecord {
        pipeline: own_pipeline(model),
        viewport: own_viewport(model, extent),
        material: Some(model.material),
        vertex_buffer: Some(model.vertex_buffer),
        index_buffer: Some(model.index_buffer),
        transform: Some(index),
        transform_place: Some(
            PushPlace {
                layout: model.pipeline_layout,
                stages: ShaderStages { vertex: true, fragment: false },
                offset: 0,
            },
        ),
        first_index: submesh.0,
        index_count: submesh.1,
        vertex_offset: 0,
        first_instance: 0,
        instance_count: 1,
    }
}

/// The draws that the first `n` models of the order ask for: each part of each mesh once.
pub open spec fn wanted_draws(
    models: Seq<Model>,
    order: Seq<usize>,
    n: nat,
    extent: Extent,
) -> Seq<DrawRecord>
    decreases n,
{
    if n == 0 {
        Seq::empty()
    } else {
        wanted_draws(models, order, (n - 1) as nat, extent)
            + models[order[n - 1] as int].submeshes@.map_values(
            |submesh: (u32, u32)| own_draw(models, order[n - 1], extent, submesh),
        )
    }
}

/// Whether the numbers of the models are those of live objects: no material or mesh is at address
/// zero, and one mesh has one pair of buffers.
pub open spec fn live_objects(models: Seq<Model>) -> bool {
    &&& forall|i: int|
        0 <= i < models.len() ==> {
            &&& (#[trigger] models[i]).material != 0
            &&& models[i].mesh != 0
        }
    &&& forall|i: int, j: int|
        0 <= i < models.len() && 0 <= j < models.len() && (#[trigger] models[i]).mesh == (
        #[trigger] models[j]).mesh ==> models[i].vertex_buffer == models[j].vertex_buffer
            && models[i].index_buffer == models[j].index_buffer
}

/// Whether the models with the null pipeline come first in an order, and nothing was bound where
/// they do. A sorted order has them first.
pub open spec fn null_pipelines_first(models: Seq<Model>, order: Seq<usize>, start: Bound) -> bool {
    &&& forall|j: int, k: int|
        0 <= j < k < order.len() && models[#[trigger] order[k] as int].pipeline == 0
            ==> models[#[trigger] order[j] as int].pipeline == 0
    &&& order.len() > 0 && models[order[0] as int].pipeline == 0 ==> start.pipeline is None
        && start.viewport is None
}

pub(crate) proof fn lemma_replay_concat(models: Seq<Model>, start: Bound, a: Seq<Op>, b: Seq<Op>)
    ensures
        replay(models, start, a + b) == replay(models, replay(models, start, a), b),
        draw_log(models, start, a + b) == draw_log(models, start, a) + draw_log(
            models,
            replay(models, start, a),
            b,
        ),
    decreases b.len(),
{
    if b.len() == 0 {
        assert(a + b == a);
    } else {
        lemma_replay_concat(models, start, a, b.drop_last());
        assert((a + b).drop_last() == a + b.drop_last());
        assert((a + b).last() == b.last());
    }
}

proof fn lemma_replay_draws(
    models: Seq<Model>,
    start: Bound,
    submeshes: Seq<(u32, u32)>,
)
    ensures
        replay(models, start, submeshes.map_values(|submesh: (u32, u32)| submesh_op(submesh)))
            == start,
        draw_log(models, start, submeshes.map_values(|submesh: (u32, u32)| submesh_op(submesh)))
            == submeshes.map_values(|submesh: (u32, u32)| record(start, submesh.0, submesh.1, 0, 0, 1)),
    decreases submeshes.len(),
{
    let ops = submeshes.map_values(|submesh: (u32, u32)| submesh_op(submesh));
    if submeshes.len() > 0 {
        let rest = submeshes.drop_last();
        lemma_replay_draws(models, start, rest);
        assert(ops.drop_last() == rest.map_values(|submesh: (u32, u32)| submesh_op(submesh)));
        assert(ops.last() == submesh_op(submeshes.last()));
    }
}

proof fn lemma_replay_pair(models: Seq<Model>, start: Bound, first: Op, second: Op)
    ensures
        replay(models, start, seq![first, second]) == after_op(
            models,
            after_op(models, start, first),
            second,
        ),
        !(first matches Op::Command(Command::DrawIndexed { .. })) && !(second matches Op::Command(
            Command::DrawIndexed { .. },
        )) ==> draw_log(
            models,
            start,
            seq![first, second],
        ) == Seq::<DrawRecord>::empty(),
{
    reveal_with_fuel(replay, 3);
    reveal_with_fuel(draw_log, 3);
    assert(seq![first, second].drop_last() == seq![first]);
    assert(seq![first].drop_last() == Seq::<Op>::empty());
}

/// What the models up to `n` leave bound.
spec fn left_bound(
    models: Seq<Model>,
    order: Seq<usize>,
    n: nat,
    extent: Extent,
    bound: Bound,
) -> bool {
    let model = models[order[n - 1] as int];
    n > 0 ==> {
        &&& bound.pipeline == own_pipeline(model)
        &&& bound.viewport == own_viewport(model, extent)
        &&& bound.material == Some(model.material)
        &&& bound.vertex_buffer == Some(model.vertex_buffer)
        &&& bound.index_buffer == Some(model.index_buffer)
    }
}

proof fn lemma_model_draws(
    models: Seq<Model>,
    order: Seq<usize>,
    n: nat,
    extent: Extent,
    bound: Bound,
)
    requires
        n < order.len(),
        forall|k: int| 0 <= k < order.len() ==> #[trigger] order[k] < models.len(),
        live_objects(models),
        left_bound(models, order, n, extent, bound),
        models[order[n as int] as int].pipeline == 0 ==> if n == 0 {
            bound.pipeline is None && bound.viewport is None
        } else {
            models[order[n - 1] as int].pipeline == 0
        },
    ensures
        left_bound(
            models,
            order,
            n + 1,
            extent,
            replay(models, bound, model_ops(models, order, n as int, extent)),
        ),
        draw_log(models, bound, model_ops(models, order, n as int, extent))
            == models[order[n as int] as int].submeshes@.map_values(
            |submesh: (u32, u32)| own_draw(models, order[n as int], extent, submesh),
        ),
{
    let k = n as int;
    let index = order[k];
    let model = models[index as int];
    let none = Seq::<Op>::empty();
    let p = if binds_pipeline(models, order, k) {
        pipeline_ops(model, extent)
    } else {
        none
    };
    let m = if binds_material(models, order, k) {
        material_ops(model, index)
    } else {
        none
    };
    let b = if binds_mesh(models, order, k) {
        mesh_ops(model)
    } else {
        none
    };
    let t = seq![transform_op(model, index)];
    let d = model.submeshes@.map_values(|submesh: (u32, u32)| submesh_op(submesh));
    if n > 0 {
        assert(order[k - 1] < models.len());
    }
    let after_p = replay(models, bound, p);
    let after_m = replay(models, after_p, m);
    let after_b = replay(models, after_m, b);
    let after_t = replay(models, after_b, t);
    lemma_replay_pair(models, bound, pipeline_ops(model, extent)[0], pipeline_ops(model, extent)[1]);
    lemma_replay_pair(models, after_p, material_ops(model, index)[0], material_ops(model, index)[1]);
    lemma_replay_pair(models, after_m, mesh_ops(model)[0], mesh_ops(model)[1]);
    assert(pipeline_ops(model, extent) == seq![
        pipeline_ops(model, extent)[0],
        pipeline_ops(model, extent)[1],
    ]);
    assert(material_ops(model, index) == seq![
        material_ops(model, index)[0],
        material_ops(model, index)[1],
    ]);
    assert(mesh_ops(model) == seq![mesh_ops(model)[0], mesh_ops(model)[1]]);
    assert(t.drop_last() == none);
    reveal_with_fuel(replay, 2);
    reveal_with_fuel(draw_log, 2);
    lemma_replay_draws(models, after_t, model.submeshes@);
    lemma_replay_concat(models, bound, p, m);
    lemma_replay_concat(models, bound, p + m, b);
    lemma_replay_concat(models, bound, p + m + b, t);
    lemma_replay_concat(models, bound, p + m + b + t, d);
    assert(model_ops(models, order, k, extent) == p + m + b + t + d);
    let log = draw_log(models, bound, p + m + b + t + d);
    assert(log == model.submeshes@.map_values(
        |submesh: (u32, u32)| record(after_t, submesh.0, submesh.1, 0, 0, 1),
    ));
    assert(log == model.submeshes@.map_values(
        |submesh: (u32, u32)| own_draw(models, index, extent, submesh),
    ));
}

proof fn lemma_gpass_draws(models: Seq<Model>, order: Seq<usize>, n: nat, extent: Extent, start: Bound)
    requires
        n <= order.len(),
        forall|k: int| 0 <= k < order.len() ==> #[trigger] order[k] < models.len(),
        live_objects(models),
        null_pipelines_first(models, order, start),
    ensures
        left_bound(
            models,
            order,
            n,
            extent,
            replay(models, start, gpass_ops(models, order, n, extent)),
        ),
        draw_log(models, start, gpass_ops(models, order, n, extent)) == wanted_draws(
            models,
            order,
            n,
            extent,
        ),
    decreases n,
{
    if n > 0 {
        let before = gpass_ops(models, order, (n - 1) as nat, extent);
        lemma_gpass_draws(models, order, (n - 1) as nat, extent, start);
        lemma_model_draws(
            models,
            order,
            (n - 1) as nat,
            extent,
            replay(models, start, before),
        );
        lemma_replay_concat(models, start, before, model_ops(models, order, n - 1, extent));
    }
}

/// The geometry pass draws each part of the mesh of each model once, in order, and every draw sees
/// the pipeline, viewport, material, buffers and transform of its own model, although what
/// consecutive models share is bound only once. Where no model has the null pipeline, that holds
/// whatever is bound beforehand.
pub proof fn law_gpass_draws_each_model_with_its_own_state(
    models: Seq<Model>,
    order: Seq<usize>,
    extent: Extent,
    start: Bound,
)
    requires
        forall|k: int| 0 <= k < order.len() ==> #[trigger] order[k] < models.len(),
        live_objects(models),
        null_pipelines_first(models, order, start),
    ensures
        draw_log(models, start, gpass_ops(models, order, order.len(), extent)) == wanted_draws(
            models,
            order,
            order.len(),
            extent,
        ),
{
    lemma_gpass_draws(models, order, order.len(), extent, start);
}

/// How many of a run of steps are of some kind.
pub open spec fn how_many(ops: Seq<Op>, kind: spec_fn(Op) -> bool) -> nat
    decreases ops.len(),
{
    if ops.len() == 0 {
        0
    } else {
        how_many(ops.drop_last(), kind) + if kind(ops.last()) {
            1nat
        } else {
            0
        }
    }
}

/// The steps that bind a pipeline.
pub open spec fn binding_pipeline(pipeline: u64) -> spec_fn(Op) -> bool {
    |op: Op| op == Op::Command(Command::BindPipeline { pipeline })
}

/// The steps that fetch the descriptor set of a material for a pipeline.
pub open spec fn fetching_material(models: Seq<Model>, pipeline: u64, material: u64) -> spec_fn(
    Op,
) -> bool {
    |op: Op|
        match op {
            Op::FetchDescriptorSet(
                SetRequest { layout: _, contents: DescriptorContents::Material(index) },
            ) => models[index as int].pipeline == pipeline && models[index as int].material
                == material,
            _ => false,
        }
}

proof fn lemma_how_many_concat(a: Seq<Op>, b: Seq<Op>, kind: spec_fn(Op) -> bool)
    ensures
        how_many(a + b, kind) == how_many(a, kind) + how_many(b, kind),
    decreases b.len(),
{
    if b.len() == 0 {
        assert(a + b == a);
    } else {
        lemma_how_many_concat(a, b.drop_last(), kind);
        assert((a + b).drop_last() == a + b.drop_last());
        assert((a + b).last() == b.last());
    }
}

proof fn lemma_how_many_none(ops: Seq<Op>, kind: spec_fn(Op) -> bool)
    requires
        forall|i: int| 0 <= i < ops.len() ==> !kind(#[trigger] ops[i]),
    ensures
        how_many(ops, kind) == 0,
    decreases ops.len(),
{
    if ops.len() > 0 {
        lemma_how_many_none(ops.drop_last(), kind);
    }
}

proof fn lemma_how_many_pair(first: Op, second: Op, kind: spec_fn(Op) -> bool)
    requires
        !kind(second),
    ensures
        how_many(seq![first, second], kind) == if kind(first) {
            1nat
        } else {
            0
        },
{
    reveal_with_fuel(how_many, 3);
    assert(seq![first, second].drop_last() == seq![first]);
    assert(seq![first].drop_last() == Seq::<Op>::empty());
}

/// What one model adds to the number of steps of a kind that binds pipelines or fetches the sets
/// of materials.
proof fn lemma_model_binds(
    models: Seq<Model>,
    order: Seq<usize>,
    k: int,
    extent: Extent,
    pipeline: u64,
    material: u64,
)
    ensures
        how_many(model_ops(models, order, k, extent), binding_pipeline(pipeline)) == if {
            &&& binds_pipeline(models, order, k)
            &&& models[order[k] as int].pipeline == pipeline
        } {
            1nat
        } else {
            0
        },
        how_many(
            model_ops(models, order, k, extent),
            fetching_material(models, pipeline, material),
        ) == if {
            &&& binds_material(models, order, k)
            &&& models[order[k] as int].pipeline == pipeline
            &&& models[order[k] as int].material == material
        } {
            1nat
        } else {
            0
        },
{
    let model = models[order[k] as int];
    let none = Seq::<Op>::empty();
    let binding = binding_pipeline(pipeline);
    let fetching = fetching_material(models, pipeline, material);
    let p = if binds_pipeline(models, order, k) {
        pipeline_ops(model, extent)
    } else {
        none
    };
    let m = if binds_material(models, order, k) {
        material_ops(model, order[k])
    } else {
        none
    };
    let b = if binds_mesh(models, order, k) {
        mesh_ops(model)
    } else {
        none
    };
    let rest = b + seq![transform_op(model, order[k])] + model.submeshes@.map_values(
        |submesh: (u32, u32)| submesh_op(submesh),
    );
    lemma_how_many_none(rest, binding);
    lemma_how_many_none(rest, fetching);
    lemma_how_many_none(m, binding);
    lemma_how_many_none(p, fetching);
    lemma_how_many_pair(pipeline_ops(model, extent)[0], pipeline_ops(model, extent)[1], binding);
    lemma_how_many_pair(material_ops(model, order[k])[0], material_ops(model, order[k])[1], fetching);
    assert(pipeline_ops(model, extent) == seq![
        pipeline_ops(model, extent)[0],
        pipeline_ops(model, extent)[1],
    ]);
    assert(material_ops(model, order[k]) == seq![
        material_ops(model, order[k])[0],
        material_ops(model, order[k])[1],
    ]);
    lemma_how_many_concat(p, m, binding);
    lemma_how_many_concat(p, m, fetching);
    lemma_how_many_concat(p + m, rest, binding);
    lemma_how_many_concat(p + m, rest, fetching);
    assert(model_ops(models, order, k, extent) == p + m + rest);
}

/// In a sorted order, the geometry pass binds each pipeline that a model has once, but for the
/// null handle, and fetches the set of each material once for each pipeline that models combine
/// it with.
pub proof fn law_gpass_binds_each_pipeline_and_material_once(
    models: Seq<Model>,
    order: Seq<usize>,
    n: nat,
    extent: Extent,
    pipeline: u64,
    material: u64,
)
    requires
        n <= order.len(),
        sorted_by_key(models, order),
    ensures
        pipeline != 0 ==> how_many(
            gpass_ops(models, order, n, extent),
            binding_pipeline(pipeline),
        ) == if exists|k: int|
            0 <= k < n && models[#[trigger] order[k] as int].pipeline == pipeline {
            1nat
        } else {
            0
        },
        material != 0 ==> how_many(
            gpass_ops(models, order, n, extent),
            fetching_material(models, pipeline, material),
        ) == if exists|k: int|
            0 <= k < n && models[#[trigger] order[k] as int].pipeline == pipeline
                && models[order[k] as int].material == material {
            1nat
        } else {
            0
        },
    decreases n,
{
    if n > 0 {
        let before = gpass_ops(models, order, (n - 1) as nat, extent);
        let last = model_ops(models, order, n - 1, extent);
        let model = models[order[n - 1] as int];
        law_gpass_binds_each_pipeline_and_material_once(
            models,
            order,
            (n - 1) as nat,
            extent,
            pipeline,
            material,
        );
        lemma_model_binds(models, order, n - 1, extent, pipeline, material);
        lemma_how_many_concat(before, last, binding_pipeline(pipeline));
        lemma_how_many_concat(before, last, fetching_material(models, pipeline, material));
        if model.pipeline == pipeline {
            assert(0 <= n - 1 < n && models[order[n - 1] as int].pipeline == pipeline);
            if exists|k: int|
                0 <= k < n - 1 && models[#[trigger] order[k] as int].pipeline == pipeline {
                let k = choose|k: int|
                    0 <= k < n - 1 && models[#[trigger] order[k] as int].pipeline == pipeline;
                if k < n - 2 {
                    law_sorted_order_groups_models(models, order, k, n - 2, n - 1);
                }
            } else if n > 1 {
                assert(0 <= n - 2 < n - 1 && models[order[n - 2] as int].pipeline != pipeline);
            }
            if model.material == material {
                if exists|k: int|
                    0 <= k < n - 1 && models[#[trigger] order[k] as int].pipeline == pipeline
                        && models[order[k] as int].material == material {
                    let k = choose|k: int|
                        0 <= k < n - 1 && models[#[trigger] order[k] as int].pipeline == pipeline
                            && models[order[k] as int].material == material;
                    if k < n - 2 {
                        law_sorted_order_groups_models(models, order, k, n - 2, n - 1);
                    }
                } else if n > 1 {
                    assert(models[order[n - 2] as int].pipeline != pipeline
                        || models[order[n - 2] as int].material != material);
                }
            }
        }
    }
}

/// What the draws of the models at some positions add up to.
spec fn draws_of(models: Seq<Model>, order: Seq<usize>, extent: Extent) -> Multiset<DrawRecord> {
    wanted_draws(models, order, order.len(), extent).to_multiset()
}

/// The draws that one model asks for.
spec fn draws_of_one(models: Seq<Model>, index: usize, extent: Extent) -> Seq<DrawRecord> {
    models[index as int].submeshes@.map_values(
        |submesh: (u32, u32)| own_draw(models, index, extent, submesh),
    )
}

proof fn lemma_wanted_prefix(
    models: Seq<Model>,
    a: Seq<usize>,
    b: Seq<usize>,
    n: nat,
    extent: Extent,
)
    requires
        forall|k: int| 0 <= k < n ==> #[trigger] a[k] == b[k],
    ensures
        wanted_draws(models, a, n, extent) == wanted_draws(models, b, n, extent),
    decreases n,
{
    if n > 0 {
        lemma_wanted_prefix(models, a, b, (n - 1) as nat, extent);
        assert(a[n - 1] == b[n - 1]);
    }
}

proof fn lemma_draws_of_last(models: Seq<Model>, order: Seq<usize>, extent: Extent)
    requires
        order.len() > 0,
    ensures
        draws_of(models, order, extent) == draws_of(models, order.drop_last(), extent).add(
            draws_of_one(models, order.last(), extent).to_multiset(),
        ),
{
    let n = order.len();
    lemma_wanted_prefix(models, order, order.drop_last(), (n - 1) as nat, extent);
    assert(wanted_draws(models, order, n, extent) == wanted_draws(
        models,
        order.drop_last(),
        (n - 1) as nat,
        extent,
    ) + draws_of_one(models, order.last(), extent));
    lemma_multiset_commutative(
        wanted_draws(models, order.drop_last(), (n - 1) as nat, extent),
        draws_of_one(models, order.last(), extent),
    );
}

/// A position adds its draws wherever in an order it stands.
proof fn lemma_draws_of_remove(models: Seq<Model>, order: Seq<usize>, at: int, extent: Extent)
    requires
        0 <= at < order.len(),
    ensures
        draws_of(models, order, extent) == draws_of(models, order.remove(at), extent).add(
            draws_of_one(models, order[at], extent).to_multiset(),
        ),
    decreases order.len(),
{
    lemma_draws_of_last(models, order, extent);
    if at == order.len() - 1 {
        assert(order.remove(at) == order.drop_last());
    } else {
        let rest = order.remove(at);
        lemma_draws_of_remove(models, order.drop_last(), at, extent);
        lemma_draws_of_last(models, rest, extent);
        assert(rest.drop_last() == order.drop_last().remove(at));
        assert(rest.last() == order.last());
        assert(draws_of(models, order, extent) =~= draws_of(models, rest, extent).add(
            draws_of_one(models, order[at], extent).to_multiset(),
        ));
    }
}

/// Whatever the order of the same positions, the draws are the same but for their order.
pub(crate) proof fn lemma_draws_of_permuted(
    models: Seq<Model>,
    a: Seq<usize>,
    b: Seq<usize>,
    extent: Extent,
)
    requires
        a.to_multiset() == b.to_multiset(),
    ensures
        wanted_draws(models, a, a.len(), extent).to_multiset() == wanted_draws(
            models,
            b,
            b.len(),
            extent,
        ).to_multiset(),
    decreases a.len(),
{
    broadcast use vstd::seq_lib::group_to_multiset_ensures;

    a.to_multiset_ensures();
    b.to_multiset_ensures();
    if a.len() > 0 {
        let x = a.last();
        assert(a.contains(x));
        assert(b.to_multiset().count(x) > 0);
        assert(b.contains(x));
        let at = choose|at: int| 0 <= at < b.len() && b[at] == x;
        assert(a.remove(a.len() - 1) == a.drop_last());
        assert(a.drop_last().to_multiset() =~= b.remove(at).to_multiset());
        lemma_draws_of_permuted(models, a.drop_last(), b.remove(at), extent);
        lemma_draws_of_last(models, a, extent);
        lemma_draws_of_remove(models, b, at, extent);
        assert(draws_of(models, a.drop_last(), extent) == draws_of(models, b.remove(at), extent));
        assert(draws_of(models, a, extent) == draws_of(models, b, extent));
    }
}

/// Whether a step of the geometry pass has its place and its arguments: a material's set is asked
/// for with the layout of its own model and bound at once as set one of that model's pipeline
/// layout; a pipeline comes with the viewport of the whole image, from the bottom up; a vertex
/// buffer comes with an index buffer; a transform goes to the start of the block of the vertex
/// shader of its own model; a draw is of one instance, the first, from the first vertex on. Nothing
/// else is recorded.
pub open spec fn step_fits(models: Seq<Model>, ops: Seq<Op>, j: int, extent: Extent) -> bool {
    match ops[j] {
        Op::FetchDescriptorSet(request) => {
            &&& request.contents matches DescriptorContents::Material(index)
            &&& index < models.len()
            &&& request.layout == models[index as int].descriptor_set_layout
            &&& j + 1 < ops.len()
            &&& ops[j + 1] == Op::BindDescriptorSet {
                layout: models[index as int].pipeline_layout,
                first_set: 1,
                set: SetRef::Latest,
                dynamic_offset: None,
            }
        },
        Op::BindDescriptorSet { .. } => j > 0 && ops[j - 1] is FetchDescriptorSet,
        Op::Command(Command::BindPipeline { .. }) => {
            &&& j + 1 < ops.len()
            &&& ops[j + 1] == Op::Command(
                Command::SetViewport(
                    Viewport {
                        x: 0,
                        y: extent.height,
                        width: extent.width,
                        negated_height: extent.height,
                        min_depth: 0,
                        max_depth: 1,
                    },
                ),
            )
        },
        Op::Command(Command::SetViewport(_)) => j > 0 && (ops[j - 1] matches Op::Command(
            Command::BindPipeline { .. },
        )),
        Op::Command(Command::BindVertexBuffer { .. }) => j + 1 < ops.len() && (
        ops[j + 1] matches Op::Command(Command::BindIndexBuffer { .. })),
        Op::Command(Command::BindIndexBuffer { .. }) => j > 0 && (ops[j - 1] matches Op::Command(
            Command::BindVertexBuffer { .. },
        )),
        Op::Command(Command::PushConstants { layout, stages, offset, data }) => {
            &&& data matches PushData::Transform(index)
            &&& index < models.len()
            &&& layout == models[index as int].pipeline_layout
            &&& stages == ShaderStages { vertex: true, fragment: false }
            &&& offset == 0
        },
        Op::Command(
            Command::DrawIndexed {
                index_count: _,
                instance_count,
                first_index: _,
                vertex_offset,
                first_instance,
            },
        ) => instance_count == 1 && vertex_offset == 0 && first_instance == 0,
        _ => false,
    }
}

proof fn lemma_model_steps_fit(models: Seq<Model>, order: Seq<usize>, k: int, extent: Extent, j: int)
    requires
        0 <= k < order.len(),
        order[k] < models.len(),
        0 <= j < model_ops(models, order, k, extent).len(),
    ensures
        step_fits(models, model_ops(models, order, k, extent), j, extent),
{
    let model = models[order[k] as int];
    let ops = model_ops(models, order, k, extent);
    let draws = model.submeshes@.map_values(|submesh: (u32, u32)| submesh_op(submesh));
    let bound = ops.len() - draws.len();
    if j >= bound {
        assert(ops[j] == draws[j - bound]);
    }
}

/// Every step of the geometry pass belongs to a model and has the arguments that go with it,
/// whatever the order of the models.
pub proof fn law_gpass_steps_fit_their_models(
    models: Seq<Model>,
    order: Seq<usize>,
    n: nat,
    extent: Extent,
    j: int,
)
    requires
        n <= order.len(),
        forall|k: int| 0 <= k < order.len() ==> #[trigger] order[k] < models.len(),
        0 <= j < gpass_ops(models, order, n, extent).len(),
    ensures
        step_fits(models, gpass_ops(models, order, n, extent), j, extent),
    decreases n,
{
    if n > 0 {
        let before = gpass_ops(models, order, (n - 1) as nat, extent);
        let last = model_ops(models, order, n - 1, extent);
        let at = j - before.len();
        if j < before.len() {
            law_gpass_steps_fit_their_models(models, order, (n - 1) as nat, extent, j);
            if j + 1 < before.len() {
                assert((before + last)[j + 1] == before[j + 1]);
            }
            if j > 0 {
                assert((before + last)[j - 1] == before[j - 1]);
            }
            assert((before + last)[j] == before[j]);
        } else {
            lemma_model_steps_fit(models, order, n - 1, extent, at);
            assert((before + last)[j] == last[at]);
            if at + 1 < last.len() {
                assert((before + last)[j + 1] == last[at + 1]);
            }
            if at > 0 {
                assert((before + last)[j - 1] == last[at - 1]);
            }
        }
    }
}

/// The steps that bind any pipeline.
pub open spec fn any_pipeline() -> spec_fn(Op) -> bool {
    |op: Op| op matches Op::Command(Command::BindPipeline { .. })
}

/// The steps that fetch the descriptor set of any material.
pub open spec fn any_material() -> spec_fn(Op) -> bool {
    |op: Op| op is FetchDescriptorSet
}

/// The steps that bind any vertex buffer.
pub open spec fn any_vertex_buffer() -> spec_fn(Op) -> bool {
    |op: Op| op matches Op::Command(Command::BindVertexBuffer { .. })
}

/// The steps that set any transform.
pub open spec fn any_transform() -> spec_fn(Op) -> bool {
    |op: Op| op matches Op::Command(Command::PushConstants { .. })
}

/// The steps that draw indexed vertices.
pub open spec fn any_draw() -> spec_fn(Op) -> bool {
    |op: Op| op matches Op::Command(Command::DrawIndexed { .. })
}

/// One, if something is so, else none.
pub open spec fn once_if(so: bool) -> nat {
    if so {
        1
    } else {
        0
    }
}

proof fn lemma_how_many_all(ops: Seq<Op>, kind: spec_fn(Op) -> bool)
    requires
        forall|i: int| 0 <= i < ops.len() ==> kind(#[trigger] ops[i]),
    ensures
        how_many(ops, kind) == ops.len(),
    decreases ops.len(),
{
    if ops.len() > 0 {
        lemma_how_many_all(ops.drop_last(), kind);
    }
}

proof fn lemma_model_adds(
    models: Seq<Model>,
    order: Seq<usize>,
    k: int,
    extent: Extent,
    kind: spec_fn(Op) -> bool,
)
    ensures
        ({
            let model = models[order[k] as int];
            let p = pipeline_ops(model, extent);
            let m = material_ops(model, order[k]);
            let b = mesh_ops(model);
            how_many(model_ops(models, order, k, extent), kind) == (if binds_pipeline(
                models,
                order,
                k,
            ) {
                how_many(p, kind)
            } else {
                0
            }) + (if binds_material(models, order, k) {
                how_many(m, kind)
            } else {
                0
            }) + (if binds_mesh(models, order, k) {
                how_many(b, kind)
            } else {
                0
            }) + how_many(seq![transform_op(model, order[k])], kind) + how_many(
                model.submeshes@.map_values(|submesh: (u32, u32)| submesh_op(submesh)),
                kind,
            )
        }),
{
    let model = models[order[k] as int];
    let none = Seq::<Op>::empty();
    let p = if binds_pipeline(models, order, k) {
        pipeline_ops(model, extent)
    } else {
        none
    };
    let m = if binds_material(models, order, k) {
        material_ops(model, order[k])
    } else {
        none
    };
    let b = if binds_mesh(models, order, k) {
        mesh_ops(model)
    } else {
        none
    };
    let t = seq![transform_op(model, order[k])];
    let d = model.submeshes@.map_values(|submesh: (u32, u32)| submesh_op(submesh));
    lemma_how_many_concat(p, m, kind);
    lemma_how_many_concat(p + m, b, kind);
    lemma_how_many_concat(p + m + b, t, kind);
    lemma_how_many_concat(p + m + b + t, d, kind);
    assert(model_ops(models, order, k, extent) == p + m + b + t + d);
}

/// A model adds to the geometry pass a pipeline only if the model before it has another one, a
/// material only if the pipeline is another one or the material is, and the buffers of a mesh only
/// if the mesh is another one. The first model adds what is not null. Each model sets its transform
/// once and draws each part of its mesh once.
pub proof fn law_model_adds_what_it_does_not_share(
    models: Seq<Model>,
    order: Seq<usize>,
    k: nat,
    extent: Extent,
)
    requires
        k < order.len(),
    ensures
        ({
            let model = models[order[k as int] as int];
            let before = models[order[k - 1] as int];
            let past = gpass_ops(models, order, k, extent);
            let now = gpass_ops(models, order, k + 1, extent);
            let new_pipeline = if k == 0 {
                model.pipeline != 0
            } else {
                model.pipeline != before.pipeline
            };
            let new_material = if k == 0 || new_pipeline {
                model.material != 0
            } else {
                model.material != before.material
            };
            let new_mesh = if k == 0 {
                model.mesh != 0
            } else {
                model.mesh != before.mesh
            };
            &&& how_many(now, any_pipeline()) == how_many(past, any_pipeline()) + once_if(
                new_pipeline,
            )
            &&& how_many(now, any_material()) == how_many(past, any_material()) + once_if(
                new_material,
            )
            &&& how_many(now, any_vertex_buffer()) == how_many(past, any_vertex_buffer()) + once_if(
                new_mesh,
            )
            &&& how_many(now, any_transform()) == how_many(past, any_transform()) + 1
            &&& how_many(now, any_draw()) == how_many(past, any_draw()) + model.submeshes@.len()
        }),
{
    let model = models[order[k as int] as int];
    let past = gpass_ops(models, order, k, extent);
    let one = model_ops(models, order, k as int, extent);
    let p = pipeline_ops(model, extent);
    let m = material_ops(model, order[k as int]);
    let b = mesh_ops(model);
    let t = seq![transform_op(model, order[k as int])];
    let d = model.submeshes@.map_values(|submesh: (u32, u32)| submesh_op(submesh));
    assert(p == seq![p[0], p[1]] && m == seq![m[0], m[1]] && b == seq![b[0], b[1]]);
    assert(gpass_ops(models, order, k + 1, extent) == past + one);
    lemma_how_many_concat(past, one, any_pipeline());
    lemma_how_many_concat(past, one, any_material());
    lemma_how_many_concat(past, one, any_vertex_buffer());
    lemma_how_many_concat(past, one, any_transform());
    lemma_how_many_concat(past, one, any_draw());
    lemma_model_adds(models, order, k as int, extent, any_pipeline());
    lemma_model_adds(models, order, k as int, extent, any_material());
    lemma_model_adds(models, order, k as int, extent, any_vertex_buffer());
    lemma_model_adds(models, order, k as int, extent, any_transform());
    lemma_model_adds(models, order, k as int, extent, any_draw());
    lemma_how_many_pair(p[0], p[1], any_pipeline());
    lemma_how_many_none(m, any_pipeline());
    lemma_how_many_none(b, any_pipeline());
    lemma_how_many_none(t, any_pipeline());
    lemma_how_many_none(d, any_pipeline());
    lemma_how_many_none(p, any_material());
    lemma_how_many_pair(m[0], m[1], any_material());
    lemma_how_many_none(b, any_material());
    lemma_how_many_none(t, any_material());
    lemma_how_many_none(d, any_material());
    lemma_how_many_none(p, any_vertex_buffer());
    lemma_how_many_none(m, any_vertex_buffer());
    lemma_how_many_pair(b[0], b[1], any_vertex_buffer());
    lemma_how_many_none(t, any_vertex_buffer());
    lemma_how_many_none(d, any_vertex_buffer());
    lemma_how_many_none(p, any_transform());
    lemma_how_many_none(m, any_transform());
    lemma_how_many_none(b, any_transform());
    lemma_how_many_all(t, any_transform());
    lemma_how_many_none(d, any_transform());
    lemma_how_many_none(p, any_draw());
    lemma_how_many_none(m, any_draw());
    lemma_how_many_none(b, any_draw());
    lemma_how_many_none(t, any_draw());
    lemma_how_many_all(d, any_draw());
}

} // verus!
