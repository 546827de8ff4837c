//! The geometry pass: every model is drawn, and what consecutive models share is bound once.

use vstd::prelude::*;

use crate::scene::Model;
use crate::vulkan::command::{
    flipped_viewport, Command, DescriptorContents, Extent, Op, PushData, SetRef, SetRequest,
    ShaderStages, Viewport,
};
use crate::vulkan::gpass_laws::{
    draw_log, law_gpass_draws_each_model_with_its_own_state, law_gpass_steps_fit_their_models,
    live_objects, null_pipelines_first, step_fits, wanted_draws, Bound,
};
use crate::vulkan::manager::VulkanManager;
use crate::vulkan::outside::null_pipeline;

verus! {

/// The pipeline that is bound before the model at `k` of the order is drawn: that of the model
/// before it, or the null handle.
pub open spec fn bound_pipeline(models: Seq<Model>, order: Seq<usize>, k: int) -> u64 {
    if k == 0 {
        0
    } else {
        models[order[k - 1] as int].pipeline
    }
}

/// Whether the model at `k` of the order needs its pipeline bound.
pub open spec fn binds_pipeline(models: Seq<Model>, order: Seq<usize>, k: int) -> bool {
    models[order[k] as int].pipeline != bound_pipeline(models, order, k)
}

/// The material whose descriptor set is bound when that of the model at `k` is looked at: that of
/// the model before it, or zero for none at the start and after a change of pipeline.
pub open spec fn bound_material(models: Seq<Model>, order: Seq<usize>, k: int) -> u64 {
    if k == 0 || binds_pipeline(models, order, k) {
        0
    } else {
        models[order[k - 1] as int].material
    }
}

/// Whether the model at `k` of the order needs the descriptor set of its material bound.
pub open spec fn binds_material(models: Seq<Model>, order: Seq<usize>, k: int) -> bool {
    models[order[k] as int].material != bound_material(models, order, k)
}

/// The mesh whose buffers are bound before the model at `k` is drawn, or zero for none.
pub open spec fn bound_mesh(models: Seq<Model>, order: Seq<usize>, k: int) -> u64 {
    if k == 0 {
        0
    } else {
        models[order[k - 1] as int].mesh
    }
}

/// Whether the model at `k` of the order needs the buffers of its mesh bound.
pub open spec fn binds_mesh(models: Seq<Model>, order: Seq<usize>, k: int) -> bool {
    models[order[k] as int].mesh != bound_mesh(models, order, k)
}

/// Binding a pipeline and setting the viewport for it.
pub open spec fn pipeline_ops(model: Model, extent: Extent) -> Seq<Op> {
    seq![
        Op::Command(Command::BindPipeline { pipeline: model.pipeline }),
        Op::Command(Command::SetViewport(flipped_viewport(extent))),
    ]
}

/// Fetching the descriptor set of the material of the model at `index` and binding it as set one.
pub open spec fn material_ops(model: Model, index: usize) -> Seq<Op> {
    seq![
        Op::FetchDescriptorSet(
            SetRequest {
                layout: model.descriptor_set_layout,
                contents: DescriptorContents::Material(index),
            },
        ),
        Op::BindDescriptorSet {
            layout: model.pipeline_layout,
            first_set: 1,
            set: SetRef::Latest,
            dynamic_offset: None,
        },
    ]
}

/// Binding the buffers of a mesh.
pub open spec fn mesh_ops(model: Model) -> Seq<Op> {
    seq![
        Op::Command(Command::BindVertexBuffer { buffer: model.vertex_buffer }),
        Op::Command(Command::BindIndexBuffer { buffer: model.index_buffer }),
    ]
}

/// Handing the transform of the model at `index` to the vertex shader.
pub open spec fn transform_op(model: Model, index: usize) -> Op {
    Op::Command(
        Command::PushConstants {
            layout: model.pipeline_layout,
            stages: ShaderStages { vertex: true, fragment: false },
            offset: 0,
            data: PushData::Transform(index),
        },
    )
}

/// Drawing one part of a mesh.
pub open spec fn submesh_op(submesh: (u32, u32)) -> Op {
    Op::Command(
        Command::DrawIndexed {
            index_count: submesh.1,
            instance_count: 1,
            first_index: submesh.0,
            vertex_offset: 0,
            first_instance: 0,
        },
    )
}

/// What is recorded for the model at `k` of the order: what it does not share with the model
/// before it is bound, then its transform is set and each part of its mesh is drawn.
pub open spec fn model_ops(models: Seq<Model>, order: Seq<usize>, k: int, extent: Extent) -> Seq<
    Op,
> {
    let model = models[order[k] as int];
    let none = Seq::<Op>::empty();
    (if binds_pipeline(models, order, k) {
        pipeline_ops(model, extent)
    } else {
        none
    }) + (if binds_material(models, order, k) {
        material_ops(model, order[k])
    } else {
        none
    }) + (if binds_mesh(models, order, k) {
        mesh_ops(model)
    } else {
        none
    }) + seq![transform_op(model, order[k])] + model.submeshes@.map_values(
        |submesh: (u32, u32)| submesh_op(submesh),
    )
}

/// What the geometry pass records for the first `n` models of the order.
pub open spec fn gpass_ops(models: Seq<Model>, order: Seq<usize>, n: nat, extent: Extent) -> Seq<
    Op,
>
    decreases n,
{
    if n == 0 {
        Seq::empty()
    } else {
        gpass_ops(models, order, (n - 1) as nat, extent) + model_ops(models, order, n - 1, extent)
    }
}

impl VulkanManager {
    /// What is recorded to draw the models at the given positions of a scene, in that order. A
    /// pipeline, the descriptor set of a material and the buffers of a mesh are bound only where
    /// the model before did not leave them bound; a new pipeline needs its material bound anew.
    pub fn render_gpass(&self, models: &Vec<Model>, order: &Vec<usize>) -> (ops: Vec<Op>)
        requires
            forall|k: int| 0 <= k < order@.len() ==> #[trigger] order@[k] < models@.len(),
        ensures
            ops@ == gpass_ops(models@, order@, order@.len(), self.swapchain.extent),
            forall|j: int|
                0 <= j < ops@.len() ==> #[trigger] step_fits(
                    models@,
                    ops@,
                    j,
                    self.swapchain.extent,
                ),
            forall|start: Bound|
                live_objects(models@) && null_pipelines_first(models@, order@, start)
                    ==> #[trigger] draw_log(models@, start, ops@) == wanted_draws(
                    models@,
                    order@,
                    order@.len(),
                    self.swapchain.extent,
                ),
    {
        let extent = self.swapchain.extent;
        let mut ops: Vec<Op> = Vec::new();
        let mut last_pipeline: u64 = null_pipeline();
        let mut last_mat: u64 = 0;
        let mut last_mesh: u64 = 0;
        let mut k: usize = 0;
        while k < order.len()
            invariant
                k <= order@.len(),
                forall|k: int| 0 <= k < order@.len() ==> #[trigger] order@[k] < models@.len(),
                last_pipeline == bound_pipeline(models@, order@, k as int),
                last_mat == if k == 0 { 0 } else { models@[order@[k - 1] as int].material },
                last_mesh == bound_mesh(models@, order@, k as int),
                ops@ == gpass_ops(models@, order@, k as nat, extent),
            decreases order@.len() - k,
        {
            let index = order[k];
            let obj = &models[index];
            let ghost before = ops@;
            if last_pipeline != obj.pipeline {
                ops.push(Op::Command(Command::BindPipeline { pipeline: obj.pipeline }));
                ops.push(Op::Command(Command::SetViewport(Viewport::flipped(extent))));
                last_pipeline = obj.pipeline;
                last_mat = 0;
            }
            if obj.material != last_mat {
                ops.push(
                    Op::FetchDescriptorSet(
                        SetRequest {
                            layout: obj.descriptor_set_layout,
                            contents: DescriptorContents::Material(index),
                        },
                    ),
                );
                ops.push(
                    Op::BindDescriptorSet {
                        layout: obj.pipeline_layout,
                        first_set: 1,
                        set: SetRef::Latest,
                        dynamic_offset: None,
                    },
                );
                last_mat = obj.material;
            }
            if obj.mesh != last_mesh {
                ops.push(Op::Command(Command::BindVertexBuffer { buffer: obj.vertex_buffer }));
                ops.push(Op::Command(Command::BindIndexBuffer { buffer: obj.index_buffer }));
                last_mesh = obj.mesh;
            }
            ops.push(
                Op::Command(
                    Command::PushConstants {
                        layout: obj.pipeline_layout,
                        stages: ShaderStages { vertex: true, fragment: false },
                        offset: 0,
                        data: PushData::Transform(index),
                    },
                ),
            );
            let ghost bound = ops@;
            let mut s: usize = 0;
            while s < obj.submeshes.len()
                invariant
                    s <= obj.submeshes@.len(),
                    ops@ == bound + obj.submeshes@.take(s as int).map_values(
                        |submesh: (u32, u32)| submesh_op(submesh),
                    ),
                decreases obj.submeshes@.len() - s,
            {
                let sm = obj.submeshes[s];
                ops.push(
                    Op::Command(
                        Command::DrawIndexed {
                            index_count: sm.1,
                            instance_count: 1,
                            first_index: sm.0,
                            vertex_offset: 0,
                            first_instance: 0,
                        },
                    ),
                );
                s += 1;
            }
            assert(obj.submeshes@.take(s as int) == obj.submeshes@);
            assert(ops@ == before + model_ops(models@, order@, k as int, extent));
            k += 1;
        }
        proof {
            assert forall|j: int| 0 <= j < ops@.len() implies #[trigger] step_fits(
                models@,
                ops@,
                j,
                extent,
            ) by {
                law_gpass_steps_fit_their_models(models@, order@, order@.len(), extent, j);
            }
            assert forall|start: Bound|
                live_objects(models@) && null_pipelines_first(
                    models@,
                    order@,
                    start,
                ) implies #[trigger] draw_log(models@, start, ops@) == wanted_draws(
                models@,
                order@,
                order@.len(),
                extent,
            ) by {
                law_gpass_draws_each_model_with_its_own_state(models@, order@, extent, start);
            }
        }
        ops
    }
}

} // verus!
