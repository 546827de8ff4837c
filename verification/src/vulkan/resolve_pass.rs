//! The resolve pass: the lights are added up on a full-screen quad.

use std::rc::Rc;
use vstd::prelude::*;

use crate::scene::LightManager;
use crate::vulkan::command::{
    flipped_viewport, Command, Extent, Op, PushData, ShaderStages, Viewport,
};
use crate::vulkan::frame_laws::{law_resolve_pass_draws_each_light, quad_log, wanted_quads, Lit};
use crate::vulkan::lighting_pipeline::LightingPipeline;
use crate::vulkan::manager::VulkanManager;

verus! {

/// Drawing the two triangles that cover the screen.
pub open spec fn quad_op() -> Op {
    Op::Command(
        Command::Draw { vertex_count: 6, instance_count: 1, first_vertex: 0, first_instance: 0 },
    )
}

/// Binding a lighting pipeline and setting the viewport for it.
pub open spec fn lighting_ops(pipeline: u64, extent: Extent) -> Seq<Op> {
    seq![
        Op::Command(Command::BindPipeline { pipeline }),
        Op::Command(Command::SetViewport(flipped_viewport(extent))),
    ]
}

/// Handing the parameters of a light to the fragment shader.
pub open spec fn light_op(layout: u64, data: PushData) -> Op {
    Op::Command(
        Command::PushConstants {
            layout,
            stages: ShaderStages { vertex: false, fragment: true },
            offset: 0,
            data,
        },
    )
}

/// The kinds of lights that have parameters.
#[derive(Clone, Copy, Debug, PartialEq, Eq)]
pub enum LightKind {
    Point,
    Directional,
}

/// The parameters of the light of a kind at position `i`.
pub open spec fn light_data(kind: LightKind, i: usize) -> PushData {
    match kind {
        LightKind::Point => PushData::PointLight(i),
        LightKind::Directional => PushData::DirectionalLight(i),
    }
}

/// One quad for each of the first `n` lights of a kind.
pub open spec fn light_quads(layout: u64, kind: LightKind, n: nat) -> Seq<Op>
    decreases n,
{
    if n == 0 {
        Seq::empty()
    } else {
        light_quads(layout, kind, (n - 1) as nat) + seq![
            light_op(layout, light_data(kind, (n - 1) as usize)),
            quad_op(),
        ]
    }
}

/// What is recorded for the point lights of one lighting model.
pub open spec fn point_ops(
    lighting: LightingPipeline,
    layout: u64,
    extent: Extent,
    lights: LightManager,
) -> Seq<Op> {
    match lighting.point_pipeline {
        Some(pipeline) => lighting_ops(pipeline, extent) + light_quads(
            layout,
            LightKind::Point,
            lights.point_lights as nat,
        ),
        None => Seq::empty(),
    }
}

/// What is recorded for the directional lights of one lighting model.
pub open spec fn directional_ops(
    lighting: LightingPipeline,
    layout: u64,
    extent: Extent,
    lights: LightManager,
) -> Seq<Op> {
    match lighting.directional_pipeline {
        Some(pipeline) => lighting_ops(pipeline, extent) + light_quads(
            layout,
            LightKind::Directional,
            lights.directional_lights as nat,
        ),
        None => Seq::empty(),
    }
}

/// What is recorded for the ambient light of one lighting model.
pub open spec fn ambient_ops(lighting: LightingPipeline, extent: Extent) -> Seq<Op> {
    match lighting.ambient_pipeline {
        Some(pipeline) => lighting_ops(pipeline, extent).push(quad_op()),
        None => Seq::empty(),
    }
}

/// What the resolve pass records for the first `n` lighting models.
pub open spec fn resolve_ops(
    lighting: Seq<Rc<LightingPipeline>>,
    n: nat,
    layout: u64,
    extent: Extent,
    lights: LightManager,
) -> Seq<Op>
    decreases n,
{
    if n == 0 {
        Seq::empty()
    } else {
        let lp = *lighting[n - 1];
        resolve_ops(lighting, (n - 1) as nat, layout, extent, lights) + point_ops(
            lp,
            layout,
            extent,
            lights,
        ) + directional_ops(lp, layout, extent, lights) + ambient_ops(lp, extent)
    }
}

impl VulkanManager {
    /// What is recorded to light the scene: for each registered lighting model in turn the point
    /// lights, the directional lights and the ambient light, as far as it has a pipeline for them.
    pub fn render_resolve_pass(&self, light_manager: &LightManager) -> (ops: Vec<Op>)
        ensures
            ops@ == resolve_ops(
                self.lighting_pipelines@,
                self.lighting_pipelines@.len(),
                self.pipeline_layout_resolve_pass,
                self.swapchain.extent,
                *light_manager,
            ),
            forall|start: Lit|
                #[trigger] quad_log(start, ops@) == wanted_quads(
                    start,
                    self.lighting_pipelines@,
                    self.lighting_pipelines@.len(),
                    self.pipeline_layout_resolve_pass,
                    self.swapchain.extent,
                    *light_manager,
                ),
    {
        let extent = self.swapchain.extent;
        let layout = self.pipeline_layout_resolve_pass;
        let mut ops: Vec<Op> = Vec::new();
        let mut n: usize = 0;
        while n < self.lighting_pipelines.len()
            invariant
                n <= self.lighting_pipelines@.len(),
                extent == self.swapchain.extent,
                layout == self.pipeline_layout_resolve_pass,
                ops@ == resolve_ops(
                    self.lighting_pipelines@,
                    n as nat,
                    layout,
                    extent,
                    *light_manager,
                ),
            decreases self.lighting_pipelines@.len() - n,
        {
            let lp = &self.lighting_pipelines[n];
            if let Some(point_pipe) = lp.point_pipeline {
                Self::bind_lighting(&mut ops, point_pipe, extent);
                Self::draw_lights(&mut ops, layout, LightKind::Point, light_manager.point_lights);
            }
            if let Some(directional_pipe) = lp.directional_pipeline {
                Self::bind_lighting(&mut ops, directional_pipe, extent);
                Self::draw_lights(
                    &mut ops,
                    layout,
                    LightKind::Directional,
                    light_manager.directional_lights,
                );
            }
            if let Some(ambient_pipe) = lp.ambient_pipeline {
                Self::bind_lighting(&mut ops, ambient_pipe, extent);
                Self::draw_quad(&mut ops);
            }
            n += 1;
            assert(ops@ == resolve_ops(
                self.lighting_pipelines@,
                n as nat,
                layout,
                extent,
                *light_manager,
            ));
        }
        proof {
            assert forall|start: Lit|
                #[trigger] quad_log(start, ops@) == wanted_quads(
                    start,
                    self.lighting_pipelines@,
                    self.lighting_pipelines@.len(),
                    layout,
                    extent,
                    *light_manager,
                ) by {
                law_resolve_pass_draws_each_light(
                    start,
                    self.lighting_pipelines@,
                    self.lighting_pipelines@.len(),
                    layout,
                    extent,
                    *light_manager,
                );
            }
        }
        ops
    }

    /// Records the two triangles that cover the screen.
    pub(crate) fn draw_quad(ops: &mut Vec<Op>)
        ensures
            final(ops)@ == old(ops)@.push(quad_op()),
    {
        ops.push(
            Op::Command(
                Command::Draw {
                    vertex_count: 6,
                    instance_count: 1,
                    first_vertex: 0,
                    first_instance: 0,
                },
            ),
        );
    }

    /// Records the binding of a lighting pipeline and its viewport.
    fn bind_lighting(ops: &mut Vec<Op>, pipeline: u64, extent: Extent)
        ensures
            final(ops)@ == old(ops)@ + lighting_ops(pipeline, extent),
    {
        ops.push(Op::Command(Command::BindPipeline { pipeline }));
        ops.push(Op::Command(Command::SetViewport(Viewport::flipped(extent))));
    }

    /// Records one quad for each light of a kind.
    fn draw_lights(ops: &mut Vec<Op>, layout: u64, kind: LightKind, count: usize)
        ensures
            final(ops)@ == old(ops)@ + light_quads(layout, kind, count as nat),
    {
        let mut i: usize = 0;
        while i < count
            invariant
                i <= count,
                ops@ == old(ops)@ + light_quads(layout, kind, i as nat),
            decreases count - i,
        {
            let data = match kind {
                LightKind::Point => PushData::PointLight(i),
                LightKind::Directional => PushData::DirectionalLight(i),
            };
            ops.push(
                Op::Command(
                    Command::PushConstants {
                        layout,
                        stages: ShaderStages { vertex: false, fragment: true },
                        offset: 0,
                        data,
                    },
                ),
            );
            Self::draw_quad(ops);
            i += 1;
        }
    }
}

} // verus!
