//! What a frame amounts to: what its quads see, which data it binds, and where its picture goes.

use std::rc::Rc;
use vstd::prelude::*;

use crate::scene::{LightManager, Model, Scene};
use crate::vulkan::command::{
    Access, Barriers, Clear, Command, DescriptorContents, Extent, ImageBarrier, ImageLayout,
    InputAttachment, Offset, Op, PipelineStage, SetRequest, Viewport,
};
use crate::vulkan::frame_laws::{
    law_frame_draws_models_before_quads, law_resolve_pass_draws_each_light, lemma_lit_concat,
    lemma_lit_push, lit_after_all, quad_log, unlit, wanted_quads, BoundSet, Lit, Pass, Quad,
};
use crate::vulkan::gpass::gpass_ops;
use crate::vulkan::gpass_laws::law_gpass_steps_fit_their_models;
use crate::vulkan::lighting_pipeline::LightingPipeline;
use crate::vulkan::manager::VulkanManager;
use crate::vulkan::post_process::{copy_ops, effect_ops, effects_ops, result_image};
use crate::vulkan::render_order::{law_render_order_is_a_permutation, render_order};
use crate::vulkan::resolve_pass::{
    ambient_ops, directional_ops, light_data, light_op, light_quads, lighting_ops, point_ops,
    quad_op, resolve_ops, LightKind,
};
use crate::vulkan::script::{unstarted, CallReply, Failure};

verus! {

/// The set that every shader of a frame sees: the camera in the uniform buffer, and what the
/// geometry pass leaves behind.
pub open spec fn shared_set(m: VulkanManager) -> SetRequest {
    SetRequest {
        layout: m.desc_layout_frame_data,
        contents: DescriptorContents::FrameData {
            buffer: m.uniform_buffer.buffer,
            offset: 0,
            size: m.uniform_buffer.size,
            albedo_roughness: InputAttachment {
                image: m.swapchain.g0_imageview,
                layout: ImageLayout::ShaderReadOnlyOptimal,
            },
            normal_metallic: InputAttachment {
                image: m.swapchain.g1_imageview,
                layout: ImageLayout::ShaderReadOnlyOptimal,
            },
            depth: InputAttachment {
                image: m.swapchain.depth_imageview_depth_only,
                layout: ImageLayout::DepthStencilReadOnlyOptimal,
            },
        },
    }
}

/// That set, bound for a pipeline layout at the place of the current frame's camera.
pub open spec fn shared_set_bound(m: VulkanManager, layout: u64) -> BoundSet {
    BoundSet {
        layout,
        request: Some(shared_set(m)),
        dynamic_offset: Some(m.uniform_buffer.offsets@[m.current_frame_index as int] as u32),
    }
}

/// The render pass that draws and lights the models, in one of its subpasses.
pub open spec fn deferred_pass(m: VulkanManager, subpass: nat) -> Pass {
    Pass {
        render_pass: m.renderpass,
        framebuffer: m.swapchain.framebuffers.deferred,
        extent: m.swapchain.extent,
        clear: Clear::ColorThenDepth {
            red_tenths: 2,
            green_tenths: 2,
            blue_tenths: 2,
            alpha_tenths: 0,
            depth: 1,
            stencil: 0,
        },
        subpass,
    }
}

/// What lights find: the second subpass, and the shared set bound for it.
pub open spec fn before_lights(m: VulkanManager) -> Lit {
    Lit {
        pass: Some(deferred_pass(m, 1)),
        set: Some(shared_set_bound(m, m.pipeline_layout_resolve_pass)),
        ..unlit()
    }
}

/// The quad of effect `k`: the effects with even numbers read the lit scene's image and draw to the
/// first geometry image, those with odd numbers the other way round.
pub open spec fn effect_quad(m: VulkanManager, k: int) -> Quad {
    let even = k % 2 == 0;
    Quad {
        pass: Some(
            Pass {
                render_pass: m.renderpass_pp,
                framebuffer: if even {
                    m.swapchain.framebuffers.pp_a
                } else {
                    m.swapchain.framebuffers.pp_b
                },
                extent: m.swapchain.extent,
                clear: Clear::Nothing,
                subpass: 0,
            },
        ),
        pipeline: Some(m.pp_effects@[k].pipeline),
        viewport: Some(
            Viewport {
                x: 0,
                y: m.swapchain.extent.height,
                width: m.swapchain.extent.width,
                negated_height: m.swapchain.extent.height,
                min_depth: 0,
                max_depth: 1,
            },
        ),
        set: Some(
            BoundSet {
                layout: m.pipe_layout_pp,
                request: Some(
                    SetRequest {
                        layout: m.desc_layout_pp,
                        contents: DescriptorContents::ImageSampler {
                            image: if even {
                                m.swapchain.resolve_imageview
                            } else {
                                m.swapchain.g0_imageview
                            },
                            layout: ImageLayout::ShaderReadOnlyOptimal,
                            sampler: 0,
                        },
                    },
                ),
                dynamic_offset: None,
            },
        ),
        light: None,
        vertex_count: 6,
        instance_count: 1,
        first_vertex: 0,
        first_instance: 0,
    }
}

proof fn lemma_no_quads(start: Lit, ops: Seq<Op>)
    requires
        forall|i: int|
            0 <= i < ops.len() ==> !(#[trigger] ops[i] matches Op::Command(Command::Draw { .. })),
    ensures
        quad_log(start, ops) == Seq::<Quad>::empty(),
    decreases ops.len(),
{
    if ops.len() > 0 {
        lemma_no_quads(start, ops.drop_last());
    }
}

/// Whether a step leaves the render pass and set zero alone.
spec fn stays_put(op: Op) -> bool {
    match op {
        Op::BindDescriptorSet { layout: _, first_set, set: _, dynamic_offset: _ } => first_set != 0,
        Op::FetchDescriptorSet(_) => true,
        Op::Command(Command::BeginRenderPass { .. }) => false,
        Op::Command(Command::NextSubpass) => false,
        Op::Command(Command::EndRenderPass) => false,
        _ => true,
    }
}

proof fn lemma_stays_put(start: Lit, ops: Seq<Op>)
    requires
        start.frame_data is Some,
        forall|i: int| 0 <= i < ops.len() ==> stays_put(#[trigger] ops[i]),
    ensures
        lit_after_all(start, ops).pass == start.pass,
        lit_after_all(start, ops).set == start.set,
        lit_after_all(start, ops).frame_data == start.frame_data,
    decreases ops.len(),
{
    if ops.len() > 0 {
        lemma_stays_put(start, ops.drop_last());
        assert(stays_put(ops.last()));
    }
}

proof fn lemma_gpass_stays_put(models: Seq<Model>, order: Seq<usize>, n: nat, extent: Extent)
    requires
        n <= order.len(),
        forall|k: int| 0 <= k < order.len() ==> #[trigger] order[k] < models.len(),
    ensures
        forall|i: int|
            0 <= i < gpass_ops(models, order, n, extent).len() ==> {
                let op = #[trigger] gpass_ops(models, order, n, extent)[i];
                &&& stays_put(op)
                &&& !(op matches Op::Command(Command::Draw { .. }))
                &&& !(op matches Op::Command(Command::PipelineBarrier { .. }))
                &&& !(op matches Op::Command(Command::BlitImage { .. }))
                &&& op matches Op::BindDescriptorSet {
                    layout: _,
                    first_set: _,
                    set,
                    dynamic_offset,
                } ==> set is Latest && dynamic_offset is None
            },
{
    let ops = gpass_ops(models, order, n, extent);
    assert forall|i: int| 0 <= i < ops.len() implies {
        let op = #[trigger] ops[i];
        &&& stays_put(op)
        &&& !(op matches Op::Command(Command::Draw { .. }))
        &&& !(op matches Op::Command(Command::PipelineBarrier { .. }))
        &&& !(op matches Op::Command(Command::BlitImage { .. }))
        &&& op matches Op::BindDescriptorSet {
            layout: _,
            first_set: _,
            set,
            dynamic_offset,
        } ==> set is Latest && dynamic_offset is None
    } by {
        law_gpass_steps_fit_their_models(models, order, n, extent, i);
        if ops[i] is BindDescriptorSet {
            law_gpass_steps_fit_their_models(models, order, n, extent, i - 1);
        }
    }
}

proof fn lemma_head(m: VulkanManager)
    ensures
        ({
            let after = lit_after_all(unlit(), m.frame_head());
            &&& after.pass == Some(deferred_pass(m, 0))
            &&& after.set == Some(shared_set_bound(m, m.pipeline_layout_gpass))
            &&& after.frame_data == Some(shared_set(m))
            &&& quad_log(unlit(), m.frame_head()) == Seq::<Quad>::empty()
        }),
{
    let head = m.frame_head();
    let none = Seq::<Op>::empty();
    lemma_lit_push(unlit(), none, head[0]);
    lemma_lit_push(unlit(), none.push(head[0]), head[1]);
    lemma_lit_push(unlit(), none.push(head[0]).push(head[1]), head[2]);
    lemma_lit_push(unlit(), none.push(head[0]).push(head[1]).push(head[2]), head[3]);
    assert(head == none.push(head[0]).push(head[1]).push(head[2]).push(head[3]));
    lemma_no_quads(unlit(), head);
}

proof fn lemma_turn(m: VulkanManager, start: Lit)
    requires
        start.pass == Some(deferred_pass(m, 0)),
        start.frame_data == Some(shared_set(m)),
    ensures
        ({
            let after = lit_after_all(start, m.frame_turn());
            &&& after.pass == before_lights(m).pass
            &&& after.set == before_lights(m).set
            &&& quad_log(start, m.frame_turn()) == Seq::<Quad>::empty()
        }),
{
    let turn = m.frame_turn();
    let none = Seq::<Op>::empty();
    lemma_lit_push(start, none, turn[0]);
    lemma_lit_push(start, none.push(turn[0]), turn[1]);
    assert(turn == none.push(turn[0]).push(turn[1]));
    lemma_no_quads(start, turn);
}

proof fn lemma_wanted_quads_same(
    a: Lit,
    b: Lit,
    lighting: Seq<Rc<LightingPipeline>>,
    n: nat,
    layout: u64,
    extent: Extent,
    lights: LightManager,
)
    requires
        a.pass == b.pass,
        a.set == b.set,
    ensures
        wanted_quads(a, lighting, n, layout, extent, lights) == wanted_quads(
            b,
            lighting,
            n,
            layout,
            extent,
            lights,
        ),
    decreases n,
{
    if n > 0 {
        lemma_wanted_quads_same(a, b, lighting, (n - 1) as nat, layout, extent, lights);
        assert(wanted_quads(a, lighting, n, layout, extent, lights) =~= wanted_quads(
            b,
            lighting,
            n,
            layout,
            extent,
            lights,
        ));
    }
}

proof fn lemma_effect_quad(m: VulkanManager, k: nat, start: Lit)
    requires
        k < m.pp_effects@.len(),
    ensures
        ({
            let ops = effect_ops(*m.pp_effects@[k as int], k, m.effect_handles(), m.swapchain);
            &&& quad_log(start, ops) == seq![effect_quad(m, k as int)]
        }),
{
    let ops = effect_ops(*m.pp_effects@[k as int], k, m.effect_handles(), m.swapchain);
    let none = Seq::<Op>::empty();
    let o1 = none.push(ops[0]);
    let o2 = o1.push(ops[1]);
    let o3 = o2.push(ops[2]);
    let o4 = o3.push(ops[3]);
    let o5 = o4.push(ops[4]);
    let o6 = o5.push(ops[5]);
    lemma_lit_push(start, none, ops[0]);
    lemma_lit_push(start, o1, ops[1]);
    lemma_lit_push(start, o2, ops[2]);
    lemma_lit_push(start, o3, ops[3]);
    lemma_lit_push(start, o4, ops[4]);
    assert(o6.drop_last() == o5);
    lemma_lit_push(start, o6, ops[6]);
    assert(ops == o6.push(ops[6]));
    assert(quad_log(start, o5) == Seq::<Quad>::empty());
}

proof fn lemma_effects_quads(m: VulkanManager, n: nat, start: Lit)
    requires
        n <= m.pp_effects@.len(),
    ensures
        quad_log(start, effects_ops(m.pp_effects@, n, m.effect_handles(), m.swapchain))
            == Seq::new(n, |k: int| effect_quad(m, k)),
    decreases n,
{
    if n > 0 {
        let before = effects_ops(m.pp_effects@, (n - 1) as nat, m.effect_handles(), m.swapchain);
        let last = effect_ops(
            *m.pp_effects@[n - 1],
            (n - 1) as nat,
            m.effect_handles(),
            m.swapchain,
        );
        lemma_effects_quads(m, (n - 1) as nat, start);
        lemma_effect_quad(m, (n - 1) as nat, lit_after_all(start, before));
        lemma_lit_concat(start, before, last);
    }
}

/// The full-screen quads of a frame, each with all that it sees, are in order: one for each light
/// of each lighting model and one for its ambient light, in the second subpass of the frame's
/// render pass, with the camera of the current frame and what the geometry pass left; then one for
/// each effect, in a render pass of its own, reading what the one before it drew.
pub proof fn law_frame_draws_each_quad(m: VulkanManager, image_index: int, scene: Scene)
    requires
        scene.models@.len() <= usize::MAX,
    ensures
        quad_log(unlit(), m.frame_ops(image_index, scene)) == wanted_quads(
            before_lights(m),
            m.lighting_pipelines@,
            m.lighting_pipelines@.len(),
            m.pipeline_layout_resolve_pass,
            m.swapchain.extent,
            scene.light_manager,
        ) + Seq::new(m.pp_effects@.len(), |k: int| effect_quad(m, k)),
{
    let models = scene.models@;
    let order = render_order(models, models.len());
    let lights = m.lighting_pipelines@.len();
    let head = m.frame_head();
    let gpass = m.frame_gpass(scene);
    let turn = m.frame_turn();
    let resolve = m.frame_resolve(scene);
    let end = seq![Op::Command(Command::EndRenderPass)];
    let effects = effects_ops(
        m.pp_effects@,
        m.pp_effects@.len(),
        m.effect_handles(),
        m.swapchain,
    );
    let tail = copy_ops(
        result_image(m.swapchain, m.pp_effects@.len()),
        m.swapchain.images@[image_index],
        m.swapchain.extent,
    ) + seq![Op::EndCommandBuffer];
    law_render_order_is_a_permutation(models, models.len());
    assert forall|k: int| 0 <= k < order.len() implies #[trigger] order[k] < models.len() by {
        assert(order.contains(order[k]));
    }
    let s0 = unlit();
    let s1 = lit_after_all(s0, head);
    let s2 = lit_after_all(s1, gpass);
    let s3 = lit_after_all(s2, turn);
    let s4 = lit_after_all(s3, resolve);
    let s5 = lit_after_all(s4, end);
    let s6 = lit_after_all(s5, effects);
    lemma_head(m);
    lemma_gpass_stays_put(models, order, models.len(), m.swapchain.extent);
    lemma_stays_put(s1, gpass);
    lemma_no_quads(s1, gpass);
    lemma_turn(m, s2);
    law_resolve_pass_draws_each_light(
        s3,
        m.lighting_pipelines@,
        lights,
        m.pipeline_layout_resolve_pass,
        m.swapchain.extent,
        scene.light_manager,
    );
    lemma_wanted_quads_same(
        s3,
        before_lights(m),
        m.lighting_pipelines@,
        lights,
        m.pipeline_layout_resolve_pass,
        m.swapchain.extent,
        scene.light_manager,
    );
    lemma_no_quads(s4, end);
    lemma_effects_quads(m, m.pp_effects@.len(), s5);
    lemma_no_quads(s6, tail);
    lemma_lit_concat(s0, head, gpass);
    lemma_lit_concat(s0, head + gpass, turn);
    lemma_lit_concat(s0, head + gpass + turn, resolve);
    lemma_lit_concat(s0, head + gpass + turn + resolve, end);
    lemma_lit_concat(s0, head + gpass + turn + resolve + end, effects);
    lemma_lit_concat(s0, head + gpass + turn + resolve + end + effects, tail);
    assert(head + gpass + turn + resolve + end + effects + tail == m.frame_ops(image_index, scene));
}

/// Every model of a frame is drawn in the first subpass of the frame's render pass, with the camera
/// of the current frame bound as set zero of the layout of the geometry pass.
pub proof fn law_models_are_drawn_with_the_frame_data(
    m: VulkanManager,
    image_index: int,
    scene: Scene,
    j: int,
)
    requires
        scene.models@.len() <= usize::MAX,
        m.frame_head().len() <= j <= m.frame_head().len() + m.frame_gpass(scene).len(),
    ensures
        ({
            let seen = lit_after_all(unlit(), m.frame_ops(image_index, scene).take(j));
            &&& seen.pass == Some(deferred_pass(m, 0))
            &&& seen.set == Some(shared_set_bound(m, m.pipeline_layout_gpass))
        }),
{
    let models = scene.models@;
    let order = render_order(models, models.len());
    let head = m.frame_head();
    let gpass = m.frame_gpass(scene);
    let part = gpass.take(j - head.len());
    law_render_order_is_a_permutation(models, models.len());
    assert forall|k: int| 0 <= k < order.len() implies #[trigger] order[k] < models.len() by {
        assert(order.contains(order[k]));
    }
    lemma_head(m);
    lemma_gpass_stays_put(models, order, models.len(), m.swapchain.extent);
    assert forall|i: int| 0 <= i < part.len() implies stays_put(#[trigger] part[i]) by {
        assert(part[i] == gpass[i]);
    }
    lemma_stays_put(lit_after_all(unlit(), head), part);
    lemma_lit_concat(unlit(), head, part);
    assert(m.frame_ops(image_index, scene).take(j) =~= head + part);
}

/// Whether a step of a frame is one that neither binds the frame's data nor moves pixels between
/// images outside of a render pass.
spec fn plain_step(op: Op) -> bool {
    match op {
        Op::BindDescriptorSet { layout: _, first_set: _, set, dynamic_offset } => set is Latest
            && dynamic_offset is None,
        Op::FetchDescriptorSet(request) => !(request.contents is FrameData),
        Op::BeginCommandBuffer => false,
        Op::EndCommandBuffer => false,
        Op::Command(Command::PipelineBarrier { .. }) => false,
        Op::Command(Command::BlitImage { .. }) => false,
        _ => true,
    }
}

/// Whether all of some steps are plain.
spec fn all_plain(ops: Seq<Op>) -> bool {
    forall|i: int| 0 <= i < ops.len() ==> plain_step(#[trigger] ops[i])
}

proof fn lemma_plain_concat(a: Seq<Op>, b: Seq<Op>)
    requires
        all_plain(a),
        all_plain(b),
    ensures
        all_plain(a + b),
{
    assert forall|i: int| 0 <= i < (a + b).len() implies plain_step(#[trigger] (a + b)[i]) by {
        if i < a.len() {
            assert((a + b)[i] == a[i]);
        } else {
            assert((a + b)[i] == b[i - a.len()]);
        }
    }
}

proof fn lemma_plain_lights(layout: u64, kind: LightKind, n: nat)
    ensures
        all_plain(light_quads(layout, kind, n)),
    decreases n,
{
    if n > 0 {
        lemma_plain_lights(layout, kind, (n - 1) as nat);
        lemma_plain_concat(
            light_quads(layout, kind, (n - 1) as nat),
            seq![light_op(layout, light_data(kind, (n - 1) as usize)), quad_op()],
        );
    }
}

proof fn lemma_plain_resolve(
    lighting: Seq<Rc<LightingPipeline>>,
    n: nat,
    layout: u64,
    extent: Extent,
    lights: LightManager,
)
    ensures
        all_plain(resolve_ops(lighting, n, layout, extent, lights)),
    decreases n,
{
    if n > 0 {
        let lp = *lighting[n - 1];
        let before = resolve_ops(lighting, (n - 1) as nat, layout, extent, lights);
        let point = point_ops(lp, layout, extent, lights);
        let directional = directional_ops(lp, layout, extent, lights);
        lemma_plain_resolve(lighting, (n - 1) as nat, layout, extent, lights);
        lemma_plain_lights(layout, LightKind::Point, lights.point_lights as nat);
        lemma_plain_lights(layout, LightKind::Directional, lights.directional_lights as nat);
        if let Some(pipeline) = lp.point_pipeline {
            lemma_plain_concat(
                lighting_ops(pipeline, extent),
                light_quads(layout, LightKind::Point, lights.point_lights as nat),
            );
        }
        if let Some(pipeline) = lp.directional_pipeline {
            lemma_plain_concat(
                lighting_ops(pipeline, extent),
                light_quads(layout, LightKind::Directional, lights.directional_lights as nat),
            );
        }
        lemma_plain_concat(before, point);
        lemma_plain_concat(before + point, directional);
        lemma_plain_concat(before + point + directional, ambient_ops(lp, extent));
    }
}

proof fn lemma_plain_effects(m: VulkanManager, n: nat)
    ensures
        all_plain(effects_ops(m.pp_effects@, n, m.effect_handles(), m.swapchain)),
    decreases n,
{
    if n > 0 {
        lemma_plain_effects(m, (n - 1) as nat);
        lemma_plain_concat(
            effects_ops(m.pp_effects@, (n - 1) as nat, m.effect_handles(), m.swapchain),
            effect_ops(*m.pp_effects@[n - 1], (n - 1) as nat, m.effect_handles(), m.swapchain),
        );
    }
}

/// Where the steps of a frame are plain and where they are not.
proof fn lemma_frame_steps(m: VulkanManager, image_index: int, scene: Scene, i: int)
    requires
        scene.models@.len() <= usize::MAX,
        0 <= i < m.frame_ops(image_index, scene).len(),
    ensures
        ({
            let ops = m.frame_ops(image_index, scene);
            let turn = 4 + m.frame_gpass(scene).len();
            let copy = copy_ops(
                result_image(m.swapchain, m.pp_effects@.len()),
                m.swapchain.images@[image_index],
                m.swapchain.extent,
            );
            &&& ops.len() > turn + 6
            &&& i < 4 ==> ops[i] == m.frame_head()[i]
            &&& turn <= i < turn + 2 ==> ops[i] == m.frame_turn()[i - turn]
            &&& ops.len() - 4 <= i < ops.len() - 1 ==> ops[i] == copy[i - ops.len() + 4]
            &&& i == ops.len() - 1 ==> ops[i] == Op::EndCommandBuffer
            &&& 4 <= i < turn ==> ops[i] == m.frame_gpass(scene)[i - 4] && plain_step(ops[i])
            &&& turn + 2 <= i < ops.len() - 4 ==> plain_step(ops[i])
        }),
{
    let models = scene.models@;
    let order = render_order(models, models.len());
    let head = m.frame_head();
    let gpass = m.frame_gpass(scene);
    let turn = m.frame_turn();
    let resolve = m.frame_resolve(scene);
    let effects = effects_ops(
        m.pp_effects@,
        m.pp_effects@.len(),
        m.effect_handles(),
        m.swapchain,
    );
    let copy = copy_ops(
        result_image(m.swapchain, m.pp_effects@.len()),
        m.swapchain.images@[image_index],
        m.swapchain.extent,
    );
    let ops = m.frame_ops(image_index, scene);
    let after = head.len() + gpass.len() + turn.len();
    law_render_order_is_a_permutation(models, models.len());
    assert forall|k: int| 0 <= k < order.len() implies #[trigger] order[k] < models.len() by {
        assert(order.contains(order[k]));
    }
    lemma_plain_resolve(
        m.lighting_pipelines@,
        m.lighting_pipelines@.len(),
        m.pipeline_layout_resolve_pass,
        m.swapchain.extent,
        scene.light_manager,
    );
    lemma_plain_effects(m, m.pp_effects@.len());
    lemma_gpass_stays_put(models, order, models.len(), m.swapchain.extent);
    assert(head.len() == 4 && turn.len() == 2 && copy.len() == 3);
    assert(ops.len() == after + resolve.len() + 1 + effects.len() + 3 + 1);
    if i < head.len() {
        assert(ops[i] == head[i]);
    } else if i < head.len() + gpass.len() {
        assert(ops[i] == gpass[i - head.len()]);
        law_gpass_steps_fit_their_models(
            models,
            order,
            models.len(),
            m.swapchain.extent,
            i - head.len(),
        );
    } else if i < after {
        assert(ops[i] == turn[i - head.len() - gpass.len()]);
    } else if i < after + resolve.len() {
        assert(ops[i] == resolve[i - after]);
    } else if i == after + resolve.len() {
        assert(ops[i] == Op::Command(Command::EndRenderPass));
    } else if i < after + resolve.len() + 1 + effects.len() {
        assert(ops[i] == effects[i - after - resolve.len() - 1]);
    } else if i < after + resolve.len() + 1 + effects.len() + 3 {
        assert(ops[i] == copy[i - after - resolve.len() - 1 - effects.len()]);
    } else {
        assert(ops[i] == Op::EndCommandBuffer);
    }
}

/// A frame begins with recording, the shared set and its render pass, and ends with the end of
/// recording. Nothing else begins or ends recording, and the shared set is fetched only once.
pub proof fn law_frame_begins_and_ends(m: VulkanManager, image_index: int, scene: Scene, i: int)
    requires
        scene.models@.len() <= usize::MAX,
        0 <= i < m.frame_ops(image_index, scene).len(),
    ensures
        ({
            let ops = m.frame_ops(image_index, scene);
            let pass = deferred_pass(m, 0);
            &&& ops[i] is BeginCommandBuffer <==> i == 0
            &&& ops[i] is EndCommandBuffer <==> i == ops.len() - 1
            &&& i == 1 ==> ops[i] == Op::FetchDescriptorSet(shared_set(m))
            &&& i == 2 ==> ops[i] == Op::Command(
                Command::BeginRenderPass {
                    render_pass: pass.render_pass,
                    framebuffer: pass.framebuffer,
                    extent: pass.extent,
                    clear: pass.clear,
                },
            )
            &&& ops[i] matches Op::FetchDescriptorSet(request) ==> (request.contents is FrameData
                <==> i == 1)
        }),
{
    lemma_frame_steps(m, image_index, scene, i);
}

proof fn lemma_low_bits(number: u64)
    ensures
        (number as u32) as int == (number as int) % 0x1_0000_0000,
{
    assert((number as u32) as u64 == number % 0x1_0000_0000u64) by (bit_vector);
}

/// A frame binds its shared set twice, as set zero: first for the layout of the geometry pass, and
/// right after the change of subpass for that of the resolve pass. Both times the camera is the one
/// of the current frame: the dynamic offset is the lower half of the number that the uniform buffer
/// has for that frame. No other bind has a dynamic offset.
pub proof fn law_frame_binds_the_data_of_its_frame(
    m: VulkanManager,
    image_index: int,
    scene: Scene,
    i: int,
)
    requires
        m.wf(),
        m.max_frames_in_flight > 0,
        scene.models@.len() <= usize::MAX,
        0 <= i < m.frame_ops(image_index, scene).len(),
    ensures
        ({
            let ops = m.frame_ops(image_index, scene);
            let place = m.uniform_buffer.offsets@[m.current_frame_index as int] as int
                % 0x1_0000_0000;
            &&& ops[i] matches Op::BindDescriptorSet { layout, first_set, set, dynamic_offset }
                ==> if i == 3 || ops[i - 1] == Op::Command(Command::NextSubpass) {
                &&& set is FrameData
                &&& first_set == 0
                &&& layout == if i == 3 {
                    m.pipeline_layout_gpass
                } else {
                    m.pipeline_layout_resolve_pass
                }
                &&& dynamic_offset matches Some(offset)
                &&& offset as int == place
            } else {
                set is Latest && dynamic_offset is None
            }
            &&& i == 3 ==> ops[i] is BindDescriptorSet
            &&& ops[i] == Op::Command(Command::NextSubpass) ==> i + 1 < ops.len()
                && ops[i + 1] is BindDescriptorSet
        }),
{
    let ops = m.frame_ops(image_index, scene);
    let turn = 4 + m.frame_gpass(scene).len();
    lemma_low_bits(m.uniform_buffer.offsets@[m.current_frame_index as int]);
    lemma_frame_steps(m, image_index, scene, i);
    law_frame_draws_models_before_quads(m, image_index, scene, i);
    if i > 0 {
        lemma_frame_steps(m, image_index, scene, i - 1);
        law_frame_draws_models_before_quads(m, image_index, scene, i - 1);
    }
    if i + 1 < ops.len() {
        lemma_frame_steps(m, image_index, scene, i + 1);
    }
}

/// Two frames in flight whose cameras are at different places, by the lower halves of their
/// offsets, never bind the same place.
pub proof fn law_frames_bind_different_cameras(
    m: VulkanManager,
    frame: u8,
    image_index: int,
    scene: Scene,
    i: int,
)
    requires
        m.wf(),
        m.max_frames_in_flight > 0,
        frame < m.max_frames_in_flight,
        scene.models@.len() <= usize::MAX,
        0 <= i < m.frame_ops(image_index, scene).len(),
        m.frame_ops(image_index, scene)[i] is BindDescriptorSet,
        m.frame_ops(image_index, scene)[i]->set is FrameData,
        m.uniform_buffer.offsets@[m.current_frame_index as int] as int % 0x1_0000_0000
            != m.uniform_buffer.offsets@[frame as int] as int % 0x1_0000_0000,
    ensures
        ({
            let other = VulkanManager { current_frame_index: frame, ..m };
            &&& i < other.frame_ops(image_index, scene).len()
            &&& other.frame_ops(image_index, scene)[i] is BindDescriptorSet
            &&& other.frame_ops(image_index, scene)[i]->dynamic_offset != m.frame_ops(
                image_index,
                scene,
            )[i]->dynamic_offset
        }),
{
    let other = VulkanManager { current_frame_index: frame, ..m };
    lemma_low_bits(m.uniform_buffer.offsets@[m.current_frame_index as int]);
    lemma_low_bits(m.uniform_buffer.offsets@[frame as int]);
    assert(m.frame_pp(image_index) == other.frame_pp(image_index));
    assert(m.frame_ops(image_index, scene).len() == other.frame_ops(image_index, scene).len());
    lemma_frame_steps(m, image_index, scene, i);
    lemma_frame_steps(other, image_index, scene, i);
}

/// A transition of a whole image.
pub open spec fn transition(
    image: u64,
    from: ImageLayout,
    to: ImageLayout,
    after: Access,
    before: Access,
) -> ImageBarrier {
    ImageBarrier { image, src_access: after, dst_access: before, old_layout: from, new_layout: to }
}

/// Whatever image of the swapchain a frame is for, that very image is the only one that it copies
/// to and the only one that it makes ready to be shown: as its last steps the frame makes that image
/// and the finished picture ready, copies the whole of one to the whole of the other with a linear
/// filter, and makes the image ready to be shown. The finished picture is the lit scene's image
/// after an even number of effects, and the first geometry image after an odd number.
pub proof fn law_frame_copies_to_its_image(
    m: VulkanManager,
    image_index: int,
    scene: Scene,
    i: int,
)
    requires
        0 <= image_index < m.swapchain.images@.len(),
        scene.models@.len() <= usize::MAX,
        0 <= i < m.frame_ops(image_index, scene).len(),
    ensures
        ({
            let ops = m.frame_ops(image_index, scene);
            let last = ops.len() - 1;
            let target = m.swapchain.images@[image_index];
            let picture = if m.pp_effects@.len() % 2 == 0 {
                m.swapchain.resolve_image
            } else {
                m.swapchain.g0_image
            };
            &&& (ops[i] matches Op::Command(Command::BlitImage { .. })) <==> i == last - 2
            &&& (ops[i] matches Op::Command(Command::PipelineBarrier { .. })) <==> (i == last - 3
                || i == last - 1)
            &&& ops[i] matches Op::Command(
                Command::BlitImage {
                    src,
                    src_layout,
                    src_region,
                    dst,
                    dst_layout,
                    dst_region,
                    filter,
                },
            ) ==> {
                &&& dst == target
                &&& src == picture
                &&& src_layout is TransferSrcOptimal
                &&& dst_layout is TransferDstOptimal
                &&& src_region == dst_region
                &&& src_region.start == Offset { x: 0, y: 0, z: 0 }
                &&& src_region.end == Offset {
                    x: m.swapchain.extent.width as i32,
                    y: m.swapchain.extent.height as i32,
                    z: 1,
                }
                &&& filter is Linear
            }
            &&& i == last - 3 ==> ops[i] == Op::Command(
                Command::PipelineBarrier {
                    src_stage: PipelineStage::ColorAttachmentOutput,
                    dst_stage: PipelineStage::Transfer,
                    barriers: Barriers::Two(
                        transition(
                            target,
                            ImageLayout::Undefined,
                            ImageLayout::TransferDstOptimal,
                            Access::Nothing,
                            Access::TransferWrite,
                        ),
                        transition(
                            picture,
                            ImageLayout::ShaderReadOnlyOptimal,
                            ImageLayout::TransferSrcOptimal,
                            Access::ColorAttachmentWrite,
                            Access::TransferRead,
                        ),
                    ),
                },
            )
            &&& i == last - 1 ==> ops[i] == Op::Command(
                Command::PipelineBarrier {
                    src_stage: PipelineStage::Transfer,
                    dst_stage: PipelineStage::Transfer,
                    barriers: Barriers::One(
                        transition(
                            target,
                            ImageLayout::TransferDstOptimal,
                            ImageLayout::PresentSrc,
                            Access::TransferWrite,
                            Access::TransferRead,
                        ),
                    ),
                },
            )
        }),
{
    lemma_frame_steps(m, image_index, scene, i);
}

/// The image that the swapchain answers with when a frame starts is the one that the frame is
/// copied to, if it is recorded for that image, and the one that is shown, if that image is asked to
/// be shown, whichever of the frames in flight is the current one.
pub proof fn law_acquired_image_is_drawn_and_shown(m: VulkanManager, scene: Scene, acquired: u32)
    requires
        m.wf(),
        m.max_frames_in_flight > 0,
        acquired < m.swapchain.images@.len(),
        scene.models@.len() <= usize::MAX,
    ensures
        unstarted(m.next_frame_steps()).after(CallReply::Done).after(
            CallReply::Image(acquired),
        ).outcome() == Some(Ok::<Option<u32>, (Failure, i32)>(Some(acquired))),
        m.present_request(acquired).image_index == acquired,
        m.present_request(acquired).swapchain == m.swapchain.swapchain,
        ({
            let ops = m.frame_ops(acquired as int, scene);
            &&& ops[ops.len() - 3] matches Op::Command(
                Command::BlitImage {
                    src: _,
                    src_layout: _,
                    src_region: _,
                    dst,
                    dst_layout: _,
                    dst_region: _,
                    filter: _,
                },
            )
            &&& dst == m.swapchain.images@[acquired as int]
        }),
{
    let ops = m.frame_ops(acquired as int, scene);
    lemma_frame_steps(m, acquired as int, scene, 0);
    law_frame_copies_to_its_image(m, acquired as int, scene, ops.len() - 3);
}

} // verus!
