//! What holds of the recording of a frame as a whole.

use std::rc::Rc;
use vstd::prelude::*;

use crate::scene::{LightManager, Model, Scene};
use crate::vulkan::command::{
    Clear, Command, DescriptorContents, Extent, ImageLayout, Op, PushData, SetRef, SetRequest,
    ShaderStages, Viewport,
};
use crate::vulkan::gpass::{gpass_ops, model_ops, submesh_op};
use crate::vulkan::gpass_laws::{
    binding_pipeline, draw_log, fetching_material, how_many,
    law_gpass_binds_each_pipeline_and_material_once, law_gpass_draws_each_model_with_its_own_state,
    lemma_draws_of_permuted, lemma_replay_concat, live_objects, nothing_bound, own_draw, replay,
    wanted_draws, Bound, DrawRecord,
};
use crate::vulkan::lighting_pipeline::LightingPipeline;
use crate::vulkan::manager::{Swapchain, VulkanManager};
use crate::vulkan::post_process::{
    copy_ops, effect_ops, effects_ops, open_source, result_image, source_view, target_framebuffer,
    EffectHandles,
};
use crate::vulkan::pp_effect::PPEffect;
use crate::vulkan::render_order::{
    each_once, law_render_order_is_a_permutation, law_render_order_is_sorted, render_order,
    same_key,
};
use crate::vulkan::resolve_pass::{
    ambient_ops, directional_ops, light_data, light_op, light_quads, lighting_ops, point_ops,
    quad_op, resolve_ops, LightKind,
};
use crate::vulkan::setup::{
    frame_data_layout_info, pp_render_pass_info, pp_set_layout_info, resolve_layout_info,
    DescriptorType, LayoutBinding, SetLayoutInfo,
};

verus! {

/// Where a command buffer stands.
pub enum Phase {
    /// It is not being recorded.
    Idle,
    /// It is being recorded, outside of render passes.
    Recording,
    /// It is in this subpass of a render pass.
    InPass(nat),
}

/// Where a command buffer stands after a step, or nothing if the step has no business there: draws
/// belong in render passes, barriers and copies outside of them, and render passes do not nest.
pub open spec fn phase_after(phase: Phase, op: Op) -> Option<Phase> {
    match (phase, op) {
        (Phase::Idle, Op::BeginCommandBuffer) => Some(Phase::Recording),
        (Phase::Recording, Op::EndCommandBuffer) => Some(Phase::Idle),
        (Phase::Recording, Op::Command(Command::BeginRenderPass { .. })) => Some(Phase::InPass(0)),
        (Phase::InPass(subpass), Op::Command(Command::NextSubpass)) => Some(
            Phase::InPass(subpass + 1),
        ),
        (Phase::InPass(_), Op::Command(Command::EndRenderPass)) => Some(Phase::Recording),
        (Phase::InPass(_), Op::Command(Command::Draw { .. })) => Some(phase),
        (Phase::InPass(_), Op::Command(Command::DrawIndexed { .. })) => Some(phase),
        (Phase::Recording, Op::Command(Command::PipelineBarrier { .. })) => Some(phase),
        (Phase::Recording, Op::Command(Command::BlitImage { .. })) => Some(phase),
        (Phase::Idle, _) => None,
        (_, Op::FetchDescriptorSet(_)) => Some(phase),
        (_, Op::BindDescriptorSet { .. }) => Some(phase),
        (_, Op::Command(Command::BindPipeline { .. })) => Some(phase),
        (_, Op::Command(Command::SetViewport(_))) => Some(phase),
        (_, Op::Command(Command::BindVertexBuffer { .. })) => Some(phase),
        (_, Op::Command(Command::BindIndexBuffer { .. })) => Some(phase),
        (_, Op::Command(Command::PushConstants { .. })) => Some(phase),
        _ => None,
    }
}

/// Where a command buffer stands after a run of steps, or nothing if one of them was misplaced.
pub open spec fn phase_after_all(start: Phase, ops: Seq<Op>) -> Option<Phase>
    decreases ops.len(),
{
    if ops.len() == 0 {
        Some(start)
    } else {
        match phase_after_all(start, ops.drop_last()) {
            Some(phase) => phase_after(phase, ops.last()),
            None => None,
        }
    }
}

/// Whether a step stays in the render pass that it is in.
pub open spec fn stays_in_pass(op: Op) -> bool {
    match op {
        Op::FetchDescriptorSet(_) => true,
        Op::BindDescriptorSet { .. } => true,
        Op::Command(Command::BindPipeline { .. }) => true,
        Op::Command(Command::SetViewport(_)) => true,
        Op::Command(Command::BindVertexBuffer { .. }) => true,
        Op::Command(Command::BindIndexBuffer { .. }) => true,
        Op::Command(Command::PushConstants { .. }) => true,
        Op::Command(Command::Draw { .. }) => true,
        Op::Command(Command::DrawIndexed { .. }) => true,
        _ => false,
    }
}

proof fn lemma_phase_concat(start: Phase, a: Seq<Op>, b: Seq<Op>)
    requires
        phase_after_all(start, a) is Some,
    ensures
        phase_after_all(start, a + b) == phase_after_all(phase_after_all(start, a)->0, b),
    decreases b.len(),
{
    if b.len() == 0 {
        assert(a + b == a);
    } else {
        lemma_phase_concat(start, a, b.drop_last());
        assert((a + b).drop_last() == a + b.drop_last());
        assert((a + b).last() == b.last());
    }
}

proof fn lemma_phase_push(start: Phase, ops: Seq<Op>, op: Op)
    requires
        phase_after_all(start, ops) is Some,
    ensures
        phase_after_all(start, ops.push(op)) == phase_after(phase_after_all(start, ops)->0, op),
{
    assert(ops.push(op).drop_last() == ops);
}

proof fn lemma_stays_in_pass(subpass: nat, ops: Seq<Op>)
    requires
        forall|i: int| 0 <= i < ops.len() ==> stays_in_pass(#[trigger] ops[i]),
    ensures
        phase_after_all(Phase::InPass(subpass), ops) == Some(Phase::InPass(subpass)),
    decreases ops.len(),
{
    if ops.len() > 0 {
        lemma_stays_in_pass(subpass, ops.drop_last());
        assert(stays_in_pass(ops.last()));
    }
}

proof fn lemma_gpass_stays(models: Seq<Model>, order: Seq<usize>, n: nat, extent: Extent)
    ensures
        forall|i: int|
            0 <= i < gpass_ops(models, order, n, extent).len() ==> {
                &&& stays_in_pass(#[trigger] gpass_ops(models, order, n, extent)[i])
                &&& !(gpass_ops(models, order, n, extent)[i] matches Op::Command(
                    Command::Draw { .. },
                ))
            },
    decreases n,
{
    if n > 0 {
        let before = gpass_ops(models, order, (n - 1) as nat, extent);
        let last = model_ops(models, order, n - 1, extent);
        let draws = models[order[n - 1] as int].submeshes@.map_values(
            |submesh: (u32, u32)| submesh_op(submesh),
        );
        lemma_gpass_stays(models, order, (n - 1) as nat, extent);
        assert forall|i: int| 0 <= i < last.len() implies stays_in_pass(#[trigger] last[i]) && !(
        last[i] matches Op::Command(Command::Draw { .. })) by {
            let bound = last.len() - draws.len();
            if i >= bound {
                assert(last[i] == draws[i - bound]);
            }
        }
        assert forall|i: int| 0 <= i < (before + last).len() implies stays_in_pass(
            #[trigger] (before + last)[i],
        ) && !((before + last)[i] matches Op::Command(Command::Draw { .. })) by {
            if i >= before.len() {
                assert((before + last)[i] == last[i - before.len()]);
            }
        }
    }
}

proof fn lemma_light_quads_stay(layout: u64, kind: LightKind, n: nat)
    ensures
        forall|i: int|
            0 <= i < light_quads(layout, kind, n).len() ==> {
                &&& stays_in_pass(#[trigger] light_quads(layout, kind, n)[i])
                &&& !(light_quads(layout, kind, n)[i] matches Op::Command(
                    Command::DrawIndexed { .. },
                ))
            },
    decreases n,
{
    if n > 0 {
        lemma_light_quads_stay(layout, kind, (n - 1) as nat);
    }
}

proof fn lemma_resolve_stays(
    lighting: Seq<Rc<LightingPipeline>>,
    n: nat,
    layout: u64,
    extent: Extent,
    lights: LightManager,
)
    ensures
        forall|i: int|
            0 <= i < resolve_ops(lighting, n, layout, extent, lights).len() ==> {
                &&& stays_in_pass(#[trigger] resolve_ops(lighting, n, layout, extent, lights)[i])
                &&& !(resolve_ops(lighting, n, layout, extent, lights)[i] matches Op::Command(
                    Command::DrawIndexed { .. },
                ))
            },
    decreases n,
{
    if n > 0 {
        lemma_resolve_stays(lighting, (n - 1) as nat, layout, extent, lights);
        lemma_light_quads_stay(layout, LightKind::Point, lights.point_lights as nat);
        lemma_light_quads_stay(layout, LightKind::Directional, lights.directional_lights as nat);
    }
}

proof fn lemma_effect_phase(effect: PPEffect, k: nat, handles: EffectHandles, swapchain: Swapchain)
    ensures
        phase_after_all(Phase::Recording, effect_ops(effect, k, handles, swapchain)) == Some(
            Phase::Recording,
        ),
{
    let ops = effect_ops(effect, k, handles, swapchain);
    let inner = ops.subrange(1, 6);
    lemma_stays_in_pass(0, inner);
    lemma_phase_push(Phase::Recording, Seq::empty(), ops[0]);
    assert(Seq::<Op>::empty().push(ops[0]) == seq![ops[0]]);
    lemma_phase_concat(Phase::Recording, seq![ops[0]], inner);
    lemma_phase_push(Phase::Recording, seq![ops[0]] + inner, ops[6]);
    assert((seq![ops[0]] + inner).push(ops[6]) == ops);
}

proof fn lemma_effects_phase(
    effects: Seq<Rc<PPEffect>>,
    n: nat,
    handles: EffectHandles,
    swapchain: Swapchain,
)
    ensures
        phase_after_all(Phase::Recording, effects_ops(effects, n, handles, swapchain)) == Some(
            Phase::Recording,
        ),
        forall|i: int|
            0 <= i < effects_ops(effects, n, handles, swapchain).len() ==> {
                &&& !(#[trigger] effects_ops(effects, n, handles, swapchain)[i] matches Op::Command(
                    Command::DrawIndexed { .. },
                ))
                &&& effects_ops(effects, n, handles, swapchain)[i] != Op::Command(
                    Command::NextSubpass,
                )
            },
    decreases n,
{
    if n > 0 {
        let before = effects_ops(effects, (n - 1) as nat, handles, swapchain);
        lemma_effects_phase(effects, (n - 1) as nat, handles, swapchain);
        lemma_effect_phase(*effects[n - 1], (n - 1) as nat, handles, swapchain);
        lemma_phase_concat(
            Phase::Recording,
            before,
            effect_ops(*effects[n - 1], (n - 1) as nat, handles, swapchain),
        );
    }
}

proof fn lemma_copy_phase(picture: u64, image: u64, extent: Extent)
    ensures
        phase_after_all(Phase::Recording, copy_ops(picture, image, extent)) == Some(
            Phase::Recording,
        ),
{
    let ops = copy_ops(picture, image, extent);
    let none = Seq::<Op>::empty();
    lemma_phase_push(Phase::Recording, none, ops[0]);
    lemma_phase_push(Phase::Recording, none.push(ops[0]), ops[1]);
    lemma_phase_push(Phase::Recording, none.push(ops[0]).push(ops[1]), ops[2]);
    assert(ops == none.push(ops[0]).push(ops[1]).push(ops[2]));
}

/// The recording of a frame is well bracketed: it begins and ends the command buffer, every render
/// pass that is begun is ended before another one begins, all draws are in render passes, and all
/// barriers and copies are outside of them.
pub proof fn law_frame_is_well_bracketed(manager: VulkanManager, image_index: int, scene: Scene)
    ensures
        phase_after_all(Phase::Idle, manager.frame_ops(image_index, scene)) == Some(Phase::Idle),
{
    let extent = manager.swapchain.extent;
    let models = scene.models@;
    let head = manager.frame_head();
    let gpass = manager.frame_gpass(scene);
    let turn = manager.frame_turn();
    let resolve = manager.frame_resolve(scene);
    let end = seq![Op::Command(Command::EndRenderPass)];
    let effects = effects_ops(
        manager.pp_effects@,
        manager.pp_effects@.len(),
        manager.effect_handles(),
        manager.swapchain,
    );
    let copy = copy_ops(
        result_image(manager.swapchain, manager.pp_effects@.len()),
        manager.swapchain.images@[image_index],
        extent,
    );
    let none = Seq::<Op>::empty();

    lemma_phase_push(Phase::Idle, none, head[0]);
    lemma_phase_push(Phase::Idle, none.push(head[0]), head[1]);
    lemma_phase_push(Phase::Idle, none.push(head[0]).push(head[1]), head[2]);
    lemma_phase_push(Phase::Idle, none.push(head[0]).push(head[1]).push(head[2]), head[3]);
    assert(head == none.push(head[0]).push(head[1]).push(head[2]).push(head[3]));

    lemma_gpass_stays(models, render_order(models, models.len()), models.len(), extent);
    lemma_stays_in_pass(0, gpass);
    lemma_phase_concat(Phase::Idle, head, gpass);

    lemma_phase_push(Phase::InPass(0), none, turn[0]);
    lemma_phase_push(Phase::InPass(0), none.push(turn[0]), turn[1]);
    assert(turn == none.push(turn[0]).push(turn[1]));
    lemma_phase_concat(Phase::Idle, head + gpass, turn);

    lemma_resolve_stays(
        manager.lighting_pipelines@,
        manager.lighting_pipelines@.len(),
        manager.pipeline_layout_resolve_pass,
        extent,
        scene.light_manager,
    );
    lemma_stays_in_pass(1, resolve);
    lemma_phase_concat(Phase::Idle, head + gpass + turn, resolve);

    lemma_phase_push(Phase::Idle, head + gpass + turn + resolve, end[0]);
    assert((head + gpass + turn + resolve).push(end[0]) == head + gpass + turn + resolve + end);

    lemma_effects_phase(
        manager.pp_effects@,
        manager.pp_effects@.len(),
        manager.effect_handles(),
        manager.swapchain,
    );
    lemma_copy_phase(
        result_image(manager.swapchain, manager.pp_effects@.len()),
        manager.swapchain.images@[image_index],
        extent,
    );
    lemma_phase_concat(Phase::Recording, effects, copy);
    assert(manager.frame_pp(image_index) == effects + copy);
    let body = head + gpass + turn + resolve + end;
    lemma_phase_concat(Phase::Idle, body, effects + copy);
    lemma_phase_push(Phase::Idle, body + (effects + copy), Op::EndCommandBuffer);
    assert((body + (effects + copy)).push(Op::EndCommandBuffer) == manager.frame_ops(
        image_index,
        scene,
    ));
}

proof fn lemma_no_draws(models: Seq<Model>, start: Bound, ops: Seq<Op>)
    requires
        forall|i: int|
            0 <= i < ops.len() ==> !(#[trigger] ops[i] matches Op::Command(
                Command::DrawIndexed { .. },
            )),
    ensures
        draw_log(models, start, ops) == Seq::<DrawRecord>::empty(),
    decreases ops.len(),
{
    if ops.len() > 0 {
        lemma_no_draws(models, start, ops.drop_last());
    }
}

proof fn lemma_head_binds_no_pipeline(manager: VulkanManager, models: Seq<Model>)
    ensures
        replay(models, nothing_bound(), manager.frame_head()).pipeline is None,
        replay(models, nothing_bound(), manager.frame_head()).viewport is None,
{
    let head = manager.frame_head();
    reveal_with_fuel(replay, 5);
    assert(head.drop_last().drop_last().drop_last().drop_last() == Seq::<Op>::empty());
}

/// A frame draws each part of the mesh of each model of its scene once, with the model's own
/// pipeline, viewport, material, buffers and transform, and nothing else but full-screen quads.
/// The models come in the drawing order, which holds each of them once. Of the null pipeline, its
/// own is none.
pub proof fn law_frame_draws_the_scene(manager: VulkanManager, image_index: int, scene: Scene)
    requires
        live_objects(scene.models@),
        scene.models@.len() <= usize::MAX,
    ensures
        draw_log(scene.models@, nothing_bound(), manager.frame_ops(image_index, scene))
            == wanted_draws(
            scene.models@,
            render_order(scene.models@, scene.models@.len()),
            scene.models@.len(),
            manager.swapchain.extent,
        ),
        each_once(render_order(scene.models@, scene.models@.len()), scene.models@.len()),
{
    let extent = manager.swapchain.extent;
    let models = scene.models@;
    let order = render_order(models, models.len());
    let head = manager.frame_head();
    let gpass = manager.frame_gpass(scene);
    let rest = manager.frame_turn() + manager.frame_resolve(scene) + seq![
        Op::Command(Command::EndRenderPass),
    ] + manager.frame_pp(image_index) + seq![Op::EndCommandBuffer];
    let start = replay(models, nothing_bound(), head);

    law_render_order_is_a_permutation(models, models.len());
    assert forall|k: int| 0 <= k < order.len() implies #[trigger] order[k] < models.len() by {
        assert(order.contains(order[k]));
    }
    law_render_order_is_sorted(models, models.len());
    lemma_head_binds_no_pipeline(manager, models);
    law_gpass_draws_each_model_with_its_own_state(models, order, extent, start);
    lemma_no_draws(models, nothing_bound(), head);
    assert forall|i: int| 0 <= i < rest.len() implies !(#[trigger] rest[i] matches Op::Command(
        Command::DrawIndexed { .. },
    )) by {
        let at = head.len() + gpass.len() + i;
        law_frame_draws_models_before_quads(manager, image_index, scene, at);
        assert(manager.frame_ops(image_index, scene)[at] == rest[i]);
    }
    lemma_no_draws(models, replay(models, start, gpass), rest);
    lemma_replay_concat(models, nothing_bound(), head, gpass);
    lemma_replay_concat(models, nothing_bound(), head + gpass, rest);
    assert(head + gpass + rest == manager.frame_ops(image_index, scene));
}

/// In a frame, the geometry pass binds each pipeline that a model of the scene has once, but for
/// the null handle, and fetches the set of each material once for each pipeline that models
/// combine it with.
pub proof fn law_frame_binds_each_pipeline_and_material_once(
    manager: VulkanManager,
    scene: Scene,
    pipeline: u64,
    material: u64,
)
    requires
        scene.models@.len() <= usize::MAX,
    ensures
        pipeline != 0 ==> how_many(manager.frame_gpass(scene), binding_pipeline(pipeline))
            == if exists|i: int|
            0 <= i < scene.models@.len() && (#[trigger] scene.models@[i]).pipeline == pipeline {
            1nat
        } else {
            0
        },
        material != 0 ==> how_many(
            manager.frame_gpass(scene),
            fetching_material(scene.models@, pipeline, material),
        ) == if exists|i: int|
            0 <= i < scene.models@.len() && (#[trigger] scene.models@[i]).pipeline == pipeline
                && scene.models@[i].material == material {
            1nat
        } else {
            0
        },
{
    let models = scene.models@;
    let order = render_order(models, models.len());
    law_render_order_is_a_permutation(models, models.len());
    law_render_order_is_sorted(models, models.len());
    law_gpass_binds_each_pipeline_and_material_once(
        models,
        order,
        models.len(),
        manager.swapchain.extent,
        pipeline,
        material,
    );
    assert forall|k: int| 0 <= k < order.len() implies #[trigger] order[k] < models.len() by {
        assert(order.contains(order[k]));
    }
    if exists|i: int| 0 <= i < models.len() && (#[trigger] models[i]).pipeline == pipeline {
        let i = choose|i: int| 0 <= i < models.len() && (#[trigger] models[i]).pipeline == pipeline;
        assert(order.contains(i as usize));
    }
    if exists|i: int|
        0 <= i < models.len() && (#[trigger] models[i]).pipeline == pipeline && models[i].material
            == material {
        let i = choose|i: int|
            0 <= i < models.len() && (#[trigger] models[i]).pipeline == pipeline
                && models[i].material == material;
        assert(order.contains(i as usize));
    }
}

/// A frame draws all models before it goes on to the second subpass, which it does once, and all
/// quads after that.
pub proof fn law_frame_draws_models_before_quads(
    manager: VulkanManager,
    image_index: int,
    scene: Scene,
    i: int,
)
    requires
        0 <= i < manager.frame_ops(image_index, scene).len(),
    ensures
        ({
            let ops = manager.frame_ops(image_index, scene);
            let turn = manager.frame_head().len() + manager.frame_gpass(scene).len();
            &&& ops[i] == Op::Command(Command::NextSubpass) <==> i == turn
            &&& ops[i] matches Op::Command(Command::DrawIndexed { .. }) ==> i < turn
            &&& ops[i] matches Op::Command(Command::Draw { .. }) ==> i > turn
        }),
{
    let extent = manager.swapchain.extent;
    let models = scene.models@;
    let head = manager.frame_head();
    let gpass = manager.frame_gpass(scene);
    let turn = manager.frame_turn();
    let resolve = manager.frame_resolve(scene);
    let pp = manager.frame_pp(image_index);
    let ops = manager.frame_ops(image_index, scene);
    let after = head.len() + gpass.len() + turn.len();
    lemma_gpass_stays(models, render_order(models, models.len()), models.len(), extent);
    lemma_resolve_stays(
        manager.lighting_pipelines@,
        manager.lighting_pipelines@.len(),
        manager.pipeline_layout_resolve_pass,
        extent,
        scene.light_manager,
    );
    lemma_effects_phase(
        manager.pp_effects@,
        manager.pp_effects@.len(),
        manager.effect_handles(),
        manager.swapchain,
    );
    if i < head.len() {
        assert(ops[i] == head[i]);
    } else if i < head.len() + gpass.len() {
        assert(ops[i] == gpass[i - head.len()]);
    } else if i < after {
        assert(ops[i] == turn[i - head.len() - gpass.len()]);
    } else if i < after + resolve.len() {
        assert(ops[i] == resolve[i - after]);
    } else if i == after + resolve.len() {
        assert(ops[i] == Op::Command(Command::EndRenderPass));
    } else if i < after + resolve.len() + 1 + pp.len() {
        assert(ops[i] == pp[i - after - resolve.len() - 1]);
    } else {
        assert(ops[i] == Op::EndCommandBuffer);
    }
}

/// Whether two models are the same in all that a frame records of them.
pub open spec fn same_model(a: Model, b: Model) -> bool {
    &&& same_key(a, b)
    &&& a.pipeline_layout == b.pipeline_layout
    &&& a.descriptor_set_layout == b.descriptor_set_layout
    &&& a.vertex_buffer == b.vertex_buffer
    &&& a.index_buffer == b.index_buffer
    &&& a.submeshes@ == b.submeshes@
}

/// Whether one scene has the models of another in some order, where `positions` says at which
/// position of the other scene each of its models stands.
pub open spec fn rearranged(models: Seq<Model>, other: Seq<Model>, positions: Seq<usize>) -> bool {
    &&& models.len() == other.len()
    &&& each_once(positions, other.len())
    &&& forall|i: int|
        0 <= i < models.len() ==> same_model(#[trigger] models[i], other[positions[i] as int])
}

/// A draw with the transform of a model referred to by the position of that model in another
/// scene.
pub open spec fn moved(draw: DrawRecord, positions: Seq<usize>) -> DrawRecord {
    DrawRecord {
        transform: match draw.transform {
            Some(index) => Some(positions[index as int]),
            None => None,
        },
        ..draw
    }
}

proof fn lemma_moved_draws(
    models: Seq<Model>,
    other: Seq<Model>,
    positions: Seq<usize>,
    order: Seq<usize>,
    n: nat,
    extent: Extent,
)
    requires
        rearranged(models, other, positions),
        n <= order.len(),
        forall|k: int| 0 <= k < order.len() ==> #[trigger] order[k] < models.len(),
    ensures
        wanted_draws(models, order, n, extent).map_values(|draw: DrawRecord| moved(draw, positions))
            == wanted_draws(
            other,
            order.map_values(|index: usize| positions[index as int]),
            n,
            extent,
        ),
    decreases n,
{
    let mapped = order.map_values(|index: usize| positions[index as int]);
    let all = wanted_draws(models, order, n, extent);
    if n > 0 {
        let index = order[n - 1];
        let before = wanted_draws(models, order, (n - 1) as nat, extent);
        let last = models[index as int].submeshes@.map_values(
            |submesh: (u32, u32)| own_draw(models, index, extent, submesh),
        );
        let other_last = other[mapped[n - 1] as int].submeshes@.map_values(
            |submesh: (u32, u32)| own_draw(other, mapped[n - 1], extent, submesh),
        );
        lemma_moved_draws(models, other, positions, order, (n - 1) as nat, extent);
        assert(same_model(models[index as int], other[positions[index as int] as int]));
        assert(last.map_values(|draw: DrawRecord| moved(draw, positions)) =~= other_last);
        assert(all.map_values(|draw: DrawRecord| moved(draw, positions)) =~= before.map_values(
            |draw: DrawRecord| moved(draw, positions),
        ) + last.map_values(|draw: DrawRecord| moved(draw, positions)));
    }
}

proof fn lemma_each_once_is_unique(a: Seq<usize>, b: Seq<usize>, n: nat)
    requires
        each_once(a, n),
        each_once(b, n),
    ensures
        a.to_multiset() == b.to_multiset(),
{
    broadcast use vstd::seq_lib::group_to_multiset_ensures;

    a.lemma_multiset_has_no_duplicates();
    b.lemma_multiset_has_no_duplicates();
    assert forall|x: usize| a.to_multiset().count(x) == b.to_multiset().count(x) by {
        assert(a.contains(x) <==> a.to_multiset().count(x) > 0);
        assert(b.contains(x) <==> b.to_multiset().count(x) > 0);
    }
    assert(a.to_multiset() =~= b.to_multiset());
}

/// In which order a scene has its models makes no difference to what a frame draws: the draws are
/// the same but for their order, each with the same pipeline, viewport, material and buffers and
/// the transform of the same model, and lights, effects and the copy to the swapchain are recorded
/// in the same way.
pub proof fn law_order_of_the_scene_does_not_matter(
    manager: VulkanManager,
    image_index: int,
    scene: Scene,
    other: Scene,
    positions: Seq<usize>,
)
    requires
        live_objects(other.models@),
        other.models@.len() <= usize::MAX,
        rearranged(scene.models@, other.models@, positions),
        scene.light_manager == other.light_manager,
    ensures
        draw_log(
            scene.models@,
            nothing_bound(),
            manager.frame_ops(image_index, scene),
        ).map_values(|draw: DrawRecord| moved(draw, positions)).to_multiset() == draw_log(
            other.models@,
            nothing_bound(),
            manager.frame_ops(image_index, other),
        ).to_multiset(),
        manager.frame_ops(image_index, scene).skip(
            (manager.frame_head().len() + manager.frame_gpass(scene).len()) as int,
        ) == manager.frame_ops(image_index, other).skip(
            (manager.frame_head().len() + manager.frame_gpass(other).len()) as int,
        ),
{
    let extent = manager.swapchain.extent;
    let models = scene.models@;
    let n = models.len();
    let order = render_order(models, n);
    let other_order = render_order(other.models@, n);
    let mapped = order.map_values(|index: usize| positions[index as int]);
    assert forall|i: int| 0 <= i < n implies (#[trigger] positions[i]) < n by {
        assert(positions.contains(positions[i]));
    }
    assert(live_objects(models)) by {
        assert forall|i: int| 0 <= i < n implies (#[trigger] models[i]).material != 0
            && models[i].mesh != 0 by {
            assert(same_model(models[i], other.models@[positions[i] as int]));
        }
        assert forall|i: int, j: int|
            0 <= i < n && 0 <= j < n && (#[trigger] models[i]).mesh == (#[trigger] models[j]).mesh
            implies models[i].vertex_buffer == models[j].vertex_buffer && models[i].index_buffer
            == models[j].index_buffer by {
            assert(same_model(models[i], other.models@[positions[i] as int]));
            assert(same_model(models[j], other.models@[positions[j] as int]));
        }
    }
    law_frame_draws_the_scene(manager, image_index, scene);
    law_frame_draws_the_scene(manager, image_index, other);
    assert forall|k: int| 0 <= k < order.len() implies #[trigger] order[k] < n by {
        assert(order.contains(order[k]));
    }
    lemma_moved_draws(models, other.models@, positions, order, n, extent);
    assert(each_once(mapped, n)) by {
        assert forall|x: usize| mapped.contains(x) <==> x < n by {
            if mapped.contains(x) {
                let k = choose|k: int| 0 <= k < mapped.len() && mapped[k] == x;
                assert(positions[order[k] as int] == x);
            }
            if x < n {
                assert(positions.contains(x));
                let i = choose|i: int| 0 <= i < positions.len() && positions[i] == x;
                assert(order.contains(i as usize));
                let k = choose|k: int| 0 <= k < order.len() && order[k] == i;
                assert(mapped[k] == x);
            }
        }
        assert forall|j: int, k: int| 0 <= j < n && 0 <= k < n && j != k implies mapped[j]
            != mapped[k] by {
            assert(order[j] != order[k]);
        }
    }
    lemma_each_once_is_unique(mapped, other_order, n);
    lemma_draws_of_permuted(other.models@, mapped, other_order, extent);

    let rest = manager.frame_turn() + manager.frame_resolve(scene) + seq![
        Op::Command(Command::EndRenderPass),
    ] + manager.frame_pp(image_index) + seq![Op::EndCommandBuffer];
    assert(manager.frame_ops(image_index, scene).skip(
        (manager.frame_head().len() + manager.frame_gpass(scene).len()) as int,
    ) =~= rest);
    assert(manager.frame_ops(image_index, other).skip(
        (manager.frame_head().len() + manager.frame_gpass(other).len()) as int,
    ) =~= rest);
}

/// A render pass that has begun, and the subpass that it is in.
pub struct Pass {
    pub render_pass: u64,
    pub framebuffer: u64,
    pub extent: Extent,
    pub clear: Clear,
    pub subpass: nat,
}

/// A descriptor set that is bound: for which pipeline layout, what it was asked to hold, and at
/// which offset.
pub struct BoundSet {
    pub layout: u64,
    pub request: Option<SetRequest>,
    pub dynamic_offset: Option<u32>,
}

/// A block of push constants that has been set.
pub struct Pushed {
    pub layout: u64,
    pub stages: ShaderStages,
    pub offset: u32,
    pub data: PushData,
}

/// What is in force for full-screen quads.
pub struct Lit {
    pub pass: Option<Pass>,
    pub pipeline: Option<u64>,
    pub viewport: Option<Viewport>,
    /// The descriptor set that was fetched first.
    pub frame_data: Option<SetRequest>,
    /// The descriptor set that was fetched last.
    pub fetched: Option<SetRequest>,
    /// The descriptor set that is bound as set zero.
    pub set: Option<BoundSet>,
    /// The parameters that were set since the pipeline was bound.
    pub light: Option<Pushed>,
}

/// A quad, with the state that it sees.
pub struct Quad {
    pub pass: Option<Pass>,
    pub pipeline: Option<u64>,
    pub viewport: Option<Viewport>,
    pub set: Option<BoundSet>,
    pub light: Option<Pushed>,
    pub vertex_count: u32,
    pub instance_count: u32,
    pub first_vertex: u32,
    pub first_instance: u32,
}

/// The state before anything is in force.
pub open spec fn unlit() -> Lit {
    Lit {
        pass: None,
        pipeline: None,
        viewport: None,
        frame_data: None,
        fetched: None,
        set: None,
        light: None,
    }
}

/// The state after one more step.
pub open spec fn lit_after(lit: Lit, op: Op) -> Lit {
    match op {
        Op::FetchDescriptorSet(request) => Lit {
            frame_data: if lit.frame_data is Some {
                lit.frame_data
            } else {
                Some(request)
            },
            fetched: Some(request),
            ..lit
        },
        Op::BindDescriptorSet { layout, first_set: 0, set, dynamic_offset } => Lit {
            set: Some(
                BoundSet {
                    layout,
                    request: match set {
                        SetRef::FrameData => lit.frame_data,
                        SetRef::Latest => lit.fetched,
                    },
                    dynamic_offset,
                },
            ),
            ..lit
        },
        Op::Command(Command::BeginRenderPass { render_pass, framebuffer, extent, clear }) => Lit {
            pass: Some(Pass { render_pass, framebuffer, extent, clear, subpass: 0 }),
            ..lit
        },
        Op::Command(Command::NextSubpass) => Lit {
            pass: match lit.pass {
                Some(pass) => Some(Pass { subpass: pass.subpass + 1, ..pass }),
                None => None,
            },
            ..lit
        },
        Op::Command(Command::EndRenderPass) => Lit { pass: None, ..lit },
        Op::Command(Command::BindPipeline { pipeline }) => Lit {
            pipeline: Some(pipeline),
            light: None,
            ..lit
        },
        Op::Command(Command::SetViewport(viewport)) => Lit { viewport: Some(viewport), ..lit },
        Op::Command(Command::PushConstants { layout, stages, offset, data }) => Lit {
            light: Some(Pushed { layout, stages, offset, data }),
            ..lit
        },
        _ => lit,
    }
}

/// The state after a run of steps.
pub open spec fn lit_after_all(start: Lit, ops: Seq<Op>) -> Lit
    decreases ops.len(),
{
    if ops.len() == 0 {
        start
    } else {
        lit_after(lit_after_all(start, ops.drop_last()), ops.last())
    }
}

/// The quads among a run of steps, each with the state it sees.
pub open spec fn quad_log(start: Lit, ops: Seq<Op>) -> Seq<Quad>
    decreases ops.len(),
{
    if ops.len() == 0 {
        Seq::empty()
    } else {
        let log = quad_log(start, ops.drop_last());
        let lit = lit_after_all(start, ops.drop_last());
        match ops.last() {
            Op::Command(
                Command::Draw { vertex_count, instance_count, first_vertex, first_instance },
            ) => log.push(
                Quad {
                    pass: lit.pass,
                    pipeline: lit.pipeline,
                    viewport: lit.viewport,
                    set: lit.set,
                    light: lit.light,
                    vertex_count,
                    instance_count,
                    first_vertex,
                    first_instance,
                },
            ),
            _ => log,
        }
    }
}

/// A quad in a render pass and with a descriptor set that were there before: two triangles over the
/// whole image, from the bottom up, for one light or for the ambient light.
pub open spec fn light_quad(
    start: Lit,
    pipeline: u64,
    extent: Extent,
    light: Option<Pushed>,
) -> Quad {
    Quad {
        pass: start.pass,
        pipeline: Some(pipeline),
        viewport: Some(
            Viewport {
                x: 0,
                y: extent.height,
                width: extent.width,
                negated_height: extent.height,
                min_depth: 0,
                max_depth: 1,
            },
        ),
        set: start.set,
        light,
        vertex_count: 6,
        instance_count: 1,
        first_vertex: 0,
        first_instance: 0,
    }
}

/// Parameters at the start of the block of the fragment shader.
pub open spec fn light_block(layout: u64, data: PushData) -> Pushed {
    Pushed { layout, stages: ShaderStages { vertex: false, fragment: true }, offset: 0, data }
}

/// One quad for each light of a kind in turn, if there is a pipeline for them.
pub open spec fn wanted_of_kind(
    start: Lit,
    pipeline: Option<u64>,
    layout: u64,
    extent: Extent,
    kind: LightKind,
    count: nat,
) -> Seq<Quad> {
    match pipeline {
        Some(pipeline) => Seq::new(
            count,
            |i: int|
                light_quad(
                    start,
                    pipeline,
                    extent,
                    Some(
                        light_block(
                            layout,
                            match kind {
                                LightKind::Point => PushData::PointLight(i as usize),
                                LightKind::Directional => PushData::DirectionalLight(i as usize),
                            },
                        ),
                    ),
                ),
        ),
        None => Seq::empty(),
    }
}

/// The quads that the first `n` lighting models ask for: for each of them, one for each point
/// light, one for each directional light, and one for the ambient light.
pub open spec fn wanted_quads(
    start: Lit,
    lighting: Seq<Rc<LightingPipeline>>,
    n: nat,
    layout: u64,
    extent: Extent,
    lights: LightManager,
) -> Seq<Quad>
    decreases n,
{
    if n == 0 {
        Seq::empty()
    } else {
        let lp = *lighting[n - 1];
        wanted_quads(start, lighting, (n - 1) as nat, layout, extent, lights) + wanted_of_kind(
            start,
            lp.point_pipeline,
            layout,
            extent,
            LightKind::Point,
            lights.point_lights as nat,
        ) + wanted_of_kind(
            start,
            lp.directional_pipeline,
            layout,
            extent,
            LightKind::Directional,
            lights.directional_lights as nat,
        ) + match lp.ambient_pipeline {
            Some(pipeline) => seq![light_quad(start, pipeline, extent, None)],
            None => Seq::empty(),
        }
    }
}

/// Whether two states differ at most in pipeline, viewport and parameters.
spec fn same_surroundings(a: Lit, b: Lit) -> bool {
    &&& a.pass == b.pass
    &&& a.frame_data == b.frame_data
    &&& a.fetched == b.fetched
    &&& a.set == b.set
}

pub(crate) proof fn lemma_lit_concat(start: Lit, a: Seq<Op>, b: Seq<Op>)
    ensures
        lit_after_all(start, a + b) == lit_after_all(lit_after_all(start, a), b),
        quad_log(start, a + b) == quad_log(start, a) + quad_log(lit_after_all(start, a), b),
    decreases b.len(),
{
    if b.len() == 0 {
        assert(a + b == a);
    } else {
        lemma_lit_concat(start, a, b.drop_last());
        assert((a + b).drop_last() == a + b.drop_last());
        assert((a + b).last() == b.last());
    }
}

pub(crate) proof fn lemma_lit_push(start: Lit, ops: Seq<Op>, op: Op)
    ensures
        lit_after_all(start, ops.push(op)) == lit_after(lit_after_all(start, ops), op),
        !(op matches Op::Command(Command::Draw { .. })) ==> quad_log(start, ops.push(op))
            == quad_log(start, ops),
{
    assert(ops.push(op).drop_last() == ops);
}

proof fn lemma_lit_pair(start: Lit, first: Op, second: Op)
    requires
        !(first matches Op::Command(Command::Draw { .. })),
        !(second matches Op::Command(Command::Draw { .. })),
    ensures
        lit_after_all(start, seq![first, second]) == lit_after(lit_after(start, first), second),
        quad_log(start, seq![first, second]) == Seq::<Quad>::empty(),
{
    let none = Seq::<Op>::empty();
    lemma_lit_push(start, none, first);
    lemma_lit_push(start, none.push(first), second);
    assert(seq![first, second] == none.push(first).push(second));
}

proof fn lemma_lit_bind(start: Lit, pipeline: u64, extent: Extent)
    ensures
        ({
            let bind = lighting_ops(pipeline, extent);
            &&& lit_after_all(start, bind) == Lit {
                pipeline: Some(pipeline),
                viewport: light_quad(start, pipeline, extent, None).viewport,
                light: None,
                ..start
            }
            &&& quad_log(start, bind) == Seq::<Quad>::empty()
        }),
{
    let bind = lighting_ops(pipeline, extent);
    lemma_lit_pair(start, bind[0], bind[1]);
    assert(bind == seq![bind[0], bind[1]]);
}

proof fn lemma_kind_quads(
    start: Lit,
    pipeline: u64,
    layout: u64,
    extent: Extent,
    kind: LightKind,
    n: nat,
)
    ensures
        ({
            let ops = lighting_ops(pipeline, extent) + light_quads(layout, kind, n);
            let after = lit_after_all(start, ops);
            &&& quad_log(start, ops) == Seq::new(
                n,
                |i: int|
                    light_quad(
                        start,
                        pipeline,
                        extent,
                        Some(light_block(layout, light_data(kind, i as usize))),
                    ),
            )
            &&& after.pipeline == Some(pipeline)
            &&& after.viewport == light_quad(start, pipeline, extent, None).viewport
            &&& same_surroundings(after, start)
        }),
    decreases n,
{
    let bind = lighting_ops(pipeline, extent);
    lemma_lit_bind(start, pipeline, extent);
    if n == 0 {
        assert(bind + light_quads(layout, kind, n) == bind);
    } else {
        let set = light_op(layout, light_data(kind, (n - 1) as usize));
        let before = bind + light_quads(layout, kind, (n - 1) as nat);
        lemma_kind_quads(start, pipeline, layout, extent, kind, (n - 1) as nat);
        lemma_lit_push(start, before, set);
        lemma_lit_push(start, before.push(set), quad_op());
        assert(before.push(set).push(quad_op()).drop_last() == before.push(set));
        assert(bind + light_quads(layout, kind, n) == before.push(set).push(quad_op()));
    }
}

/// The resolve pass draws one quad for each light of each kind that a registered lighting model
/// has a pipeline for, each with that pipeline and the parameters of that light, and one more for
/// the ambient light. All of them are in the render pass, and see the descriptor set, that were
/// there before, and the pass leaves those as they are.
pub proof fn law_resolve_pass_draws_each_light(
    start: Lit,
    lighting: Seq<Rc<LightingPipeline>>,
    n: nat,
    layout: u64,
    extent: Extent,
    lights: LightManager,
)
    requires
        n <= lighting.len(),
    ensures
        quad_log(start, resolve_ops(lighting, n, layout, extent, lights)) == wanted_quads(
            start,
            lighting,
            n,
            layout,
            extent,
            lights,
        ),
        lit_after_all(start, resolve_ops(lighting, n, layout, extent, lights)).pass == start.pass,
        lit_after_all(start, resolve_ops(lighting, n, layout, extent, lights)).frame_data
            == start.frame_data,
        lit_after_all(start, resolve_ops(lighting, n, layout, extent, lights)).set == start.set,
{
    lemma_resolve_quads(start, lighting, n, layout, extent, lights);
}

proof fn lemma_resolve_quads(
    start: Lit,
    lighting: Seq<Rc<LightingPipeline>>,
    n: nat,
    layout: u64,
    extent: Extent,
    lights: LightManager,
)
    requires
        n <= lighting.len(),
    ensures
        quad_log(start, resolve_ops(lighting, n, layout, extent, lights)) == wanted_quads(
            start,
            lighting,
            n,
            layout,
            extent,
            lights,
        ),
        same_surroundings(
            lit_after_all(start, resolve_ops(lighting, n, layout, extent, lights)),
            start,
        ),
    decreases n,
{
    if n > 0 {
        let lp = *lighting[n - 1];
        let before = resolve_ops(lighting, (n - 1) as nat, layout, extent, lights);
        let point = point_ops(lp, layout, extent, lights);
        let directional = directional_ops(lp, layout, extent, lights);
        let ambient = ambient_ops(lp, extent);
        let s1 = lit_after_all(start, before);
        let s2 = lit_after_all(s1, point);
        let s3 = lit_after_all(s2, directional);
        lemma_resolve_quads(start, lighting, (n - 1) as nat, layout, extent, lights);
        if let Some(pipeline) = lp.point_pipeline {
            lemma_kind_quads(
                s1,
                pipeline,
                layout,
                extent,
                LightKind::Point,
                lights.point_lights as nat,
            );
        }
        assert(quad_log(s1, point) =~= wanted_of_kind(
            start,
            lp.point_pipeline,
            layout,
            extent,
            LightKind::Point,
            lights.point_lights as nat,
        ));
        if let Some(pipeline) = lp.directional_pipeline {
            lemma_kind_quads(
                s2,
                pipeline,
                layout,
                extent,
                LightKind::Directional,
                lights.directional_lights as nat,
            );
        }
        assert(quad_log(s2, directional) =~= wanted_of_kind(
            start,
            lp.directional_pipeline,
            layout,
            extent,
            LightKind::Directional,
            lights.directional_lights as nat,
        ));
        if let Some(pipeline) = lp.ambient_pipeline {
            let bind = lighting_ops(pipeline, extent);
            lemma_lit_bind(s3, pipeline, extent);
            lemma_lit_push(s3, bind, quad_op());
            assert(ambient.drop_last() == bind);
            assert(quad_log(s3, ambient) == seq![light_quad(start, pipeline, extent, None)]);
        }
        lemma_lit_concat(start, before, point);
        lemma_lit_concat(start, before + point, directional);
        lemma_lit_concat(start, before + point + directional, ambient);
    }
}

/// One of the two images between which the effects take turns, with the framebuffer that draws to
/// it and the view that reads it.
pub struct Side {
    pub framebuffer: u64,
    pub view: u64,
    pub image: u64,
}

/// The image that holds the lit scene.
pub open spec fn resolve_side(swapchain: Swapchain) -> Side {
    Side {
        framebuffer: swapchain.framebuffers.pp_b,
        view: swapchain.resolve_imageview,
        image: swapchain.resolve_image,
    }
}

/// The other image.
pub open spec fn g0_side(swapchain: Swapchain) -> Side {
    Side {
        framebuffer: swapchain.framebuffers.pp_a,
        view: swapchain.g0_imageview,
        image: swapchain.g0_image,
    }
}

/// The image that holds the picture after `k` effects: that of the lit scene at first, and then
/// always the other one.
pub open spec fn picture_side(swapchain: Swapchain, k: nat) -> Side
    decreases k,
{
    if k == 0 {
        resolve_side(swapchain)
    } else if picture_side(swapchain, (k - 1) as nat) == resolve_side(swapchain) {
        g0_side(swapchain)
    } else {
        resolve_side(swapchain)
    }
}

/// The effects hand the picture on: each reads what the one before wrote, the first reads the lit
/// scene, none draws to the image that it reads, and what is copied to the swapchain is what the
/// last one wrote, or the lit scene if there is none.
pub proof fn law_effects_hand_the_picture_on(swapchain: Swapchain, k: nat)
    requires
        resolve_side(swapchain) != g0_side(swapchain),
    ensures
        source_view(swapchain, k) == picture_side(swapchain, k).view,
        target_framebuffer(swapchain, k) == picture_side(swapchain, k + 1).framebuffer,
        result_image(swapchain, k) == picture_side(swapchain, k).image,
        picture_side(swapchain, k + 1) != picture_side(swapchain, k),
    decreases k,
{
    if k > 0 {
        law_effects_hand_the_picture_on(swapchain, (k - 1) as nat);
        lemma_picture_side(swapchain, (k - 1) as nat);
    }
    lemma_picture_side(swapchain, k);
    lemma_picture_side(swapchain, k + 1);
}

proof fn lemma_picture_side(swapchain: Swapchain, k: nat)
    requires
        resolve_side(swapchain) != g0_side(swapchain),
    ensures
        picture_side(swapchain, k) == if k % 2 == 1 {
            g0_side(swapchain)
        } else {
            resolve_side(swapchain)
        },
    decreases k,
{
    if k > 0 {
        lemma_picture_side(swapchain, (k - 1) as nat);
    }
}

/// The render pass of an effect leaves its image in the layout in which the next effect samples
/// it and from which it is made ready to be copied.
pub proof fn law_effect_leaves_what_is_read(
    manager: VulkanManager,
    effect: PPEffect,
    k: nat,
    picture: u64,
)
    ensures
        ({
            let left = pp_render_pass_info().attachment.final_layout;
            let ops = effect_ops(effect, k, manager.effect_handles(), manager.swapchain);
            &&& ops[3] matches Op::FetchDescriptorSet(request)
            &&& request.contents matches DescriptorContents::ImageSampler {
                image: _,
                layout,
                sampler: _,
            }
            &&& layout == left
            &&& open_source(picture).old_layout == left
        }),
{
}

/// The kinds of resources that fill a descriptor set, in order, where they are known.
pub open spec fn kinds_of_contents(contents: DescriptorContents) -> Option<Seq<DescriptorType>> {
    match contents {
        DescriptorContents::FrameData { .. } => Some(
            seq![
                DescriptorType::UniformBufferDynamic,
                DescriptorType::InputAttachment,
                DescriptorType::InputAttachment,
                DescriptorType::InputAttachment,
            ],
        ),
        DescriptorContents::ImageSampler { .. } => Some(seq![DescriptorType::CombinedImageSampler]),
        DescriptorContents::Material(_) => None,
    }
}

/// The places of a descriptor set, in order.
pub open spec fn places(info: SetLayoutInfo) -> Seq<LayoutBinding> {
    match info {
        SetLayoutInfo::FrameData { camera, albedo_roughness, normal_metallic, depth } => seq![
            camera,
            albedo_roughness,
            normal_metallic,
            depth,
        ],
        SetLayoutInfo::PostProcess { source, immutable_sampler: _ } => seq![source],
    }
}

/// Whether a descriptor set is filled with what its layout has places for: one resource of the
/// right kind for each, numbered in order.
pub open spec fn fills(contents: DescriptorContents, info: SetLayoutInfo) -> bool {
    &&& kinds_of_contents(contents) matches Some(kinds)
    &&& kinds == places(info).map_values(|place: LayoutBinding| place.descriptor_type)
    &&& forall|i: int|
        0 <= i < places(info).len() ==> (#[trigger] places(info)[i]).binding == i
            && places(info)[i].descriptor_count == 1
}

/// The descriptor sets of a frame and of an effect are filled with what the layouts they were
/// created with have places for. Of the places of a frame, one takes the dynamic offset that is
/// given when the set is bound.
pub proof fn law_descriptor_sets_fit_their_layouts(
    manager: VulkanManager,
    sampler: u64,
    image: u64,
    layout: ImageLayout,
    sampled_with: u64,
    pipeline_layout: u64,
)
    ensures
        fills(manager.frame_data_request().contents, frame_data_layout_info()),
        fills(
            DescriptorContents::ImageSampler { image, layout, sampler: sampled_with },
            pp_set_layout_info(sampler),
        ),
        manager.frame_data_bind(pipeline_layout)->dynamic_offset is Some,
        forall|i: int|
            0 <= i < places(frame_data_layout_info()).len() ==> ((
            #[trigger] places(frame_data_layout_info())[i]).descriptor_type
                == DescriptorType::UniformBufferDynamic <==> i == 0),
{
    assert(kinds_of_contents(manager.frame_data_request().contents)->0 =~= places(
        frame_data_layout_info(),
    ).map_values(|place: LayoutBinding| place.descriptor_type));
    assert(seq![DescriptorType::CombinedImageSampler] =~= places(
        pp_set_layout_info(sampler),
    ).map_values(|place: LayoutBinding| place.descriptor_type));
}

/// The parameters of a light go to the shader stages, and to the offset, that the pipeline layout
/// of the resolve pass has a block of push constants for.
pub proof fn law_lights_fit_their_pipeline_layout(manager: VulkanManager, data: PushData)
    ensures
        light_op(manager.pipeline_layout_resolve_pass, data) matches Op::Command(
            Command::PushConstants { layout: _, stages, offset, data: _ },
        ) && {
            let range = resolve_layout_info(manager.desc_layout_frame_data).push_constants->0;
            stages == range.stages && offset == range.offset
        },
{
}

} // verus!
