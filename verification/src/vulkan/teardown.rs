//! Destroying the renderer, and that nothing it created is left behind.

use vstd::multiset::Multiset;
use vstd::prelude::*;

use crate::vulkan::manager::VulkanManager;
use crate::vulkan::script::{sure, unstarted, vital, DeviceCall, Failure, Script, Step};
use crate::vulkan::setup::{Setup, SetupCall, SetupReply, SetupStage};

verus! {

/// The calls that destroy some semaphores.
pub open spec fn destroy_semaphores(semaphores: Seq<u64>) -> Seq<Step> {
    semaphores.map_values(|semaphore: u64| sure(DeviceCall::DestroySemaphore(semaphore)))
}

/// The calls that destroy some fences.
pub open spec fn destroy_fences(fences: Seq<u64>) -> Seq<Step> {
    fences.map_values(|fence: u64| sure(DeviceCall::DestroyFence(fence)))
}

impl VulkanManager {
    /// The calls that come before any object of a frame is destroyed.
    pub open spec fn drop_head(self) -> Seq<Step> {
        seq![
            vital(DeviceCall::DeviceWaitIdle, Failure::WaitBeforeTeardown),
            sure(DeviceCall::ClearLightingPipelines),
            sure(DeviceCall::ClearPPEffects),
        ]
    }

    /// The calls that destroy the objects of the frames.
    pub open spec fn drop_frames(self) -> Seq<Step> {
        destroy_semaphores(self.image_acquire_semaphores@) + destroy_semaphores(
            self.render_finished_semaphores@,
        ) + destroy_fences(self.frame_resource_fences@)
    }

    /// The calls that destroy everything else, the device and the instance last.
    pub open spec fn drop_tail(self) -> Seq<Step> {
        seq![
            sure(DeviceCall::DestroyDescriptorManager),
            sure(DeviceCall::DestroyUniformBuffer),
            sure(DeviceCall::CleanupPools),
            sure(DeviceCall::DestroyRenderPass(self.renderpass)),
            sure(DeviceCall::DestroyRenderPass(self.renderpass_pp)),
            sure(DeviceCall::CleanupSwapchain),
            sure(DeviceCall::DestroySampler(self.sampler_linear)),
            sure(DeviceCall::DestroyDescriptorSetLayout(self.desc_layout_frame_data)),
            sure(DeviceCall::DestroyDescriptorSetLayout(self.desc_layout_pp)),
            sure(DeviceCall::DestroyPipelineLayout(self.pipeline_layout_gpass)),
            sure(DeviceCall::DestroyPipelineLayout(self.pipeline_layout_resolve_pass)),
            sure(DeviceCall::DestroyPipelineLayout(self.pipe_layout_pp)),
            sure(DeviceCall::DropAllocator),
            sure(DeviceCall::DestroyDevice),
            sure(DeviceCall::DropSurface),
            sure(DeviceCall::DropDebugMessenger),
            sure(DeviceCall::DestroyInstance),
        ]
    }

    /// The calls that destroy the renderer.
    pub open spec fn drop_steps(self) -> Seq<Step> {
        self.drop_head() + self.drop_frames() + self.drop_tail()
    }

    /// What has to be done to destroy the renderer.
    pub fn drop(&self) -> (script: Script)
        ensures
            script@ == unstarted(self.drop_steps()),
    {
        let mut steps: Vec<Step> = Vec::new();
        steps.push(Step::vital(DeviceCall::DeviceWaitIdle, Failure::WaitBeforeTeardown));
        steps.push(Step::sure(DeviceCall::ClearLightingPipelines));
        steps.push(Step::sure(DeviceCall::ClearPPEffects));
        assert(steps@ == self.drop_head());
        Self::push_destroy_semaphores(&mut steps, &self.image_acquire_semaphores);
        Self::push_destroy_semaphores(&mut steps, &self.render_finished_semaphores);
        Self::push_destroy_fences(&mut steps, &self.frame_resource_fences);
        assert(steps@ == self.drop_head() + self.drop_frames());
        steps.push(Step::sure(DeviceCall::DestroyDescriptorManager));
        steps.push(Step::sure(DeviceCall::DestroyUniformBuffer));
        steps.push(Step::sure(DeviceCall::CleanupPools));
        steps.push(Step::sure(DeviceCall::DestroyRenderPass(self.renderpass)));
        steps.push(Step::sure(DeviceCall::DestroyRenderPass(self.renderpass_pp)));
        steps.push(Step::sure(DeviceCall::CleanupSwapchain));
        steps.push(Step::sure(DeviceCall::DestroySampler(self.sampler_linear)));
        steps.push(
            Step::sure(DeviceCall::DestroyDescriptorSetLayout(self.desc_layout_frame_data)),
        );
        steps.push(Step::sure(DeviceCall::DestroyDescriptorSetLayout(self.desc_layout_pp)));
        steps.push(Step::sure(DeviceCall::DestroyPipelineLayout(self.pipeline_layout_gpass)));
        steps.push(
            Step::sure(DeviceCall::DestroyPipelineLayout(self.pipeline_layout_resolve_pass)),
        );
        steps.push(Step::sure(DeviceCall::DestroyPipelineLayout(self.pipe_layout_pp)));
        steps.push(Step::sure(DeviceCall::DropAllocator));
        steps.push(Step::sure(DeviceCall::DestroyDevice));
        steps.push(Step::sure(DeviceCall::DropSurface));
        steps.push(Step::sure(DeviceCall::DropDebugMessenger));
        steps.push(Step::sure(DeviceCall::DestroyInstance));
        assert(steps@ == self.drop_steps());
        Script::new(steps)
    }

    /// Appends the calls that destroy some semaphores.
    fn push_destroy_semaphores(steps: &mut Vec<Step>, semaphores: &Vec<u64>)
        ensures
            final(steps)@ == old(steps)@ + destroy_semaphores(semaphores@),
    {
        let mut i: usize = 0;
        while i < semaphores.len()
            invariant
                i <= semaphores@.len(),
                steps@ == old(steps)@ + destroy_semaphores(semaphores@.take(i as int)),
            decreases semaphores@.len() - i,
        {
            steps.push(Step::sure(DeviceCall::DestroySemaphore(semaphores[i])));
            i += 1;
            assert(destroy_semaphores(semaphores@.take(i as int)) == destroy_semaphores(
                semaphores@.take(i - 1),
            ).push(sure(DeviceCall::DestroySemaphore(semaphores@[i - 1]))));
        }
        assert(semaphores@.take(i as int) == semaphores@);
    }

    /// Appends the calls that destroy some fences.
    fn push_destroy_fences(steps: &mut Vec<Step>, fences: &Vec<u64>)
        ensures
            final(steps)@ == old(steps)@ + destroy_fences(fences@),
    {
        let mut i: usize = 0;
        while i < fences.len()
            invariant
                i <= fences@.len(),
                steps@ == old(steps)@ + destroy_fences(fences@.take(i as int)),
            decreases fences@.len() - i,
        {
            steps.push(Step::sure(DeviceCall::DestroyFence(fences[i])));
            i += 1;
            assert(destroy_fences(fences@.take(i as int)) == destroy_fences(
                fences@.take(i - 1),
            ).push(sure(DeviceCall::DestroyFence(fences@[i - 1]))));
        }
        assert(fences@.take(i as int) == fences@);
    }
}

/// An object that the renderer creates and has to destroy itself.
pub enum Resource {
    RenderPass(u64),
    DescriptorSetLayout(u64),
    PipelineLayout(u64),
    Semaphore(u64),
    Fence(u64),
    Sampler(u64),
}

/// What a step of the creation adds to what exists.
pub open spec fn created<E>(call: SetupCall, reply: SetupReply<E>) -> Multiset<Resource> {
    match (call, reply) {
        (SetupCall::CreateRenderPass(_), SetupReply::Handle(handle)) => Multiset::singleton(
            Resource::RenderPass(handle),
        ),
        (SetupCall::InitRenderPass { .. }, SetupReply::Handle(handle)) => Multiset::singleton(
            Resource::RenderPass(handle),
        ),
        (SetupCall::CreateDescriptorSetLayout(_), SetupReply::Handle(handle)) => Multiset::singleton(
            Resource::DescriptorSetLayout(handle),
        ),
        (SetupCall::CreatePipelineLayout(_), SetupReply::Handle(handle)) => Multiset::singleton(
            Resource::PipelineLayout(handle),
        ),
        (SetupCall::CreateSemaphore, SetupReply::Handle(handle)) => Multiset::singleton(
            Resource::Semaphore(handle),
        ),
        (SetupCall::CreateFence { .. }, SetupReply::Handle(handle)) => Multiset::singleton(
            Resource::Fence(handle),
        ),
        (SetupCall::CreateSampler(_), SetupReply::Handle(handle)) => Multiset::singleton(
            Resource::Sampler(handle),
        ),
        _ => Multiset::empty(),
    }
}

/// What a call destroys.
pub open spec fn destroyed_by(call: DeviceCall) -> Multiset<Resource> {
    match call {
        DeviceCall::DestroyRenderPass(handle) => Multiset::singleton(Resource::RenderPass(handle)),
        DeviceCall::DestroyDescriptorSetLayout(handle) => Multiset::singleton(
            Resource::DescriptorSetLayout(handle),
        ),
        DeviceCall::DestroyPipelineLayout(handle) => Multiset::singleton(
            Resource::PipelineLayout(handle),
        ),
        DeviceCall::DestroySemaphore(handle) => Multiset::singleton(Resource::Semaphore(handle)),
        DeviceCall::DestroyFence(handle) => Multiset::singleton(Resource::Fence(handle)),
        DeviceCall::DestroySampler(handle) => Multiset::singleton(Resource::Sampler(handle)),
        _ => Multiset::empty(),
    }
}

/// What a run of calls destroys.
pub open spec fn destroyed(steps: Seq<Step>) -> Multiset<Resource>
    decreases steps.len(),
{
    if steps.len() == 0 {
        Multiset::empty()
    } else {
        destroyed(steps.drop_last()).add(destroyed_by(steps.last().call))
    }
}

/// Some semaphores as resources.
pub open spec fn semaphore_resources(handles: Seq<u64>) -> Multiset<Resource> {
    handles.map_values(|handle: u64| Resource::Semaphore(handle)).to_multiset()
}

/// Some fences as resources.
pub open spec fn fence_resources(handles: Seq<u64>) -> Multiset<Resource> {
    handles.map_values(|handle: u64| Resource::Fence(handle)).to_multiset()
}

/// A resource that exists only under a condition.
pub open spec fn given(exists_yet: bool, resource: Resource) -> Multiset<Resource> {
    if exists_yet {
        Multiset::singleton(resource)
    } else {
        Multiset::empty()
    }
}

/// What the steps done so far have created, by what is kept of them.
pub open spec fn held<E>(setup: Setup<E>) -> Multiset<Resource> {
    let m = setup.manager;
    let n = setup.steps_done();
    let after_frames = match setup.stage {
        SetupStage::CreateSampler => 1int,
        SetupStage::PostProcessSetLayout => 2int,
        SetupStage::PostProcessPipelineLayout => 3int,
        SetupStage::Finished => 4int,
        _ => 0int,
    };
    given(n > 9, Resource::RenderPass(m.renderpass_pp)).add(
        given(n > 11, Resource::RenderPass(m.renderpass)),
    ).add(given(n > 16, Resource::DescriptorSetLayout(m.desc_layout_frame_data))).add(
        given(n > 17, Resource::PipelineLayout(m.pipeline_layout_gpass)),
    ).add(given(n > 18, Resource::PipelineLayout(m.pipeline_layout_resolve_pass))).add(
        semaphore_resources(m.image_acquire_semaphores@),
    ).add(semaphore_resources(m.render_finished_semaphores@)).add(
        fence_resources(m.frame_resource_fences@),
    ).add(given(after_frames > 1, Resource::Sampler(m.sampler_linear))).add(
        given(after_frames > 2, Resource::DescriptorSetLayout(m.desc_layout_pp)),
    ).add(given(after_frames > 3, Resource::PipelineLayout(m.pipe_layout_pp)))
}

/// Each step of the creation adds to what is kept exactly what it creates.
pub proof fn law_setup_keeps_what_it_creates<E>(
    setup: Setup<E>,
    reply: SetupReply<E>,
    next: Setup<E>,
)
    requires
        setup.wf(),
        setup.answered_by(reply),
        reply !is Failed,
        setup.leads_to(reply, next),
    ensures
        held(next) =~= held(setup).add(created(setup.call()->0, reply)),
{
    broadcast use vstd::multiset::group_multiset_axioms;

    match (setup.stage, reply) {
        (SetupStage::AcquireSemaphore, SetupReply::Handle(handle)) => {
            lemma_push_semaphore(setup.manager.image_acquire_semaphores@, handle);
        },
        (SetupStage::FinishedSemaphore, SetupReply::Handle(handle)) => {
            lemma_push_semaphore(setup.manager.render_finished_semaphores@, handle);
        },
        (SetupStage::FrameFence, SetupReply::Handle(handle)) => {
            lemma_push_fence(setup.manager.frame_resource_fences@, handle);
        },
        _ => {},
    }
}

proof fn lemma_push_semaphore(handles: Seq<u64>, handle: u64)
    ensures
        semaphore_resources(handles.push(handle)) == semaphore_resources(handles).add(
            Multiset::singleton(Resource::Semaphore(handle)),
        ),
{
    broadcast use vstd::seq_lib::group_to_multiset_ensures;

    let mapped = handles.map_values(|h: u64| Resource::Semaphore(h));
    assert(handles.push(handle).map_values(|h: u64| Resource::Semaphore(h)) == mapped.push(
        Resource::Semaphore(handle),
    ));
    assert(mapped.push(Resource::Semaphore(handle)).to_multiset() =~= mapped.to_multiset().insert(
        Resource::Semaphore(handle),
    ));
}

proof fn lemma_push_fence(handles: Seq<u64>, handle: u64)
    ensures
        fence_resources(handles.push(handle)) == fence_resources(handles).add(
            Multiset::singleton(Resource::Fence(handle)),
        ),
{
    broadcast use vstd::seq_lib::group_to_multiset_ensures;

    let mapped = handles.map_values(|h: u64| Resource::Fence(h));
    assert(handles.push(handle).map_values(|h: u64| Resource::Fence(h)) == mapped.push(
        Resource::Fence(handle),
    ));
    assert(mapped.push(Resource::Fence(handle)).to_multiset() =~= mapped.to_multiset().insert(
        Resource::Fence(handle),
    ));
}

/// Everything that a renderer has to destroy itself.
pub open spec fn resources(m: VulkanManager) -> Multiset<Resource> {
    semaphore_resources(m.image_acquire_semaphores@).add(
        semaphore_resources(m.render_finished_semaphores@),
    ).add(fence_resources(m.frame_resource_fences@)).add(
        Multiset::singleton(Resource::RenderPass(m.renderpass)),
    ).add(Multiset::singleton(Resource::RenderPass(m.renderpass_pp))).add(
        Multiset::singleton(Resource::Sampler(m.sampler_linear)),
    ).add(Multiset::singleton(Resource::DescriptorSetLayout(m.desc_layout_frame_data))).add(
        Multiset::singleton(Resource::DescriptorSetLayout(m.desc_layout_pp)),
    ).add(Multiset::singleton(Resource::PipelineLayout(m.pipeline_layout_gpass))).add(
        Multiset::singleton(Resource::PipelineLayout(m.pipeline_layout_resolve_pass)),
    ).add(Multiset::singleton(Resource::PipelineLayout(m.pipe_layout_pp)))
}

/// A creation starts with nothing and, once finished, holds exactly what the renderer has to
/// destroy.
pub proof fn law_setup_from_nothing_to_everything<E>(setup: Setup<E>)
    requires
        setup.wf(),
    ensures
        setup.stage is LoadEntry ==> held(setup) =~= Multiset::<Resource>::empty(),
        setup.stage is Finished ==> held(setup) =~= resources(setup.manager),
{
    broadcast use vstd::multiset::group_multiset_axioms;
    broadcast use vstd::seq_lib::group_to_multiset_ensures;

    let m = setup.manager;
    if setup.stage is LoadEntry {
        assert(m.image_acquire_semaphores@.map_values(|h: u64| Resource::Semaphore(h))
            == Seq::<Resource>::empty());
        assert(m.render_finished_semaphores@.map_values(|h: u64| Resource::Semaphore(h))
            == Seq::<Resource>::empty());
        assert(m.frame_resource_fences@.map_values(|h: u64| Resource::Fence(h))
            == Seq::<Resource>::empty());
    }
}

proof fn lemma_destroyed_concat(a: Seq<Step>, b: Seq<Step>)
    ensures
        destroyed(a + b) =~= destroyed(a).add(destroyed(b)),
    decreases b.len(),
{
    broadcast use vstd::multiset::group_multiset_axioms;

    if b.len() == 0 {
        assert(a + b == a);
    } else {
        lemma_destroyed_concat(a, b.drop_last());
        assert((a + b).drop_last() == a + b.drop_last());
        assert((a + b).last() == b.last());
    }
}

proof fn lemma_destroyed_semaphores(handles: Seq<u64>)
    ensures
        destroyed(destroy_semaphores(handles)) =~= semaphore_resources(handles),
    decreases handles.len(),
{
    broadcast use vstd::multiset::group_multiset_axioms;
    broadcast use vstd::seq_lib::group_to_multiset_ensures;

    if handles.len() == 0 {
        assert(handles.map_values(|h: u64| Resource::Semaphore(h)) == Seq::<Resource>::empty());
    } else {
        let rest = handles.drop_last();
        lemma_destroyed_semaphores(rest);
        lemma_push_semaphore(rest, handles.last());
        assert(rest.push(handles.last()) == handles);
        assert(destroy_semaphores(handles).drop_last() == destroy_semaphores(rest));
    }
}

proof fn lemma_destroyed_fences(handles: Seq<u64>)
    ensures
        destroyed(destroy_fences(handles)) =~= fence_resources(handles),
    decreases handles.len(),
{
    broadcast use vstd::multiset::group_multiset_axioms;
    broadcast use vstd::seq_lib::group_to_multiset_ensures;

    if handles.len() == 0 {
        assert(handles.map_values(|h: u64| Resource::Fence(h)) == Seq::<Resource>::empty());
    } else {
        let rest = handles.drop_last();
        lemma_destroyed_fences(rest);
        lemma_push_fence(rest, handles.last());
        assert(rest.push(handles.last()) == handles);
        assert(destroy_fences(handles).drop_last() == destroy_fences(rest));
    }
}

proof fn lemma_destroyed_push(steps: Seq<Step>, step: Step)
    ensures
        destroyed(steps.push(step)) == destroyed(steps).add(destroyed_by(step.call)),
{
    assert(steps.push(step).drop_last() == steps);
}

/// Destroying a renderer destroys everything that its creation left it with, each object once.
pub proof fn law_drop_destroys_everything_once(m: VulkanManager)
    ensures
        destroyed(m.drop_steps()) =~= resources(m),
{
    broadcast use vstd::multiset::group_multiset_axioms;

    let none = Seq::<Step>::empty();
    let h = m.drop_head();
    lemma_destroyed_push(none, h[0]);
    lemma_destroyed_push(none.push(h[0]), h[1]);
    lemma_destroyed_push(none.push(h[0]).push(h[1]), h[2]);
    assert(h == none.push(h[0]).push(h[1]).push(h[2]));
    assert(destroyed(h) =~= Multiset::<Resource>::empty());

    lemma_destroyed_semaphores(m.image_acquire_semaphores@);
    lemma_destroyed_semaphores(m.render_finished_semaphores@);
    lemma_destroyed_fences(m.frame_resource_fences@);
    lemma_destroyed_concat(
        destroy_semaphores(m.image_acquire_semaphores@),
        destroy_semaphores(m.render_finished_semaphores@),
    );
    lemma_destroyed_concat(
        destroy_semaphores(m.image_acquire_semaphores@) + destroy_semaphores(
            m.render_finished_semaphores@,
        ),
        destroy_fences(m.frame_resource_fences@),
    );
    lemma_destroyed_concat(h, m.drop_frames());
    lemma_destroyed_concat(h + m.drop_frames(), m.drop_tail());
    lemma_destroyed_tail(m);
}

proof fn lemma_destroyed_tail(m: VulkanManager)
    ensures
        destroyed(m.drop_tail()) =~= Multiset::singleton(Resource::RenderPass(m.renderpass)).add(
            Multiset::singleton(Resource::RenderPass(m.renderpass_pp)),
        ).add(Multiset::singleton(Resource::Sampler(m.sampler_linear))).add(
            Multiset::singleton(Resource::DescriptorSetLayout(m.desc_layout_frame_data)),
        ).add(Multiset::singleton(Resource::DescriptorSetLayout(m.desc_layout_pp))).add(
            Multiset::singleton(Resource::PipelineLayout(m.pipeline_layout_gpass)),
        ).add(Multiset::singleton(Resource::PipelineLayout(m.pipeline_layout_resolve_pass))).add(
            Multiset::singleton(Resource::PipelineLayout(m.pipe_layout_pp)),
        ),
{
    broadcast use vstd::multiset::group_multiset_axioms;

    let t = m.drop_tail();
    lemma_destroyed_takes(t, 17);
    assert(t.take(17) == t);
    assert(t.take(0) == Seq::<Step>::empty());
    assert(destroyed(t.take(3)) =~= Multiset::<Resource>::empty());
    assert(destroyed(t.take(8)) =~= Multiset::singleton(Resource::RenderPass(m.renderpass)).add(
        Multiset::singleton(Resource::RenderPass(m.renderpass_pp)),
    ).add(Multiset::singleton(Resource::Sampler(m.sampler_linear))).add(
        Multiset::singleton(Resource::DescriptorSetLayout(m.desc_layout_frame_data)),
    ));
    assert(destroyed(t.take(12)) =~= destroyed(t.take(8)).add(
        Multiset::singleton(Resource::DescriptorSetLayout(m.desc_layout_pp)),
    ).add(Multiset::singleton(Resource::PipelineLayout(m.pipeline_layout_gpass))).add(
        Multiset::singleton(Resource::PipelineLayout(m.pipeline_layout_resolve_pass)),
    ).add(Multiset::singleton(Resource::PipelineLayout(m.pipe_layout_pp))));
    assert(destroyed(t.take(17)) =~= destroyed(t.take(12)));
}

proof fn lemma_destroyed_takes(steps: Seq<Step>, n: int)
    requires
        0 <= n <= steps.len(),
    ensures
        forall|i: int|
            0 <= i < n ==> destroyed(steps.take(i + 1)) == destroyed(#[trigger] steps.take(i)).add(
                destroyed_by(steps[i].call),
            ),
{
    assert forall|i: int| 0 <= i < n implies destroyed(steps.take(i + 1)) == destroyed(
        #[trigger] steps.take(i),
    ).add(destroyed_by(steps[i].call)) by {
        assert(steps.take(i + 1).drop_last() == steps.take(i));
    }
}

/// Whether a call needs the device.
pub open spec fn needs_device(call: DeviceCall) -> bool {
    !(call is DestroyDevice || call is DropSurface || call is DropDebugMessenger
        || call is DestroyInstance)
}

/// A renderer is destroyed in an order that works: nothing is destroyed before the device is idle,
/// nothing that needs the device comes after it is gone, and the instance is the last to go.
pub proof fn law_drop_order(m: VulkanManager)
    ensures
        m.drop_steps().first() == vital(DeviceCall::DeviceWaitIdle, Failure::WaitBeforeTeardown),
        m.drop_steps().last() == sure(DeviceCall::DestroyInstance),
        forall|i: int, j: int|
            0 <= i < m.drop_steps().len() && 0 <= j < m.drop_steps().len() && needs_device(
                (#[trigger] m.drop_steps()[i]).call,
            ) && (#[trigger] m.drop_steps()[j]).call is DestroyDevice ==> i < j,
        forall|i: int|
            0 < i < m.drop_steps().len() ==> (#[trigger] m.drop_steps()[i]).on_failure is None,
{
    let steps = m.drop_steps();
    let at = m.drop_head().len() + m.drop_frames().len();
    assert forall|i: int| 0 <= i < steps.len() implies {
        &&& ((#[trigger] steps[i]).call is DestroyDevice <==> i == at + 13)
        &&& (needs_device(steps[i].call) ==> i < at + 13)
        &&& (i > 0 ==> steps[i].on_failure is None)
    } by {
        let a = destroy_semaphores(m.image_acquire_semaphores@);
        let b = destroy_semaphores(m.render_finished_semaphores@);
        let c = destroy_fences(m.frame_resource_fences@);
        let k = i - m.drop_head().len();
        if i < m.drop_head().len() {
            assert(steps[i] == m.drop_head()[i]);
        } else if i < at {
            assert(steps[i] == m.drop_frames()[k]);
            if k < a.len() {
                assert(m.drop_frames()[k] == a[k]);
            } else if k < a.len() + b.len() {
                assert(m.drop_frames()[k] == b[k - a.len()]);
            } else {
                assert(m.drop_frames()[k] == c[k - a.len() - b.len()]);
            }
        } else {
            assert(steps[i] == m.drop_tail()[i - at]);
        }
    }
}

/// A renderer with any number of frames is destroyed by these calls and no others: once the device
/// is idle and what was registered is let go of, every first semaphore, every second semaphore and
/// every fence, each frame's in its turn, and then the rest in one order.
pub proof fn law_drop_makes_these_calls(m: VulkanManager, i: int)
    requires
        0 <= i < m.drop_steps().len(),
    ensures
        ({
            let a = m.image_acquire_semaphores@.len();
            let b = m.render_finished_semaphores@.len();
            let c = m.frame_resource_fences@.len();
            let call = m.drop_steps()[i].call;
            let rest = i - 3 - a - b - c;
            &&& m.drop_steps().len() == 20 + a + b + c
            &&& i == 0 ==> call is DeviceWaitIdle
            &&& i == 1 ==> call is ClearLightingPipelines
            &&& i == 2 ==> call is ClearPPEffects
            &&& 3 <= i < 3 + a ==> call == DeviceCall::DestroySemaphore(
                m.image_acquire_semaphores@[i - 3],
            )
            &&& 3 + a <= i < 3 + a + b ==> call == DeviceCall::DestroySemaphore(
                m.render_finished_semaphores@[i - 3 - a],
            )
            &&& 3 + a + b <= i < 3 + a + b + c ==> call == DeviceCall::DestroyFence(
                m.frame_resource_fences@[i - 3 - a - b],
            )
            &&& rest == 0 ==> call is DestroyDescriptorManager
            &&& rest == 1 ==> call is DestroyUniformBuffer
            &&& rest == 2 ==> call is CleanupPools
            &&& rest == 3 ==> call == DeviceCall::DestroyRenderPass(m.renderpass)
            &&& rest == 4 ==> call == DeviceCall::DestroyRenderPass(m.renderpass_pp)
            &&& rest == 5 ==> call is CleanupSwapchain
            &&& rest == 6 ==> call == DeviceCall::DestroySampler(m.sampler_linear)
            &&& rest == 7 ==> call == DeviceCall::DestroyDescriptorSetLayout(
                m.desc_layout_frame_data,
            )
            &&& rest == 8 ==> call == DeviceCall::DestroyDescriptorSetLayout(m.desc_layout_pp)
            &&& rest == 9 ==> call == DeviceCall::DestroyPipelineLayout(m.pipeline_layout_gpass)
            &&& rest == 10 ==> call == DeviceCall::DestroyPipelineLayout(
                m.pipeline_layout_resolve_pass,
            )
            &&& rest == 11 ==> call == DeviceCall::DestroyPipelineLayout(m.pipe_layout_pp)
            &&& rest == 12 ==> call is DropAllocator
            &&& rest == 13 ==> call is DestroyDevice
            &&& rest == 14 ==> call is DropSurface
            &&& rest == 15 ==> call is DropDebugMessenger
            &&& rest == 16 ==> call is DestroyInstance
        }),
{
    let x = destroy_semaphores(m.image_acquire_semaphores@);
    let y = destroy_semaphores(m.render_finished_semaphores@);
    let z = destroy_fences(m.frame_resource_fences@);
    let steps = m.drop_steps();
    let at = 3 + x.len() + y.len() + z.len();
    assert(m.drop_head().len() == 3 && m.drop_tail().len() == 17);
    if i < 3 {
        assert(steps[i] == m.drop_head()[i]);
    } else if i < at {
        assert(steps[i] == m.drop_frames()[i - 3]);
        if i - 3 < x.len() {
            assert(m.drop_frames()[i - 3] == x[i - 3]);
        } else if i - 3 < x.len() + y.len() {
            assert(m.drop_frames()[i - 3] == y[i - 3 - x.len()]);
        } else {
            assert(m.drop_frames()[i - 3] == z[i - 3 - x.len() - y.len()]);
        }
    } else {
        assert(steps[i] == m.drop_tail()[i - at]);
    }
}

} // verus!
