//! The order in which the models of a scene are drawn.

use vstd::prelude::*;

use crate::scene::Model;
use crate::vulkan::manager::VulkanManager;

verus! {

/// Whether two models share pipeline, material and mesh.
pub open spec fn same_key(a: Model, b: Model) -> bool {
    &&& a.pipeline == b.pipeline
    &&& a.material == b.material
    &&& a.material_table == b.material_table
    &&& a.mesh == b.mesh
}

/// The order by pipeline, then material, then mesh. Materials are told apart as pointers to trait
/// objects are: by address, then by method table.
pub open spec fn key_less(a: Model, b: Model) -> bool {
    if a.pipeline != b.pipeline {
        a.pipeline < b.pipeline
    } else if a.material != b.material {
        a.material < b.material
    } else if a.material_table != b.material_table {
        a.material_table < b.material_table
    } else {
        a.mesh < b.mesh
    }
}

/// Whether an order goes by pipeline, then material, then mesh, with models that share all three
/// in the order of the scene.
pub open spec fn sorted_by_key(models: Seq<Model>, order: Seq<usize>) -> bool {
    forall|a: int, b: int|
        0 <= a < b < order.len() ==> {
            ||| key_less(models[#[trigger] order[a] as int], models[#[trigger] order[b] as int])
            ||| same_key(models[order[a] as int], models[order[b] as int]) && order[a] < order[b]
        }
}

/// Whether an order holds each position of a scene of `n` models exactly once.
pub open spec fn each_once(order: Seq<usize>, n: nat) -> bool {
    &&& order.len() == n
    &&& order.no_duplicates()
    &&& forall|i: usize| order.contains(i) <==> i < n
}

/// The position in `order`, at or after `from`, of the first model that `obj` comes before, or
/// the end.
pub open spec fn slot_from(models: Seq<Model>, order: Seq<usize>, obj: Model, from: int) -> int
    decreases order.len() - from,
{
    if from >= order.len() || key_less(obj, models[order[from] as int]) {
        from
    } else {
        slot_from(models, order, obj, from + 1)
    }
}

/// The drawing order of the first `n` models: each in turn is inserted before the first of those
/// already placed that it comes before.
pub open spec fn render_order(models: Seq<Model>, n: nat) -> Seq<usize>
    decreases n,
{
    if n == 0 {
        Seq::empty()
    } else {
        let placed = render_order(models, (n - 1) as nat);
        placed.insert(slot_from(models, placed, models[n - 1], 0), (n - 1) as usize)
    }
}

proof fn lemma_slot_bounds(models: Seq<Model>, order: Seq<usize>, obj: Model, from: int)
    requires
        0 <= from <= order.len(),
    ensures
        from <= slot_from(models, order, obj, from) <= order.len(),
        forall|k: int|
            from <= k < slot_from(models, order, obj, from) ==> !key_less(
                obj,
                models[#[trigger] order[k] as int],
            ),
        slot_from(models, order, obj, from) < order.len() ==> key_less(
            obj,
            models[order[slot_from(models, order, obj, from)] as int],
        ),
    decreases order.len() - from,
{
    if from < order.len() && !key_less(obj, models[order[from] as int]) {
        lemma_slot_bounds(models, order, obj, from + 1);
    }
}

/// The drawing order of `n` models holds each of their positions exactly once.
pub proof fn law_render_order_is_a_permutation(models: Seq<Model>, n: nat)
    requires
        n <= usize::MAX,
    ensures
        each_once(render_order(models, n), n),
    decreases n,
{
    if n > 0 {
        let placed = render_order(models, (n - 1) as nat);
        let at = slot_from(models, placed, models[n - 1], 0);
        let order = render_order(models, n);
        law_render_order_is_a_permutation(models, (n - 1) as nat);
        lemma_slot_bounds(models, placed, models[n - 1], 0);
        assert(order[at] == n - 1);
        assert forall|i: usize| order.contains(i) <==> i < n by {
            if order.contains(i) {
                let k = choose|k: int| 0 <= k < order.len() && order[k] == i;
                if k < at {
                    assert(placed[k] == i);
                    assert(placed.contains(i));
                } else if k > at {
                    assert(placed[k - 1] == i);
                    assert(placed.contains(i));
                }
            }
            if i < n - 1 {
                assert(placed.contains(i));
                let k = choose|k: int| 0 <= k < placed.len() && placed[k] == i;
                if k < at {
                    assert(order[k] == i);
                } else {
                    assert(order[k + 1] == i);
                }
            }
        }
        assert forall|j: int, k: int| 0 <= j < order.len() && 0 <= k < order.len() && j != k implies
            order[j] != order[k] by {
            let pj = if j < at { j } else { j - 1 };
            let pk = if k < at { k } else { k - 1 };
            if j != at {
                assert(placed.contains(placed[pj]));
            }
            if k != at {
                assert(placed.contains(placed[pk]));
            }
        }
    }
}

/// The drawing order of `n` models goes by pipeline, then material, then mesh, and keeps models
/// that share all three in the order of the scene.
pub proof fn law_render_order_is_sorted(models: Seq<Model>, n: nat)
    requires
        n <= usize::MAX,
    ensures
        sorted_by_key(models, render_order(models, n)),
    decreases n,
{
    if n > 0 {
        let order = render_order(models, n);
        let placed = render_order(models, (n - 1) as nat);
        let obj = models[n - 1];
        let at = slot_from(models, placed, obj, 0);
        law_render_order_is_a_permutation(models, (n - 1) as nat);
        law_render_order_is_sorted(models, (n - 1) as nat);
        lemma_slot_bounds(models, placed, obj, 0);
        assert forall|a: int, b: int| 0 <= a < b < order.len() implies {
            ||| key_less(models[#[trigger] order[a] as int], models[#[trigger] order[b] as int])
            ||| same_key(models[order[a] as int], models[order[b] as int]) && order[a] < order[b]
        } by {
            if b == at {
                assert(order[a] == placed[a]);
                assert(placed.contains(placed[a]));
            } else if a == at {
                assert(order[b] == placed[b - 1]);
                if b - 1 > at {
                    assert(key_less(obj, models[placed[at] as int]));
                }
            } else {
                let a2 = if a < at { a } else { a - 1 };
                let b2 = if b < at { b } else { b - 1 };
                assert(order[a] == placed[a2] && order[b] == placed[b2]);
            }
        }
    }
}

/// In a sorted order the models of one pipeline are next to each other, among them those of one
/// material are, and among those the ones of one mesh: whatever stands between two models shares
/// what the two share.
pub proof fn law_sorted_order_groups_models(
    models: Seq<Model>,
    order: Seq<usize>,
    a: int,
    b: int,
    c: int,
)
    requires
        sorted_by_key(models, order),
        0 <= a < b < c < order.len(),
        models[order[a] as int].pipeline == models[order[c] as int].pipeline,
    ensures
        models[order[b] as int].pipeline == models[order[a] as int].pipeline,
        models[order[a] as int].material == models[order[c] as int].material
            ==> models[order[b] as int].material == models[order[a] as int].material,
        same_key(models[order[a] as int], models[order[c] as int]) ==> same_key(
            models[order[b] as int],
            models[order[a] as int],
        ),
{
}

/// Whether one model may come right or at some distance before another: its pipeline is not the
/// greater one; if they share the pipeline, its material is not at the greater address; if they
/// share that too, its method table is not the greater one; if they share that too, its mesh is not
/// at the greater address; and if they share everything, it stands before the other in the scene.
pub open spec fn in_order(models: Seq<Model>, first: usize, second: usize) -> bool {
    let a = models[first as int];
    let b = models[second as int];
    &&& a.pipeline <= b.pipeline
    &&& a.pipeline == b.pipeline ==> a.material <= b.material
    &&& a.pipeline == b.pipeline && a.material == b.material ==> a.material_table
        <= b.material_table
    &&& a.pipeline == b.pipeline && a.material == b.material && a.material_table
        == b.material_table ==> a.mesh <= b.mesh
    &&& a.pipeline == b.pipeline && a.material == b.material && a.material_table
        == b.material_table && a.mesh == b.mesh ==> first < second
}

/// Of any two models, the one with the smaller pipeline is drawn first; then the material decides,
/// by address and by method table, then the mesh, and at last the place in the scene. Every model of
/// the scene has exactly one place in the order, and nothing else has one.
pub proof fn law_models_are_drawn_in_order(models: Seq<Model>, n: nat)
    requires
        n <= usize::MAX,
    ensures
        ({
            let order = render_order(models, n);
            &&& order.len() == n
            &&& forall|a: int, b: int|
                0 <= a < b < order.len() ==> in_order(
                    models,
                    #[trigger] order[a],
                    #[trigger] order[b],
                )
            &&& forall|a: int, b: int|
                0 <= a < b < order.len() ==> #[trigger] order[a] != #[trigger] order[b]
            &&& forall|i: int| 0 <= i < order.len() ==> (#[trigger] order[i]) < n
        }),
{
    let order = render_order(models, n);
    law_render_order_is_a_permutation(models, n);
    law_render_order_is_sorted(models, n);
    assert forall|i: int| 0 <= i < order.len() implies (#[trigger] order[i]) < n by {
        assert(order.contains(order[i]));
    }
}

impl VulkanManager {
    /// The positions of the models of a scene in the order in which they are drawn: by pipeline,
    /// then by material, then by mesh. Models that share all three keep the order of the scene.
    pub fn build_render_order(models: &Vec<Model>) -> (order: Vec<usize>)
        ensures
            order@ == render_order(models@, models@.len()),
            each_once(order@, models@.len()),
            sorted_by_key(models@, order@),
            forall|a: int, b: int|
                0 <= a < b < order@.len() ==> in_order(
                    models@,
                    #[trigger] order@[a],
                    #[trigger] order@[b],
                ),
    {
        let mut order: Vec<usize> = Vec::with_capacity(models.len());
        let mut next: usize = 0;
        while next < models.len()
            invariant
                next <= models@.len(),
                order@ == render_order(models@, next as nat),
            decreases models@.len() - next,
        {
            proof {
                law_render_order_is_a_permutation(models@, next as nat);
                assert forall|k: int| 0 <= k < order@.len() implies #[trigger] order@[k] < next by {
                    assert(order@.contains(order@[k]));
                }
            }
            let obj = &models[next];
            let mut index: usize = 0;
            while index < order.len() && !Self::comes_before(obj, &models[order[index]])
                invariant
                    next < models@.len(),
                    *obj == models@[next as int],
                    order@ == render_order(models@, next as nat),
                    order@.len() == next,
                    forall|k: int| 0 <= k < order@.len() ==> #[trigger] order@[k] < next,
                    index <= order@.len(),
                    slot_from(models@, order@, *obj, 0) == slot_from(
                        models@,
                        order@,
                        *obj,
                        index as int,
                    ),
                decreases order@.len() - index,
            {
                index += 1;
            }
            order.insert(index, next);
            next += 1;
        }
        proof {
            law_render_order_is_a_permutation(models@, next as nat);
            law_render_order_is_sorted(models@, next as nat);
            law_models_are_drawn_in_order(models@, next as nat);
        }
        order
    }

    /// Whether `obj` comes before `placed` by pipeline, then material, then mesh.
    fn comes_before(obj: &Model, placed: &Model) -> (before: bool)
        ensures
            before == key_less(*obj, *placed),
    {
        if obj.pipeline != placed.pipeline {
            return obj.pipeline < placed.pipeline;
        }
        if obj.material != placed.material {
            return obj.material < placed.material;
        }
        if obj.material_table != placed.material_table {
            return obj.material_table < placed.material_table;
        }
        obj.mesh < placed.mesh
    }
}

} // verus!
