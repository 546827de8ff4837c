use vulkan_frames::scene::Model;
use vulkan_frames::vulkan::manager::VulkanManager;

fn model(pipeline: u64, material: u64, material_table: u64, mesh: u64) -> Model {
    Model {
        pipeline,
        pipeline_layout: 0,
        descriptor_set_layout: 0,
        material,
        material_table,
        mesh,
        vertex_buffer: 0,
        index_buffer: 0,
        submeshes: vec![],
    }
}

#[test]
fn no_models_no_order() {
    assert_eq!(VulkanManager::build_render_order(&vec![]), Vec::<usize>::new());
}

#[test]
fn models_are_sorted_by_pipeline_material_and_mesh() {
    let models = vec![
        model(2, 20, 1, 200),
        model(1, 10, 1, 101),
        model(1, 10, 1, 100),
        model(1, 11, 1, 102),
    ];
    assert_eq!(VulkanManager::build_render_order(&models), vec![2, 1, 3, 0]);
}

#[test]
fn equal_models_keep_the_order_of_the_scene() {
    let models = vec![model(1, 1, 1, 1), model(1, 1, 1, 1), model(1, 1, 1, 1)];
    assert_eq!(VulkanManager::build_render_order(&models), vec![0, 1, 2]);
}

#[test]
fn the_method_table_decides_between_materials_at_one_address() {
    let models = vec![model(1, 1, 9, 1), model(1, 1, 8, 1)];
    assert_eq!(VulkanManager::build_render_order(&models), vec![1, 0]);
}

#[test]
fn the_pipeline_decides_before_the_material() {
    let models = vec![model(1, 5, 1, 1), model(2, 1, 1, 1)];
    assert_eq!(VulkanManager::build_render_order(&models), vec![0, 1]);
    let models = vec![model(2, 1, 1, 1), model(1, 5, 1, 1)];
    assert_eq!(VulkanManager::build_render_order(&models), vec![1, 0]);
    let models = vec![model(1, 20, 1, 5), model(2, 10, 1, 5)];
    assert_eq!(VulkanManager::build_render_order(&models), vec![0, 1]);
}

#[test]
fn the_material_decides_before_the_mesh() {
    let models = vec![model(1, 1, 1, 7), model(1, 2, 1, 3)];
    assert_eq!(VulkanManager::build_render_order(&models), vec![0, 1]);
    let models = vec![model(1, 1, 9, 3), model(1, 1, 8, 7)];
    assert_eq!(VulkanManager::build_render_order(&models), vec![1, 0]);
}

#[test]
fn models_of_one_pipeline_stay_together() {
    let models = vec![model(2, 10, 1, 1), model(1, 20, 1, 1), model(2, 10, 1, 1)];
    assert_eq!(VulkanManager::build_render_order(&models), vec![1, 0, 2]);
}

#[test]
fn a_null_pipeline_goes_first() {
    let models = vec![model(1, 1, 1, 1), model(0, 9, 1, 9)];
    assert_eq!(VulkanManager::build_render_order(&models), vec![1, 0]);
}

#[test]
fn the_order_is_sorted_and_stable() {
    let models: Vec<Model> =
        (0..60u64).map(|i| model(i * 7 % 5, i * 11 % 3, i % 2, i * 13 % 4)).collect();
    let order = VulkanManager::build_render_order(&models);
    let key = |i: usize| {
        let m = &models[i];
        (m.pipeline, m.material, m.material_table, m.mesh, i)
    };
    for pair in order.windows(2) {
        assert!(key(pair[0]) < key(pair[1]));
    }
}

#[test]
fn every_model_is_drawn_once() {
    let models: Vec<Model> =
        (0..40u64).map(|i| model(i * 7 % 5, i * 11 % 3, 1, i * 13 % 4)).collect();
    let mut order = VulkanManager::build_render_order(&models);
    order.sort();
    assert_eq!(order, (0..40usize).collect::<Vec<usize>>());
}
