use vulkan_renderer::registry::Registry;
use vulkan_renderer::resources::{GraphicsPipeline, ObjectKind, OwnedObject, ResourceError, VulkanResources};

#[test]
fn registry_insert_overwrites() {
    let mut r: Registry<u32> = Registry::new();
    assert_eq!(r.insert("a", 1), None);
    assert_eq!(r.insert("b", 2), None);
    assert_eq!(r.insert("a", 3), Some(1));
    assert_eq!(r.get("a"), Some(&3));
    assert_eq!(r.get("b"), Some(&2));
    assert_eq!(r.get("c"), None);
    assert!(r.contains("b"));
    assert!(!r.contains("c"));
}

#[test]
fn shader_layouts_appended_in_order() {
    let mut res = VulkanResources::new(77, 10);
    assert!(res.create_shader_resources("Demo").is_none());
    assert!(res.has_shader("Demo"));
    assert_eq!(res.new_descriptor_layout("Demo", 11), Ok(()));
    assert_eq!(res.new_descriptor_layout("Demo", 12), Ok(()));
    assert_eq!(res.descriptor_layouts("Demo"), Ok(vec![11, 12]));
    assert_eq!(res.descriptor_pool(), 77);
}

#[test]
fn unknown_shader_reported() {
    let mut res = VulkanResources::new(1, 10);
    assert_eq!(res.new_descriptor_layout("Missing", 5), Err(ResourceError::UnknownShader));
    assert_eq!(res.descriptor_layouts("Missing"), Err(ResourceError::UnknownShader));
    assert_eq!(res.plan_descriptor_sets("Missing"), Err(ResourceError::UnknownShader));
    assert_eq!(res.allocate_shader_descriptor_sets("Missing", vec![]), Err(ResourceError::UnknownShader));
    assert!(!res.has_shader("Missing"));
}

#[test]
fn reregistering_shader_returns_previous_record() {
    let mut res = VulkanResources::new(1, 10);
    res.create_shader_resources("Demo");
    res.new_descriptor_layout("Demo", 11).unwrap();
    let previous = res.create_shader_resources("Demo").unwrap();
    assert_eq!(previous.descriptor_layouts, vec![11]);
    assert_eq!(res.descriptor_layouts("Demo"), Ok(vec![]));
}

#[test]
fn descriptor_sets_counted_against_pool() {
    let mut res = VulkanResources::new(1, 3);
    res.create_shader_resources("A");
    res.new_descriptor_layout("A", 1).unwrap();
    res.new_descriptor_layout("A", 2).unwrap();
    assert_eq!(res.plan_descriptor_sets("A"), Ok(vec![1, 2]));
    assert_eq!(res.allocate_shader_descriptor_sets("A", vec![100]), Err(ResourceError::SetCountMismatch));
    assert_eq!(res.allocate_shader_descriptor_sets("A", vec![100, 101]), Ok(()));
    assert_eq!(res.plan_descriptor_sets("A"), Err(ResourceError::PoolExhausted));
    assert_eq!(res.allocate_shader_descriptor_sets("A", vec![102, 103]), Err(ResourceError::PoolExhausted));
    res.create_shader_resources("B");
    res.new_descriptor_layout("B", 3).unwrap();
    assert_eq!(res.plan_descriptor_sets("B"), Ok(vec![3]));
    assert_eq!(res.allocate_shader_descriptor_sets("B", vec![104]), Ok(()));
}

#[test]
fn pipelines_registered_by_id() {
    let mut res = VulkanResources::new(1, 1);
    assert_eq!(res.get_graphics_pipeline("PRIMARY"), Err(ResourceError::UnknownPipeline));
    let first = GraphicsPipeline { pipeline: 40, pipeline_layout: 41, shader_modules: vec![42, 43] };
    assert!(res.create_graphics_pipeline("PRIMARY", first).is_none());
    assert_eq!(res.get_graphics_pipeline("PRIMARY"), Ok(40));
    let second = GraphicsPipeline { pipeline: 50, pipeline_layout: 51, shader_modules: vec![] };
    let replaced = res.create_graphics_pipeline("PRIMARY", second).unwrap();
    assert_eq!(replaced.pipeline, 40);
    assert_eq!(replaced.shader_modules, vec![42, 43]);
    assert_eq!(res.get_graphics_pipeline("PRIMARY"), Ok(50));
}

#[test]
fn teardown_order_pipelines_layouts_modules_then_pool() {
    let mut res = VulkanResources::new(9, 4);
    res.create_shader_resources("A");
    res.new_descriptor_layout("A", 1).unwrap();
    res.new_descriptor_layout("A", 2).unwrap();
    res.create_shader_resources("B");
    res.new_descriptor_layout("B", 3).unwrap();
    res.create_graphics_pipeline("P", GraphicsPipeline { pipeline: 40, pipeline_layout: 41, shader_modules: vec![42, 43] });
    res.create_graphics_pipeline("Q", GraphicsPipeline { pipeline: 50, pipeline_layout: 51, shader_modules: vec![52] });
    let o = |kind: ObjectKind, handle: u64| OwnedObject { kind, handle };
    assert_eq!(
        res.teardown(),
        vec![
            o(ObjectKind::Pipeline, 40),
            o(ObjectKind::Pipeline, 50),
            o(ObjectKind::PipelineLayout, 41),
            o(ObjectKind::PipelineLayout, 51),
            o(ObjectKind::ShaderModule, 42),
            o(ObjectKind::ShaderModule, 43),
            o(ObjectKind::ShaderModule, 52),
            o(ObjectKind::DescriptorSetLayout, 1),
            o(ObjectKind::DescriptorSetLayout, 2),
            o(ObjectKind::DescriptorSetLayout, 3),
            o(ObjectKind::DescriptorPool, 9),
        ]
    );
    assert_eq!(VulkanResources::new(5, 1).teardown(), vec![o(ObjectKind::DescriptorPool, 5)]);
}

#[test]
fn defined_shader_gets_one_set_per_layout() {
    let mut res = VulkanResources::new(1, 10);
    res.create_shader_resources("Demo");
    res.new_descriptor_layout("Demo", 11).unwrap();
    let layouts = res.plan_descriptor_sets("Demo").unwrap();
    assert_eq!(layouts, vec![11]);
    assert_eq!(res.allocate_shader_descriptor_sets("Demo", vec![700]), Ok(()));
    assert_eq!(res.descriptor_layouts("Demo"), Ok(vec![11]));
}
