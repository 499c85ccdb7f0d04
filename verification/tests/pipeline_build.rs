use fractal_view::pipeline::{
    create_compute_pipeline, group_count, workgroup_grid, BuildStage, BuildStep, PipelineError,
    WorkgroupGrid,
};
use fractal_view::swapchain::Extent;

#[test]
fn build_starts_with_the_shader() {
    assert_eq!(create_compute_pipeline(None), BuildStep::Perform(BuildStage::LoadShader));
}

#[test]
fn stages_follow_each_other() {
    assert_eq!(
        create_compute_pipeline(Some((BuildStage::LoadShader, true))),
        BuildStep::Perform(BuildStage::FindEntryPoint)
    );
    assert_eq!(
        create_compute_pipeline(Some((BuildStage::FindEntryPoint, true))),
        BuildStep::Perform(BuildStage::DeriveLayout)
    );
    assert_eq!(
        create_compute_pipeline(Some((BuildStage::DeriveLayout, true))),
        BuildStep::Perform(BuildStage::LinkPipeline)
    );
    assert_eq!(create_compute_pipeline(Some((BuildStage::LinkPipeline, true))), BuildStep::Built);
}

#[test]
fn whole_build_takes_four_stages() {
    let mut step = create_compute_pipeline(None);
    let mut performed = Vec::new();
    while let BuildStep::Perform(stage) = step {
        performed.push(stage);
        step = create_compute_pipeline(Some((stage, true)));
    }
    assert_eq!(step, BuildStep::Built);
    assert_eq!(
        performed,
        vec![
            BuildStage::LoadShader,
            BuildStage::FindEntryPoint,
            BuildStage::DeriveLayout,
            BuildStage::LinkPipeline
        ]
    );
}

#[test]
fn shader_failures_are_compile_errors() {
    assert_eq!(
        create_compute_pipeline(Some((BuildStage::LoadShader, false))),
        BuildStep::Failed(PipelineError::ShaderCompileError)
    );
    assert_eq!(
        create_compute_pipeline(Some((BuildStage::FindEntryPoint, false))),
        BuildStep::Failed(PipelineError::ShaderCompileError)
    );
}

#[test]
fn layout_and_link_failures_are_link_errors() {
    assert_eq!(
        create_compute_pipeline(Some((BuildStage::DeriveLayout, false))),
        BuildStep::Failed(PipelineError::PipelineLinkError)
    );
    assert_eq!(
        create_compute_pipeline(Some((BuildStage::LinkPipeline, false))),
        BuildStep::Failed(PipelineError::PipelineLinkError)
    );
}

#[test]
fn group_count_covers_the_pixels() {
    assert_eq!(group_count(1024, 16), Some(64));
    assert_eq!(group_count(1000, 16), Some(63));
    assert_eq!(group_count(1025, 16), Some(65));
    assert_eq!(group_count(1, 16), Some(1));
    assert_eq!(group_count(0, 16), Some(0));
    assert_eq!(group_count(7, 1), Some(7));
    assert_eq!(group_count(u32::MAX, 1), Some(u32::MAX));
    assert_eq!(group_count(u32::MAX, 2), Some(2147483648));
    assert_eq!(group_count(u32::MAX, u32::MAX), Some(1));
}

#[test]
fn group_without_invocations_covers_nothing() {
    assert_eq!(group_count(1024, 0), None);
    assert_eq!(group_count(0, 0), None);
}

#[test]
fn grid_is_one_layer_deep() {
    let target = Extent { width: 1024, height: 1024 };
    let local = Extent { width: 16, height: 16 };
    assert_eq!(workgroup_grid(target, local), Some(WorkgroupGrid { x: 64, y: 64, z: 1 }));
    let target = Extent { width: 2048, height: 100 };
    let local = Extent { width: 8, height: 32 };
    assert_eq!(workgroup_grid(target, local), Some(WorkgroupGrid { x: 256, y: 4, z: 1 }));
    assert_eq!(workgroup_grid(target, Extent { width: 0, height: 8 }), None);
    assert_eq!(workgroup_grid(target, Extent { width: 8, height: 0 }), None);
}
