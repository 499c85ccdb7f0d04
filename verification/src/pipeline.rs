//! Building the compute pipeline stage by stage, and sizing its dispatch.

use vstd::prelude::*;
use crate::swapchain::Extent;

verus! {

/// The stages of a pipeline build, in the order in which they run.
#[derive(Clone, Copy, Debug, PartialEq, Eq, Structural)]
pub enum BuildStage {
    /// Load the one compute program.
    LoadShader,
    /// Find the program's entry point.
    FindEntryPoint,
    /// Derive the resource layout from the bindings that the program declares.
    DeriveLayout,
    /// Link program and layout into a pipeline.
    LinkPipeline,
}

/// Why the pipeline could not be built.
#[derive(Clone, Copy, Debug, PartialEq, Eq, Structural)]
pub enum PipelineError {
    /// The program did not load, or has no entry point.
    ShaderCompileError,
    /// No layout could be derived, or linking failed.
    PipelineLinkError,
}

/// What the builder does next.
#[derive(Clone, Copy, Debug, PartialEq, Eq, Structural)]
pub enum BuildStep {
    Perform(BuildStage),
    Built,
    Failed(PipelineError),
}

/// The error that a failure of `stage` amounts to.
pub open spec fn failure_of(stage: BuildStage) -> PipelineError {
    match stage {
        BuildStage::LoadShader | BuildStage::FindEntryPoint => PipelineError::ShaderCompileError,
        BuildStage::DeriveLayout | BuildStage::LinkPipeline => PipelineError::PipelineLinkError,
    }
}

/// What follows `stage` where it succeeded.
pub open spec fn successor_of(stage: BuildStage) -> BuildStep {
    match stage {
        BuildStage::LoadShader => BuildStep::Perform(BuildStage::FindEntryPoint),
        BuildStage::FindEntryPoint => BuildStep::Perform(BuildStage::DeriveLayout),
        BuildStage::DeriveLayout => BuildStep::Perform(BuildStage::LinkPipeline),
        BuildStage::LinkPipeline => BuildStep::Built,
    }
}

/// The builder's next step after `last`, the stage that ran last and
/// whether it succeeded; `None` before any stage has run.
pub open spec fn build_step_of(last: Option<(BuildStage, bool)>) -> BuildStep {
    match last {
        None => BuildStep::Perform(BuildStage::LoadShader),
        Some((stage, true)) => successor_of(stage),
        Some((stage, false)) => BuildStep::Failed(failure_of(stage)),
    }
}

/// Drives the build of the one compute pipeline: each stage runs once, in
/// order, and the first failure ends the build with its error.
pub fn create_compute_pipeline(last: Option<(BuildStage, bool)>) -> (step: BuildStep)
    ensures
        step == build_step_of(last),
{
    match last {
        None => BuildStep::Perform(BuildStage::LoadShader),
        Some((stage, succeeded)) => {
            if succeeded {
                match stage {
                    BuildStage::LoadShader => BuildStep::Perform(BuildStage::FindEntryPoint),
                    BuildStage::FindEntryPoint => BuildStep::Perform(BuildStage::DeriveLayout),
                    BuildStage::DeriveLayout => BuildStep::Perform(BuildStage::LinkPipeline),
                    BuildStage::LinkPipeline => BuildStep::Built,
                }
            } else {
                match stage {
                    BuildStage::LoadShader | BuildStage::FindEntryPoint => BuildStep::Failed(
                        PipelineError::ShaderCompileError,
                    ),
                    BuildStage::DeriveLayout | BuildStage::LinkPipeline => BuildStep::Failed(
                        PipelineError::PipelineLinkError,
                    ),
                }
            }
        },
    }
}

/// A build that starts at the first stage and never fails is done after
/// exactly the four stages, each performed once and in order.
pub proof fn build_runs_four_stages()
    ensures
        build_step_of(None) == BuildStep::Perform(BuildStage::LoadShader),
        build_step_of(Some((BuildStage::LoadShader, true))) == BuildStep::Perform(
            BuildStage::FindEntryPoint,
        ),
        build_step_of(Some((BuildStage::FindEntryPoint, true))) == BuildStep::Perform(
            BuildStage::DeriveLayout,
        ),
        build_step_of(Some((BuildStage::DeriveLayout, true))) == BuildStep::Perform(
            BuildStage::LinkPipeline,
        ),
        build_step_of(Some((BuildStage::LinkPipeline, true))) == BuildStep::Built,
{
}

/// The number of workgroups of each dimension in one dispatch.
#[derive(Clone, Copy, Debug, PartialEq, Eq, Structural)]
pub struct WorkgroupGrid {
    pub x: u32,
    pub y: u32,
    pub z: u32,
}

/// `groups` is the least number of groups of `local` invocations that
/// covers `pixels` pixels.
pub open spec fn covers_exactly(groups: int, pixels: int, local: int) -> bool {
    &&& 0 <= groups
    &&& groups * local >= pixels
    &&& groups > 0 ==> (groups - 1) * local < pixels
}

/// The least number of groups of `local` invocations that covers `pixels`
/// pixels; `None` where a group has no invocation.
pub fn group_count(pixels: u32, local: u32) -> (r: Option<u32>)
    ensures
        r.is_some() == (local > 0),
        r matches Some(g) ==> covers_exactly(g as int, pixels as int, local as int),
{
    if local == 0 {
        return None;
    }
    let whole: u32 = pixels / local;
    let rest: u32 = pixels % local;
    proof {
        assert(pixels == whole * local + rest && 0 <= rest < local && whole <= pixels) by (nonlinear_arith)
            requires
                local > 0,
                whole == pixels / local,
                rest == pixels % local,
        ;
    }
    if rest == 0 {
        proof {
            assert(whole > 0 ==> (whole - 1) * local < pixels) by (nonlinear_arith)
                requires
                    pixels == whole * local,
                    local > 0,
            ;
        }
        Some(whole)
    } else {
        proof {
            assert((whole + 1) * local >= pixels && whole * local < pixels && whole < pixels) by (nonlinear_arith)
                requires
                    pixels == whole * local + rest,
                    0 < rest < local,
            ;
        }
        Some(whole + 1)
    }
}

/// Two counts that both cover `pixels` exactly are the same count.
pub proof fn exact_cover_is_unique(a: int, b: int, pixels: int, local: int)
    requires
        local > 0,
        covers_exactly(a, pixels, local),
        covers_exactly(b, pixels, local),
    ensures
        a == b,
{
    assert(a == b) by (nonlinear_arith)
        requires
            local > 0,
            0 <= a,
            0 <= b,
            a * local >= pixels,
            b * local >= pixels,
            a > 0 ==> (a - 1) * local < pixels,
            b > 0 ==> (b - 1) * local < pixels,
    ;
}

/// The dispatch grid that covers an off-screen target of size `target`
/// with groups of `local.width` by `local.height` invocations, one layer deep.
pub fn workgroup_grid(target: Extent, local: Extent) -> (r: Option<WorkgroupGrid>)
    ensures
        r.is_some() == (local.width > 0 && local.height > 0),
        r matches Some(g) ==> {
            &&& covers_exactly(g.x as int, target.width as int, local.width as int)
            &&& covers_exactly(g.y as int, target.height as int, local.height as int)
            &&& g.z == 1
        },
{
    match (group_count(target.width, local.width), group_count(target.height, local.height)) {
        (Some(x), Some(y)) => Some(WorkgroupGrid { x, y, z: 1 }),
        _ => None,
    }
}

} // verus!
