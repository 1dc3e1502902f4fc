//! Compute pipelines and their layouts.

use crate::consts::SHADER_STAGE_COMPUTE;
use crate::delete_queue::DeleteQueue;
use crate::delete_queue::DeletionEntry;
use crate::descriptor::GpuDescriptorSetLayout;
use crate::device::refusal;
use crate::device::spec_refusal;
use crate::device::Command;
use crate::device::ComputePipelineCreateInfo;
use crate::device::Error;
use crate::device::PipelineLayoutCreateInfo;
use crate::device::PushConstantRange;
use crate::device::Reply;
use crate::device::Request;
use crate::device::Step;
use crate::shader::Shader;
use ash::vk;
use vstd::prelude::*;

verus! {

/// The layout of a pipeline, with the size in bytes of its push constants.
#[derive(Clone, Copy, Debug)]
pub struct GpuPipelineLayout {
    pub layout: vk::PipelineLayout,
    pub push_constant_size: u32,
}

/// The build of a pipeline layout in progress, for push constants of this
/// size.
#[derive(Clone, Copy, Debug, PartialEq, Eq, Structural)]
pub struct PipelineLayoutBuild {
    pub push_constant_size: u32,
}

impl GpuPipelineLayout {
    /// The push constant range of a layout: the whole of the push constants
    /// from offset zero, for the compute stage; none where they have no
    /// size.
    pub open spec fn spec_push_constant(size: u32) -> Option<PushConstantRange> {
        if size == 0 {
            None
        } else {
            Some(PushConstantRange { stage_flags: SHADER_STAGE_COMPUTE, offset: 0, size })
        }
    }

    /// Starts the build of a layout with the one descriptor set layout
    /// `set_layout` and push constants of `push_constant_size` bytes. It
    /// fails where that size does not fit a range.
    pub fn new(set_layout: &GpuDescriptorSetLayout, push_constant_size: usize) -> (r: Result<
        (PipelineLayoutBuild, Request),
        Error,
    >)
        ensures
            r == if push_constant_size > u32::MAX {
                Err::<(PipelineLayoutBuild, Request), Error>(Error::PushConstantTooLarge)
            } else {
                Ok::<(PipelineLayoutBuild, Request), Error>(
                    (
                        PipelineLayoutBuild { push_constant_size: push_constant_size as u32 },
                        Request::CreatePipelineLayout(
                            PipelineLayoutCreateInfo {
                                set_layout: set_layout.layout,
                                push_constant: Self::spec_push_constant(push_constant_size as u32),
                            },
                        ),
                    ),
                )
            },
    {
        if push_constant_size > u32::MAX as usize {
            return Err(Error::PushConstantTooLarge);
        }
        let size = push_constant_size as u32;
        let push_constant = if size != 0 {
            Some(PushConstantRange { stage_flags: SHADER_STAGE_COMPUTE, offset: 0, size })
        } else {
            None
        };
        Ok(
            (
                PipelineLayoutBuild { push_constant_size: size },
                Request::CreatePipelineLayout(
                    PipelineLayoutCreateInfo { set_layout: set_layout.layout, push_constant },
                ),
            ),
        )
    }
}

impl PipelineLayoutBuild {
    /// What follows from `reply`.
    pub open spec fn spec_advance(self, reply: Reply) -> Step<
        PipelineLayoutBuild,
        GpuPipelineLayout,
    > {
        match reply {
            Reply::PipelineLayout(layout) => Step::Done(
                GpuPipelineLayout { layout, push_constant_size: self.push_constant_size },
            ),
            reply => Step::Failed(spec_refusal(reply)),
        }
    }

    /// The entries that `reply` adds to the deletion queue.
    pub open spec fn spec_registered(self, reply: Reply) -> Seq<DeletionEntry> {
        match reply {
            Reply::PipelineLayout(layout) => seq![DeletionEntry::PipelineLayout(layout)],
            _ => Seq::empty(),
        }
    }

    /// Takes the reply to the request and registers the layout with `queue`.
    pub fn advance(self, reply: Reply, queue: &mut DeleteQueue) -> (r: Step<
        PipelineLayoutBuild,
        GpuPipelineLayout,
    >)
        ensures
            r == self.spec_advance(reply),
            final(queue)@ == old(queue)@ + self.spec_registered(reply),
    {
        proof {
            assert(old(queue)@ + Seq::<DeletionEntry>::empty() =~= old(queue)@);
        }
        match reply {
            Reply::PipelineLayout(layout) => {
                queue.push(layout);
                assert(queue@ =~= old(queue)@ + seq![DeletionEntry::PipelineLayout(layout)]);
                Step::Done(
                    GpuPipelineLayout { layout, push_constant_size: self.push_constant_size },
                )
            },
            reply => Step::Failed(refusal(reply)),
        }
    }
}

/// A compute pipeline with its layout.
#[derive(Clone, Copy, Debug)]
pub struct ComputePipeline {
    pub pipeline: vk::Pipeline,
    pub layout: GpuPipelineLayout,
}

/// The build of a compute pipeline in progress, for a layout.
#[derive(Clone, Copy, Debug)]
pub struct ComputePipelineBuild {
    pub layout: GpuPipelineLayout,
}

impl ComputePipeline {
    /// Starts the build of the pipeline that runs `compute_shader` with
    /// `layout`.
    pub fn new(layout: GpuPipelineLayout, compute_shader: &Shader) -> (r: (
        ComputePipelineBuild,
        Request,
    ))
        ensures
            r.0 == (ComputePipelineBuild { layout }),
            r.1 == Request::CreateComputePipeline(
                ComputePipelineCreateInfo { module: compute_shader.module, layout: layout.layout },
            ),
    {
        let request = Request::CreateComputePipeline(
            ComputePipelineCreateInfo { module: compute_shader.module, layout: layout.layout },
        );
        (ComputePipelineBuild { layout }, request)
    }

    /// The command that binds the pipeline.
    pub fn bind(&self) -> (r: Command)
        ensures
            r == Command::BindPipeline(self.pipeline),
    {
        Command::BindPipeline(self.pipeline)
    }

    /// The command that binds `set` as the pipeline's set number zero.
    pub fn bind_sets(&self, set: vk::DescriptorSet) -> (r: Command)
        ensures
            r == (Command::BindDescriptorSet { layout: self.layout.layout, set }),
    {
        Command::BindDescriptorSet { layout: self.layout.layout, set }
    }

    /// Whether push constants are to be written at all: a pipeline whose
    /// push constants have no size takes none.
    pub fn takes_push_constants(&self) -> (r: bool)
        ensures
            r == (self.layout.push_constant_size != 0),
    {
        self.layout.push_constant_size != 0
    }

    /// The command that runs the pipeline on `group_count` work groups.
    pub fn dispatch(&self, group_count: (u32, u32, u32)) -> (r: Command)
        ensures
            r == (Command::Dispatch { x: group_count.0, y: group_count.1, z: group_count.2 }),
    {
        Command::Dispatch { x: group_count.0, y: group_count.1, z: group_count.2 }
    }
}

impl ComputePipelineBuild {
    /// What follows from `reply`: the pipeline is the first of those that
    /// came back.
    pub open spec fn spec_advance(self, reply: Reply) -> Step<ComputePipelineBuild, ComputePipeline> {
        match reply {
            Reply::Pipelines(pipelines) => if pipelines@.len() > 0 {
                Step::Done(ComputePipeline { pipeline: pipelines@[0], layout: self.layout })
            } else {
                Step::Failed(Error::EmptyReply)
            },
            reply => Step::Failed(spec_refusal(reply)),
        }
    }

    /// The entries that `reply` adds to the deletion queue.
    pub open spec fn spec_registered(self, reply: Reply) -> Seq<DeletionEntry> {
        match reply {
            Reply::Pipelines(pipelines) => if pipelines@.len() > 0 {
                seq![DeletionEntry::Pipeline(pipelines@[0])]
            } else {
                Seq::empty()
            },
            _ => Seq::empty(),
        }
    }

    /// Takes the reply to the request and registers the pipeline with
    /// `queue`.
    pub fn advance(self, reply: Reply, queue: &mut DeleteQueue) -> (r: Step<
        ComputePipelineBuild,
        ComputePipeline,
    >)
        ensures
            r == self.spec_advance(reply),
            final(queue)@ == old(queue)@ + self.spec_registered(reply),
    {
        proof {
            assert(old(queue)@ + Seq::<DeletionEntry>::empty() =~= old(queue)@);
        }
        match reply {
            Reply::Pipelines(pipelines) => {
                if pipelines.len() > 0 {
                    let pipeline = pipelines[0];
                    queue.push(pipeline);
                    assert(queue@ =~= old(queue)@ + seq![DeletionEntry::Pipeline(pipeline)]);
                    Step::Done(ComputePipeline { pipeline, layout: self.layout })
                } else {
                    Step::Failed(Error::EmptyReply)
                }
            },
            reply => Step::Failed(refusal(reply)),
        }
    }
}

} // verus!
