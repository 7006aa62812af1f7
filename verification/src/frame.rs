use vstd::prelude::*;
use crate::pipeline::PipelineDesc;

verus! {

/// A clear color, each channel in thousandths of full intensity so that the
/// value stays exact; the shell divides by 1000 when it hands the color to
/// the backend.
#[derive(Clone, Copy, PartialEq, Eq, Structural, Debug)]
pub struct ClearColor {
    pub red_milli: u32,
    pub green_milli: u32,
    pub blue_milli: u32,
    pub alpha_milli: u32,
}

/// The fixed background every frame clears to: (0.1, 0.2, 0.8, 1.0).
pub open spec fn spec_background_color() -> ClearColor {
    ClearColor { red_milli: 100, green_milli: 200, blue_milli: 800, alpha_milli: 1000 }
}

/// Returns the fixed background color.
pub fn background_color() -> (c: ClearColor)
    ensures
        c == spec_background_color(),
{
    ClearColor { red_milli: 100, green_milli: 200, blue_milli: 800, alpha_milli: 1000 }
}

/// What the single render pass of a frame records: clear the acquired image
/// to `clear` on load, keep the result on store, bind `pipeline`, and issue
/// one draw of `draw_vertices` vertices and `draw_instances` instances.
#[derive(Clone, Copy, PartialEq, Eq, Structural, Debug)]
pub struct RenderPassDesc {
    pub clear: ClearColor,
    pub store_result: bool,
    pub draw_vertices: u32,
    pub draw_instances: u32,
    pub pipeline: PipelineDesc,
}

/// One step of the per-frame state machine, in the order the steps must be
/// performed: acquire a presentable image, record the render pass against
/// it, submit the finished command buffer to the queue, present the image.
#[derive(Clone, Copy, PartialEq, Eq, Structural, Debug)]
pub enum FrameStep {
    Acquire,
    Record(RenderPassDesc),
    Submit,
    Present,
}

/// The plan for one frame: the strictly ordered steps the shell must
/// perform, none skipped, none reordered.
#[derive(Clone, Debug)]
pub struct FramePlan {
    pub steps: Vec<FrameStep>,
}

/// The render pass every frame records: the fixed background clear, stored
/// result, and a single draw of 3 vertices and 1 instance with the given
/// pipeline.
pub open spec fn spec_render_pass(pipeline: PipelineDesc) -> RenderPassDesc {
    RenderPassDesc {
        clear: spec_background_color(),
        store_result: true,
        draw_vertices: 3,
        draw_instances: 1,
        pipeline,
    }
}

/// The full frame sequence: acquire, record the pass, submit, present.
pub open spec fn spec_frame_plan(pipeline: PipelineDesc) -> Seq<FrameStep> {
    seq![
        FrameStep::Acquire,
        FrameStep::Record(spec_render_pass(pipeline)),
        FrameStep::Submit,
        FrameStep::Present,
    ]
}

/// Builds the plan for one frame against the given pipeline.
pub fn frame_plan(pipeline: &PipelineDesc) -> (plan: FramePlan)
    ensures
        plan.steps@ == spec_frame_plan(*pipeline),
{
    let pass = RenderPassDesc {
        clear: background_color(),
        store_result: true,
        draw_vertices: 3,
        draw_instances: 1,
        pipeline: *pipeline,
    };
    let mut steps: Vec<FrameStep> = Vec::new();
    steps.push(FrameStep::Acquire);
    steps.push(FrameStep::Record(pass));
    steps.push(FrameStep::Submit);
    steps.push(FrameStep::Present);
    proof {
        assert(steps@ =~= spec_frame_plan(*pipeline));
    }
    FramePlan { steps }
}

/// How the backend answered a request for the next presentable image. The
/// shell translates the backend's result into this; `Ready` carries no
/// image because the library only decides what to do next.
#[derive(Clone, Copy, PartialEq, Eq, Structural, Debug)]
pub enum AcquireOutcome {
    Ready,
    Timeout,
    Outdated,
    Lost,
    OutOfMemory,
}

/// What the frame renderer does after an acquire attempt.
#[derive(Clone, Copy, PartialEq, Eq, Structural, Debug)]
pub enum AcquireDecision {
    Proceed,
    ReconfigureAndRetry,
    Abort,
}

/// The recovery policy for image acquisition: proceed on success; on an
/// outdated or lost surface, reconfigure from the last known window size
/// and retry exactly once; any other failure, or a failure after the one
/// retry, is fatal.
pub open spec fn spec_decide_acquire(outcome: AcquireOutcome, already_retried: bool) -> AcquireDecision {
    match outcome {
        AcquireOutcome::Ready => AcquireDecision::Proceed,
        AcquireOutcome::Outdated => if already_retried {
            AcquireDecision::Abort
        } else {
            AcquireDecision::ReconfigureAndRetry
        },
        AcquireOutcome::Lost => if already_retried {
            AcquireDecision::Abort
        } else {
            AcquireDecision::ReconfigureAndRetry
        },
        AcquireOutcome::Timeout => AcquireDecision::Abort,
        AcquireOutcome::OutOfMemory => AcquireDecision::Abort,
    }
}

/// Decides the next move after an acquire attempt, per the recovery policy.
pub fn decide_acquire(outcome: AcquireOutcome, already_retried: bool) -> (d: AcquireDecision)
    ensures
        d == spec_decide_acquire(outcome, already_retried),
{
    match outcome {
        AcquireOutcome::Ready => AcquireDecision::Proceed,
        AcquireOutcome::Outdated => if already_retried {
            AcquireDecision::Abort
        } else {
            AcquireDecision::ReconfigureAndRetry
        },
        AcquireOutcome::Lost => if already_retried {
            AcquireDecision::Abort
        } else {
            AcquireDecision::ReconfigureAndRetry
        },
        AcquireOutcome::Timeout => AcquireDecision::Abort,
        AcquireOutcome::OutOfMemory => AcquireDecision::Abort,
    }
}

} // verus!
