use vstd::prelude::*;
use crate::event::{EventResponse, WindowEvent};
use crate::frame::{frame_plan, spec_frame_plan, FramePlan, FrameStep};
use crate::pipeline::{build_pipeline, spec_default_pipeline, PipelineDesc};
use crate::surface::{choose_format, is_chosen_format, SurfaceCaps, SurfaceConfig};

verus! {

/// The application context: the capability snapshot taken at startup, the
/// current surface configuration, the last known window size, and the
/// pipeline description the frames are rendered with. The event loop owns
/// one instance and threads it through every dispatch.
pub struct App {
    pub caps: SurfaceCaps,
    pub config: SurfaceConfig,
    pub window_width: u32,
    pub window_height: u32,
    pub pipeline: PipelineDesc,
}

impl App {
    /// The standing invariant: the capabilities are usable, the surface
    /// configuration has strictly positive dimensions that agree with the
    /// last known window size, its format is the one the selection policy
    /// chose from the capabilities, and the pipeline is the default build
    /// for exactly that format — so pipeline output format and surface
    /// format never diverge.
    pub open spec fn wf(&self) -> bool {
        &&& self.caps.wf()
        &&& self.config.wf()
        &&& self.config.width == self.window_width
        &&& self.config.height == self.window_height
        &&& is_chosen_format(self.caps.formats@, self.config.format)
        &&& self.pipeline == spec_default_pipeline(self.config.format)
    }

    /// Builds the context from the capability snapshot and the window's
    /// initial size: the format is chosen by the sRGB-preferring policy,
    /// present and alpha mode are the first the backend listed, and the
    /// pipeline is built for the chosen format.
    pub fn new(caps: SurfaceCaps, width: u32, height: u32) -> (app: App)
        requires
            caps.wf(),
            width > 0,
            height > 0,
        ensures
            app.wf(),
            app.caps == caps,
            app.window_width == width,
            app.window_height == height,
            app.config.width == width,
            app.config.height == height,
            is_chosen_format(caps.formats@, app.config.format),
            app.config.present_mode == caps.present_modes@[0],
            app.config.alpha_mode == caps.alpha_modes@[0],
            app.pipeline == spec_default_pipeline(app.config.format),
    {
        let format = choose_format(&caps);
        let present_mode = caps.present_modes[0];
        let alpha_mode = caps.alpha_modes[0];
        let config = SurfaceConfig { format, width, height, present_mode, alpha_mode };
        let pipeline = build_pipeline(format);
        App { caps, config, window_width: width, window_height: height, pipeline }
    }

    /// Applies a non-degenerate resize and skips a degenerate one.
    pub open spec fn resized(self, width: u32, height: u32) -> App {
        if width > 0 && height > 0 {
            App {
                config: SurfaceConfig { width, height, ..self.config },
                window_width: width,
                window_height: height,
                ..self
            }
        } else {
            self
        }
    }

    /// Reacts to a reported window size. A size with both dimensions
    /// strictly positive is adopted: window size and configuration are
    /// updated (format, present and alpha mode untouched) and the new
    /// configuration is returned for the shell to apply to the surface. A
    /// degenerate size (a zero dimension, as during a minimize) changes
    /// nothing and nothing is applied, preserving the last valid
    /// configuration.
    pub fn update_surface_size(&mut self, width: u32, height: u32) -> (applied: Option<
        SurfaceConfig,
    >)
        requires
            old(self).wf(),
        ensures
            final(self).wf(),
            *final(self) == old(self).resized(width, height),
            width > 0 && height > 0 ==> applied == Some(final(self).config),
            !(width > 0 && height > 0) ==> *final(self) == *old(self) && applied is None,
    {
        if width > 0 && height > 0 {
            self.window_width = width;
            self.window_height = height;
            self.config.width = width;
            self.config.height = height;
            Some(self.config)
        } else {
            None
        }
    }

    /// Plans one frame. The context is not changed in any way — the same
    /// handles render every frame — and the plan is the fixed sequence
    /// acquire, record, submit, present, whose recorded pass binds the
    /// context's pipeline; that pipeline's output format equals the surface
    /// configuration's format at the moment of the call.
    pub fn render(&mut self) -> (plan: FramePlan)
        requires
            old(self).wf(),
        ensures
            *final(self) == *old(self),
            plan.steps@ == spec_frame_plan(old(self).pipeline),
            plan.steps@[1] matches FrameStep::Record(pass) && pass.pipeline.format
                == old(self).config.format,
    {
        frame_plan(&self.pipeline)
    }

    /// Routes one window-system event: a close request asks for
    /// termination; a resize is handed to the surface manager and the
    /// configuration to apply (if any) is passed back; a drained event
    /// queue asks for a redraw; a redraw request plans one frame; anything
    /// else is ignored, not an error. State changes only on a
    /// non-degenerate resize.
    pub fn handle_event(&mut self, event: &WindowEvent) -> (r: EventResponse)
        requires
            old(self).wf(),
        ensures
            final(self).wf(),
            event is CloseRequested ==> *final(self) == *old(self) && r is Exit,
            event matches WindowEvent::Resized(w, h) ==> {
                &&& *final(self) == old(self).resized(*w, *h)
                &&& (*w > 0 && *h > 0 ==> (r matches EventResponse::ApplyConfig(c)
                    && c == final(self).config))
                &&& (!(*w > 0 && *h > 0) ==> r is Ignore)
            },
            event is RedrawRequested ==> *final(self) == *old(self)
                && (r matches EventResponse::Render(plan)
                && plan.steps@ == spec_frame_plan(old(self).pipeline)),
            event is MainEventsCleared ==> *final(self) == *old(self) && r is RequestRedraw,
            event is Other ==> *final(self) == *old(self) && r is Ignore,
    {
        match event {
            WindowEvent::CloseRequested => EventResponse::Exit,
            WindowEvent::Resized(w, h) => {
                match self.update_surface_size(*w, *h) {
                    Some(config) => EventResponse::ApplyConfig(config),
                    None => EventResponse::Ignore,
                }
            },
            WindowEvent::RedrawRequested => EventResponse::Render(self.render()),
            WindowEvent::MainEventsCleared => EventResponse::RequestRedraw,
            WindowEvent::Other => EventResponse::Ignore,
        }
    }
}

/// In every well-formed state the pipeline's output format equals the
/// surface configuration's format — the check that must hold before each
/// record step, maintained as an invariant rather than re-established.
pub proof fn lemma_pipeline_format_matches(s: App)
    requires
        s.wf(),
    ensures
        s.pipeline.format == s.config.format,
{
}

/// The render transition as `render` guarantees it: the state is left
/// unchanged and the plan is a function of the state alone.
pub open spec fn spec_render(s: App) -> (App, Seq<FrameStep>) {
    (s, spec_frame_plan(s.pipeline))
}

/// The state after `n` successive frame renders, together with the plans
/// they produced, oldest first.
pub open spec fn spec_render_seq(s: App, n: nat) -> (App, Seq<Seq<FrameStep>>)
    decreases n,
{
    if n == 0 {
        (s, Seq::empty())
    } else {
        let stepped = spec_render(s);
        let rest = spec_render_seq(stepped.0, (n - 1) as nat);
        (rest.0, seq![stepped.1] + rest.1)
    }
}

/// Rendering is idempotent in its effect on everything but the presented
/// image: `n` successive renders with no intervening resize leave the
/// context — configuration, pipeline, every handle — exactly as it was,
/// and produce `n` plans that all record the same pass, clearing to the
/// same fixed background color.
pub proof fn lemma_render_idempotent(s: App, n: nat)
    requires
        s.wf(),
    ensures
        spec_render_seq(s, n).0 == s,
        spec_render_seq(s, n).1.len() == n,
        forall|i: int| 0 <= i < n ==> spec_render_seq(s, n).1[i] == spec_frame_plan(s.pipeline),
    decreases n,
{
    if n > 0 {
        lemma_render_idempotent(s, (n - 1) as nat);
    }
}

/// Reconfiguring with any strictly positive size yields a well-formed
/// state whose configuration carries exactly that size and whose pipeline
/// format still matches the surface format: a frame rendered right after
/// the resize meets the renderer's precondition, so no dimension or format
/// mismatch can occur.
pub proof fn lemma_resize_then_render(s: App, width: u32, height: u32)
    requires
        s.wf(),
        width > 0,
        height > 0,
    ensures
        ({
            let s2 = s.resized(width, height);
            &&& s2.wf()
            &&& s2.config.width == width
            &&& s2.config.height == height
            &&& s2.pipeline.format == s2.config.format
        }),
{
}

} // verus!
