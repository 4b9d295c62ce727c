//! The application's lifecycle: a sum type over "not yet activated" and
//! "ready", the one-time activation that builds the surface configuration,
//! geometry buffer and pipeline in dependency order, and the dispatch of
//! window events to the actions the platform shell must carry out.

use vstd::prelude::*;
use crate::config::{SurfaceConfig, initial_config, resized_config, valid_dims};
use crate::frame::{FrameRenderer, FrameStage, SealedCommands, draw_shape_ok, frame_commands};
use crate::pipeline::{
    PipelineDescriptor, PipelineError, ShaderArtifact, build_error, build_pipeline,
    built_descriptor, shader_accepted,
};
use crate::vertex::{GeometryBuffer, buffer_bytes, triangle, triangle_vertices};

verus! {

/// A window event, as the platform loop delivers it. Events that the
/// application does not react to arrive as `Other`.
#[derive(Clone, Copy, PartialEq, Eq, Structural, Debug)]
pub enum AppEvent {
    Resized { width: u32, height: u32 },
    RedrawRequested,
    CloseRequested,
    Other,
}

/// What the platform shell must do after an event was handled.
pub enum Action {
    /// Nothing: the event was absorbed.
    Ignore,
    /// Leave the event loop; the process exits cleanly.
    Exit,
    /// Re-apply the surface configuration at the new size before the next
    /// frame is rendered.
    Reconfigure { width: u32, height: u32 },
    /// Execute the sealed command list against the acquired image, submit
    /// it to the queue, present the image, and request another redraw.
    SubmitFrame { commands: SealedCommands },
}

/// Everything the application owns once activated, in creation order:
/// the surface's configuration, the uploaded geometry, the pipeline bound
/// to the surface's format, and the per-frame state machine.
pub struct ReadyApp {
    pub config: SurfaceConfig,
    pub buffer: GeometryBuffer,
    pub pipeline: PipelineDescriptor,
    pub renderer: FrameRenderer,
}

/// The invariant of a ready application: a well-formed configuration, the
/// triangle's bytes in the buffer, the pipeline built for the surface's
/// format — which never changes after activation — and the renderer idle
/// with its submission log in request order.
pub open spec fn ready_wf(app: ReadyApp) -> bool {
    &&& app.config.well_formed()
    &&& app.buffer.bytes@ == buffer_bytes(triangle())
    &&& app.buffer.vertex_count == 3
    &&& built_descriptor(app.pipeline, app.config.format)
    &&& app.renderer.stage == FrameStage::Idle
    &&& app.renderer.well_formed()
}

/// The top-level application state: absent before the first activation,
/// ready thereafter.
pub enum Application {
    Uninitialized,
    Ready(ReadyApp),
}

impl Application {
    /// The state invariant: nothing is required before activation, and the
    /// ready invariant afterwards.
    pub open spec fn wf(self) -> bool {
        match self {
            Application::Uninitialized => true,
            Application::Ready(app) => ready_wf(app),
        }
    }

    /// Whether one more frame can be counted without exhausting the frame
    /// index, a machine limit never reached in practice.
    pub open spec fn can_count_frame(self) -> bool {
        match self {
            Application::Uninitialized => true,
            Application::Ready(app) => app.renderer.next_frame < usize::MAX,
        }
    }

    /// The state before the first activation.
    pub fn new() -> (s: Application)
        ensures
            s == Application::Uninitialized,
    {
        Application::Uninitialized
    }

    /// Activate the application: build, in dependency order, the surface
    /// configuration from the capability list and the window's size, the
    /// geometry buffer from the triangle's vertices, the pipeline against
    /// the shader artifact and the configured format, and a fresh frame
    /// renderer. A rejected artifact leaves the application unactivated
    /// with the build's error; the caller treats that as fatal.
    pub fn activate(
        &mut self,
        formats: &Vec<u32>,
        width: u32,
        height: u32,
        shader: &ShaderArtifact,
    ) -> (r: Result<(), PipelineError>)
        requires
            *old(self) == Application::Uninitialized,
            formats@.len() > 0,
            valid_dims(width, height),
        ensures
            r.is_ok() <==> shader_accepted(*shader),
            !shader_accepted(*shader) ==> r == Err::<(), PipelineError>(build_error(*shader))
                && *final(self) == Application::Uninitialized,
            (*final(self)).wf(),
            shader_accepted(*shader) ==> ((*final(self)) matches Application::Ready(app) && {
                &&& app.config == initial_config(formats@[0], width, height)
                &&& app.buffer.bytes@ == buffer_bytes(triangle())
                &&& app.buffer.vertex_count == 3
                &&& built_descriptor(app.pipeline, formats@[0])
                &&& app.renderer.stage == FrameStage::Idle
                &&& app.renderer.next_frame == 0
                &&& app.renderer.submitted@ == Seq::<usize>::empty()
            }),
    {
        let config = SurfaceConfig::configure(formats, width, height);
        let pipeline = match build_pipeline(shader, config.format) {
            Ok(p) => p,
            Err(e) => {
                return Err(e);
            },
        };
        let vertices = triangle_vertices();
        let buffer = GeometryBuffer::upload(&vertices);
        let renderer = FrameRenderer::new();
        *self = Application::Ready(ReadyApp { config, buffer, pipeline, renderer });
        Ok(())
    }

    /// Handle one window event, returning the action the platform shell
    /// owes. Before activation every event is absorbed. Afterwards: a close
    /// request ends the loop; a resize updates the configuration unless a
    /// dimension is zero, in which case nothing changes; a redraw request
    /// renders one frame — the sealed frame plan is handed back for
    /// execution and the frame is logged as the next submission; any other
    /// event is absorbed. The geometry, the pipeline and the surface's
    /// format are never touched again.
    pub fn handle_event(&mut self, event: AppEvent) -> (a: Action)
        requires
            old(self).wf(),
            old(self).can_count_frame(),
        ensures
            final(self).wf(),
            *old(self) == Application::Uninitialized ==> *final(self) == *old(self) && a matches
                Action::Ignore,
            (*old(self)) matches Application::Ready(app) ==> (event matches
                AppEvent::CloseRequested ==> (*final(self) == *old(self) && a matches
                Action::Exit)),
            (*old(self)) matches Application::Ready(app) ==> (event matches AppEvent::Resized {
                width,
                height,
            } ==> ({
                &&& *final(self) == Application::Ready(
                    (ReadyApp { config: resized_config(app.config, width, height), ..app }),
                )
                &&& valid_dims(width, height) ==> (a matches Action::Reconfigure {
                    width: w,
                    height: h,
                } && w == width && h == height)
                &&& !valid_dims(width, height) ==> (*final(self) == *old(self) && a matches
                    Action::Ignore)
            })),
            (*old(self)) matches Application::Ready(app) ==> (event matches
                AppEvent::RedrawRequested ==> ({
                &&& (*final(self)) matches Application::Ready(app2)
                &&& app2.config == app.config
                &&& app2.buffer == app.buffer
                &&& app2.pipeline == app.pipeline
                &&& app2.renderer.stage == FrameStage::Idle
                &&& app2.renderer.next_frame == app.renderer.next_frame + 1
                &&& app2.renderer.submitted@ == app.renderer.submitted@ + seq![
                    app.renderer.next_frame,
                ]
                &&& a matches Action::SubmitFrame { commands } && commands.commands@
                    == frame_commands() && draw_shape_ok(commands.commands@)
            })),
            (*old(self)) matches Application::Ready(app) ==> (event matches AppEvent::Other ==> (
            *final(self) == *old(self) && a matches Action::Ignore)),
    {
        match self {
            Application::Uninitialized => Action::Ignore,
            Application::Ready(app) => {
                match event {
                    AppEvent::CloseRequested => Action::Exit,
                    AppEvent::Resized { width, height } => {
                        let reconfigure = app.config.resize(width, height);
                        if reconfigure {
                            Action::Reconfigure { width, height }
                        } else {
                            Action::Ignore
                        }
                    },
                    AppEvent::RedrawRequested => {
                        let commands = app.renderer.render_frame();
                        Action::SubmitFrame { commands }
                    },
                    AppEvent::Other => Action::Ignore,
                }
            },
        }
    }
}

} // verus!
