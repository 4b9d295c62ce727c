//! One frame of rendering: the command sequence a frame records, the
//! recorder that seals it only after the render pass is closed, and the
//! frame state machine that acquires a presentable image, records, submits
//! and presents — appending each successful frame to the queue's submission
//! log in request order.

use vstd::prelude::*;

verus! {

/// Bit pattern of the 64-bit float 0.0.
pub const FLOAT64_ZERO_BITS: u64 = 0x0000_0000_0000_0000;

/// Bit pattern of the 64-bit float 1.0.
pub const FLOAT64_ONE_BITS: u64 = 0x3FF0_0000_0000_0000;

/// A clear color, each channel the bit pattern of a 64-bit float.
#[derive(Clone, Copy, PartialEq, Eq, Structural, Debug)]
pub struct Color {
    pub r_bits: u64,
    pub g_bits: u64,
    pub b_bits: u64,
    pub a_bits: u64,
}

/// Opaque black: zero in every color channel, one in alpha.
pub open spec fn black() -> Color {
    Color {
        r_bits: FLOAT64_ZERO_BITS,
        g_bits: FLOAT64_ZERO_BITS,
        b_bits: FLOAT64_ZERO_BITS,
        a_bits: FLOAT64_ONE_BITS,
    }
}

/// Build the opaque black clear color.
pub fn black_color() -> (c: Color)
    ensures
        c == black(),
{
    Color {
        r_bits: FLOAT64_ZERO_BITS,
        g_bits: FLOAT64_ZERO_BITS,
        b_bits: FLOAT64_ZERO_BITS,
        a_bits: FLOAT64_ONE_BITS,
    }
}

/// One recorded command of a frame. A pass begins by clearing its whole
/// target to the given color and stores the result; drawing is non-indexed.
#[derive(Clone, Copy, PartialEq, Eq, Structural, Debug)]
pub enum RenderCommand {
    BeginPass { clear: Color },
    SetPipeline,
    SetVertexBuffer { slot: u32, offset: u64 },
    Draw { first_vertex: u32, vertex_count: u32, first_instance: u32, instance_count: u32 },
    EndPass,
}

/// The command sequence of every frame: one render pass over the full
/// target, cleared to black, the pipeline and the vertex buffer bound at
/// slot 0 with no byte offset, and a single draw of 3 vertices, 1 instance.
pub open spec fn frame_commands() -> Seq<RenderCommand> {
    seq![
        RenderCommand::BeginPass { clear: black() },
        RenderCommand::SetPipeline,
        RenderCommand::SetVertexBuffer { slot: 0, offset: 0 },
        RenderCommand::Draw { first_vertex: 0, vertex_count: 3, first_instance: 0, instance_count: 1 },
        RenderCommand::EndPass,
    ]
}

/// A command sequence has the required draw shape when it holds exactly one
/// draw call, that call draws 3 vertices in 1 instance from the start of
/// the buffer, and a full clear to black was recorded before it.
pub open spec fn draw_shape_ok(cmds: Seq<RenderCommand>) -> bool {
    exists|d: int|
        {
            &&& 0 <= d < cmds.len()
            &&& #[trigger] cmds[d] == (RenderCommand::Draw {
                first_vertex: 0,
                vertex_count: 3,
                first_instance: 0,
                instance_count: 1,
            })
            &&& forall|i: int| (0 <= i < cmds.len() && (#[trigger] cmds[i]) is Draw) ==> i == d
            &&& exists|b: int| 0 <= b < d && #[trigger] cmds[b] == (RenderCommand::BeginPass { clear: black() })
        }
}

/// Every frame's command sequence has the required draw shape: exactly one
/// draw call, 3 vertices, 1 instance, preceded by the full clear to black.
pub proof fn lemma_frame_commands_draw_shape()
    ensures
        draw_shape_ok(frame_commands()),
{
    let cmds = frame_commands();
    assert(cmds[3] == (RenderCommand::Draw {
        first_vertex: 0,
        vertex_count: 3,
        first_instance: 0,
        instance_count: 1,
    }));
    assert(cmds[0] == (RenderCommand::BeginPass { clear: black() }));
    assert(forall|i: int| (0 <= i < cmds.len() && (#[trigger] cmds[i]) is Draw) ==> i == 3);
}

/// An open command recording context, before any render pass has begun.
pub struct CommandRecorder {
    pub commands: Vec<RenderCommand>,
}

/// A recording context whose render pass is open. Only closing the pass
/// yields a submittable command list, so a pass is always finalized before
/// its commands can be submitted.
pub struct PassRecorder {
    pub commands: Vec<RenderCommand>,
}

/// A finished command list, sealed when its render pass was closed; the
/// only form the queue accepts.
pub struct SealedCommands {
    pub commands: Vec<RenderCommand>,
}

impl CommandRecorder {
    /// Open a fresh recording context with no commands.
    pub fn new() -> (r: CommandRecorder)
        ensures
            r.commands@ == Seq::<RenderCommand>::empty(),
    {
        CommandRecorder { commands: Vec::new() }
    }

    /// Begin the render pass, clearing the whole target to the given color
    /// and storing the result.
    pub fn begin_pass(self, clear: Color) -> (p: PassRecorder)
        ensures
            p.commands@ == self.commands@ + seq![RenderCommand::BeginPass { clear }],
    {
        let mut commands = self.commands;
        commands.push(RenderCommand::BeginPass { clear });
        PassRecorder { commands }
    }
}

impl PassRecorder {
    /// Bind the render pipeline.
    pub fn set_pipeline(&mut self)
        ensures
            final(self).commands@ == old(self).commands@ + seq![RenderCommand::SetPipeline],
    {
        self.commands.push(RenderCommand::SetPipeline);
    }

    /// Bind the vertex buffer at the given slot and byte offset.
    pub fn set_vertex_buffer(&mut self, slot: u32, offset: u64)
        ensures
            final(self).commands@ == old(self).commands@ + seq![
                RenderCommand::SetVertexBuffer { slot, offset },
            ],
    {
        self.commands.push(RenderCommand::SetVertexBuffer { slot, offset });
    }

    /// Record a non-indexed draw of the given vertex and instance ranges.
    pub fn draw(
        &mut self,
        first_vertex: u32,
        vertex_count: u32,
        first_instance: u32,
        instance_count: u32,
    )
        ensures
            final(self).commands@ == old(self).commands@ + seq![
                RenderCommand::Draw { first_vertex, vertex_count, first_instance, instance_count },
            ],
    {
        self.commands.push(
            RenderCommand::Draw { first_vertex, vertex_count, first_instance, instance_count },
        );
    }

    /// Close the render pass, sealing the command list for submission.
    pub fn end_pass(self) -> (s: SealedCommands)
        ensures
            s.commands@ == self.commands@ + seq![RenderCommand::EndPass],
    {
        let mut commands = self.commands;
        commands.push(RenderCommand::EndPass);
        SealedCommands { commands }
    }
}

/// Where the frame state machine stands within one loop iteration.
#[derive(Clone, Copy, PartialEq, Eq, Structural, Debug)]
pub enum FrameStage {
    Idle,
    Acquired,
    Recording,
    Submitted,
    Presented,
}

/// The per-frame orchestration state: the stage of the current frame, the
/// index the next requested frame will get, and the submission log — the
/// frame indices in the order their command lists reached the queue.
pub struct FrameRenderer {
    pub stage: FrameStage,
    pub next_frame: usize,
    pub submitted: Vec<usize>,
}

impl FrameRenderer {
    /// The renderer is well formed when the log holds one entry per
    /// requested frame and frame k's commands were the k-th submission.
    pub open spec fn well_formed(self) -> bool {
        &&& self.submitted@.len() == self.next_frame
        &&& forall|k: int| 0 <= k < self.submitted@.len() ==> #[trigger] self.submitted@[k] == k
    }

    /// A fresh renderer: idle, no frame requested, nothing submitted.
    pub fn new() -> (r: FrameRenderer)
        ensures
            r.stage == FrameStage::Idle,
            r.next_frame == 0,
            r.submitted@ == Seq::<usize>::empty(),
            r.well_formed(),
    {
        FrameRenderer { stage: FrameStage::Idle, next_frame: 0, submitted: Vec::new() }
    }

    /// Acquire the next presentable image from the surface. Only an idle
    /// renderer may acquire; a failed acquisition aborts the loop instead,
    /// so only successful acquisition advances the machine.
    pub fn acquire(&mut self)
        requires
            old(self).stage == FrameStage::Idle,
        ensures
            *final(self) == (FrameRenderer { stage: FrameStage::Acquired, ..*old(self) }),
    {
        self.stage = FrameStage::Acquired;
    }

    /// Open command recording for the acquired image.
    pub fn begin_recording(&mut self)
        requires
            old(self).stage == FrameStage::Acquired,
        ensures
            *final(self) == (FrameRenderer { stage: FrameStage::Recording, ..*old(self) }),
    {
        self.stage = FrameStage::Recording;
    }

    /// Hand a sealed command list to the queue. The frame being recorded
    /// gets the next index, and its submission is appended to the log:
    /// submissions happen strictly in request order.
    pub fn submit(&mut self, cmds: &SealedCommands)
        requires
            old(self).stage == FrameStage::Recording,
            old(self).well_formed(),
            old(self).next_frame < usize::MAX,
        ensures
            final(self).stage == FrameStage::Submitted,
            final(self).next_frame == old(self).next_frame + 1,
            final(self).submitted@ == old(self).submitted@ + seq![old(self).next_frame],
            final(self).well_formed(),
    {
        let frame = self.next_frame;
        self.submitted.push(frame);
        self.next_frame = frame + 1;
        self.stage = FrameStage::Submitted;
    }

    /// Hand the rendered image back to the presentation engine.
    pub fn present(&mut self)
        requires
            old(self).stage == FrameStage::Submitted,
        ensures
            *final(self) == (FrameRenderer { stage: FrameStage::Presented, ..*old(self) }),
    {
        self.stage = FrameStage::Presented;
    }

    /// Finish the loop iteration: the presented frame is done and the
    /// renderer is idle again, ready for the next redraw request.
    pub fn finish(&mut self)
        requires
            old(self).stage == FrameStage::Presented,
        ensures
            *final(self) == (FrameRenderer { stage: FrameStage::Idle, ..*old(self) }),
    {
        self.stage = FrameStage::Idle;
    }

    /// Render one frame: acquire, record the frame's command sequence with
    /// the pass sealed before submission, submit, present, and return to
    /// idle. The returned sealed list is exactly the frame plan, and the
    /// frame is appended to the submission log under the next index.
    pub fn render_frame(&mut self) -> (cmds: SealedCommands)
        requires
            old(self).stage == FrameStage::Idle,
            old(self).well_formed(),
            old(self).next_frame < usize::MAX,
        ensures
            final(self).stage == FrameStage::Idle,
            final(self).next_frame == old(self).next_frame + 1,
            final(self).submitted@ == old(self).submitted@ + seq![old(self).next_frame],
            final(self).well_formed(),
            cmds.commands@ == frame_commands(),
            draw_shape_ok(cmds.commands@),
    {
        self.acquire();
        self.begin_recording();
        let recorder = CommandRecorder::new();
        let mut pass = recorder.begin_pass(black_color());
        pass.set_pipeline();
        pass.set_vertex_buffer(0, 0);
        pass.draw(0, 3, 0, 1);
        let sealed = pass.end_pass();
        proof {
            assert(sealed.commands@ =~= frame_commands());
            lemma_frame_commands_draw_shape();
        }
        self.submit(&sealed);
        self.present();
        self.finish();
        sealed
    }
}

/// Submission order equals request order: in a well-formed renderer the
/// k-th command list the queue received belongs to frame k, for every
/// successful frame so far.
pub proof fn lemma_submission_in_request_order(r: FrameRenderer)
    requires
        r.well_formed(),
    ensures
        forall|k: int| 0 <= k < r.submitted@.len() ==> #[trigger] r.submitted@[k] == k,
{
}

} // verus!
