//! The commands of one frame, recorded in order.

use vstd::prelude::*;
use crate::render::renderer::FrameTarget;

verus! {

/// What happens to a colour target when a pass begins.
#[derive(Clone, Copy, Debug, PartialEq, Eq, Structural)]
pub enum LoadOp {
    Clear,
    Load,
}

/// What happens to a colour target when a pass ends.
#[derive(Clone, Copy, Debug, PartialEq, Eq, Structural)]
pub enum StoreOp {
    Clear,
    Store,
}

/// The colours a pass can clear its target to.
#[derive(Clone, Copy, Debug, PartialEq, Eq, Structural)]
pub enum ClearColor {
    Transparent,
    Black,
    White,
    Red,
    Green,
    Blue,
}

/// One recorded GPU operation.
#[derive(Clone, Copy, Debug, PartialEq, Eq, Structural)]
pub enum Command {
    /// Opens a render pass on the frame of the swap chain generation
    /// `target`.
    BeginRenderPass { target: u64, load_op: LoadOp, store_op: StoreOp, clear_color: ClearColor },
    /// Binds the triangle pipeline.
    SetPipeline,
    SetBindGroup { index: u32 },
    /// Draws the vertices `first_vertex..end_vertex` for each of the
    /// instances `first_instance..end_instance`, without an index buffer.
    Draw { first_vertex: u32, end_vertex: u32, first_instance: u32, end_instance: u32 },
    EndRenderPass,
    /// The overlay's draw commands for this frame, into the frame of the
    /// swap chain generation `target`: the panel with the mouse position,
    /// the panel that shows `frame_time` (in nanoseconds), and the demo
    /// panel where `demo_open` is set.
    Overlay { target: u64, frame_time: u128, demo_open: bool },
}

/// Records the commands of a frame.
#[derive(Debug, PartialEq, Eq)]
pub struct CommandEncoder {
    pub commands: Vec<Command>,
}

/// The finished commands of one frame, with the frame they render into.
/// It is submitted once and then dropped.
#[derive(Debug, PartialEq, Eq)]
pub struct CommandSequence {
    pub commands: Vec<Command>,
    pub target: FrameTarget,
}

/// A `CommandSequence` as the contracts see it.
pub struct CommandSequenceView {
    pub commands: Seq<Command>,
    pub target: FrameTarget,
}

impl View for CommandEncoder {
    type V = Seq<Command>;

    open spec fn view(&self) -> Seq<Command> {
        self.commands@
    }
}

impl View for CommandSequence {
    type V = CommandSequenceView;

    open spec fn view(&self) -> CommandSequenceView {
        CommandSequenceView { commands: self.commands@, target: self.target }
    }
}

/// The draw of the triangle: three vertices, one instance.
pub open spec fn triangle_draw() -> Command {
    Command::Draw { first_vertex: 0, end_vertex: 3, first_instance: 0, end_instance: 1 }
}

/// The pass that clears the frame and draws the triangle.
pub open spec fn triangle_pass(target: u64) -> Seq<Command> {
    seq![
        Command::BeginRenderPass {
            target,
            load_op: LoadOp::Clear,
            store_op: StoreOp::Store,
            clear_color: ClearColor::Green,
        },
        Command::SetPipeline,
        Command::SetBindGroup { index: 0 },
        triangle_draw(),
        Command::EndRenderPass,
    ]
}

/// All commands of a frame: the triangle pass, then the overlay.
pub open spec fn frame_commands(target: u64, frame_time: u128, demo_open: bool) -> Seq<Command> {
    triangle_pass(target).push(Command::Overlay { target, frame_time, demo_open })
}

/// The commands hold one draw, that of the triangle, and one overlay, which
/// comes after the draw.
pub open spec fn one_triangle_then_overlay(commands: Seq<Command>) -> bool {
    exists|d: int, o: int|
        #![trigger commands[d], commands[o]]
        {
            &&& 0 <= d < o < commands.len()
            &&& commands[d] == triangle_draw()
            &&& commands[o] is Overlay
            &&& forall|i: int| 0 <= i < commands.len() && commands[i] is Draw ==> i == d
            &&& forall|i: int| 0 <= i < commands.len() && commands[i] is Overlay ==> i == o
        }
}

impl CommandEncoder {
    /// An encoder that has recorded nothing.
    pub fn new() -> (encoder: CommandEncoder)
        ensures
            encoder@ == Seq::<Command>::empty(),
    {
        CommandEncoder { commands: Vec::new() }
    }

    /// Records the pass that clears `frame` to green and draws the triangle.
    pub fn triangle_pass(&mut self, frame: &FrameTarget)
        ensures
            final(self)@ == old(self)@ + triangle_pass(frame.generation),
    {
        self.commands.push(
            Command::BeginRenderPass {
                target: frame.generation,
                load_op: LoadOp::Clear,
                store_op: StoreOp::Store,
                clear_color: ClearColor::Green,
            },
        );
        self.commands.push(Command::SetPipeline);
        self.commands.push(Command::SetBindGroup { index: 0 });
        self.commands.push(
            Command::Draw { first_vertex: 0, end_vertex: 3, first_instance: 0, end_instance: 1 },
        );
        self.commands.push(Command::EndRenderPass);
        assert(self@ =~= old(self)@ + triangle_pass(frame.generation));
    }

    /// Closes the encoder. The sequence takes the frame with it: once the
    /// sequence is submitted and dropped, the frame is presented.
    pub fn finish(self, target: FrameTarget) -> (sequence: CommandSequence)
        ensures
            sequence@ == (CommandSequenceView { commands: self@, target }),
    {
        CommandSequence { commands: self.commands, target }
    }
}

/// A frame holds exactly one draw, that of the triangle, and the overlay
/// comes after it.
pub proof fn lemma_frame_draws_triangle_then_overlay(
    target: u64,
    frame_time: u128,
    demo_open: bool,
)
    ensures
        one_triangle_then_overlay(frame_commands(target, frame_time, demo_open)),
{
    let commands = frame_commands(target, frame_time, demo_open);
    assert(commands.len() == 6);
    assert(commands[3] == triangle_draw());
    assert(commands[5] is Overlay);
}

} // verus!
