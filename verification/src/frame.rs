//! What one frame records and submits: a single render pass that clears the
//! color target to solid red and draws the triangle.

use vstd::prelude::*;
use crate::renderer::Renderer;
use crate::surface::GraphicsContext;

verus! {

/// Bit pattern of 1.0f64.
pub const F64_ONE_BITS: u64 = 0x3FF0_0000_0000_0000;

/// Bit pattern of 0.0f64.
pub const F64_ZERO_BITS: u64 = 0;

/// Number of vertices in the one non-indexed draw of a frame.
pub const DRAW_VERTEX_COUNT: u32 = 3;

/// Number of instances in the one draw of a frame.
pub const DRAW_INSTANCE_COUNT: u32 = 1;

/// The slot the vertex buffer is bound at.
pub const VERTEX_BUFFER_SLOT: u32 = 0;

/// A clear color, each channel held as the bit pattern of a 64-bit float.
#[derive(Clone, Copy, PartialEq, Eq, Debug)]
pub struct ClearColor {
    pub r_bits: u64,
    pub g_bits: u64,
    pub b_bits: u64,
    pub a_bits: u64,
}

/// Pure opaque red, the fixed color every frame clears to.
pub open spec fn spec_clear_red() -> ClearColor {
    ClearColor {
        r_bits: F64_ONE_BITS,
        g_bits: F64_ZERO_BITS,
        b_bits: F64_ZERO_BITS,
        a_bits: F64_ONE_BITS,
    }
}

/// One step of the command buffer a frame records. The pass has a single
/// color attachment (the acquired surface texture's view), no depth/stencil
/// attachment, and stores its result.
#[derive(Clone, Copy, PartialEq, Eq, Debug)]
pub enum RenderCommand {
    BeginRenderPass { clear: ClearColor },
    SetPipeline,
    SetVertexBuffer { slot: u32 },
    DrawVertices { vertex_count: u32, instance_count: u32 },
    EndRenderPass,
}

/// The exact command sequence of every frame: clear to red, bind the
/// pipeline, bind the vertex buffer at slot 0, draw 3 vertices as 1
/// instance, end the pass.
pub open spec fn spec_frame_commands() -> Seq<RenderCommand> {
    seq![
        RenderCommand::BeginRenderPass { clear: spec_clear_red() },
        RenderCommand::SetPipeline,
        RenderCommand::SetVertexBuffer { slot: VERTEX_BUFFER_SLOT },
        RenderCommand::DrawVertices {
            vertex_count: DRAW_VERTEX_COUNT,
            instance_count: DRAW_INSTANCE_COUNT,
        },
        RenderCommand::EndRenderPass,
    ]
}

pub fn clear_red() -> (c: ClearColor)
    ensures
        c == spec_clear_red(),
{
    ClearColor {
        r_bits: F64_ONE_BITS,
        g_bits: F64_ZERO_BITS,
        b_bits: F64_ZERO_BITS,
        a_bits: F64_ONE_BITS,
    }
}

impl Renderer {
    /// Record the command buffer of one frame. Takes the renderer and the
    /// context by shared reference: drawing reads the pipeline, the buffer
    /// and the configuration and mutates none of them. The recorded sequence
    /// is the same fixed sequence every frame, whatever the current surface
    /// dimensions are.
    pub fn record_frame(&self, context: &GraphicsContext) -> (commands: Vec<RenderCommand>)
        ensures
            commands@ == spec_frame_commands(),
    {
        let mut commands: Vec<RenderCommand> = Vec::new();
        commands.push(RenderCommand::BeginRenderPass { clear: clear_red() });
        commands.push(RenderCommand::SetPipeline);
        commands.push(RenderCommand::SetVertexBuffer { slot: VERTEX_BUFFER_SLOT });
        commands.push(
            RenderCommand::DrawVertices {
                vertex_count: DRAW_VERTEX_COUNT,
                instance_count: DRAW_INSTANCE_COUNT,
            },
        );
        commands.push(RenderCommand::EndRenderPass);
        proof {
            assert(commands@ =~= spec_frame_commands());
        }
        commands
    }
}

} // verus!
