//! The renderer: the compiled pipeline's description and the static vertex
//! buffer, and the invariant that ties the declared vertex layout to the
//! buffer's byte layout.

use vstd::prelude::*;
use crate::vertex::{
    spec_triangle_bytes, spec_triangle_vertices, vertex_buffer_contents, VERTEX_SIZE,
};

verus! {

/// The two entry points of the bundled shader.
#[derive(Clone, Copy, PartialEq, Eq, Debug)]
pub enum ShaderStage {
    VertexStage,
    FragmentStage,
}

/// The one vertex attribute format the pipeline uses: two 32-bit floats.
#[derive(Clone, Copy, PartialEq, Eq, Debug)]
pub enum AttributeFormat {
    Float32x2,
}

/// How the vertex buffer is stepped through: one record per vertex.
#[derive(Clone, Copy, PartialEq, Eq, Debug)]
pub enum StepMode {
    PerVertex,
}

/// One vertex attribute: its format, byte offset inside the record, and
/// shader input location.
#[derive(Clone, Copy, PartialEq, Eq, Debug)]
pub struct VertexAttribute {
    pub format: AttributeFormat,
    pub offset: u64,
    pub shader_location: u32,
}

/// The single vertex-buffer input channel: record stride, step mode, and
/// its one attribute.
#[derive(Clone, Copy, PartialEq, Eq, Debug)]
pub struct VertexLayout {
    pub array_stride: u64,
    pub step_mode: StepMode,
    pub attribute: VertexAttribute,
}

/// Everything the pipeline is built from, beyond the shader source itself:
/// an empty resource-binding layout, the two entry points, the vertex input
/// channel, the surface's format as the single color target, and default
/// fixed-function state (no depth/stencil, one sample).
#[derive(Clone, Copy, PartialEq, Eq, Debug)]
pub struct PipelineDesc {
    pub bind_group_layout_count: u32,
    pub push_constant_range_count: u32,
    pub vertex_entry: ShaderStage,
    pub fragment_entry: ShaderStage,
    pub vertex_layout: VertexLayout,
    pub color_format: u32,
    pub has_depth_stencil: bool,
    pub sample_count: u32,
}

/// The pipeline description is a pure function of the surface format alone.
pub open spec fn spec_pipeline_desc(format: u32) -> PipelineDesc {
    PipelineDesc {
        bind_group_layout_count: 0,
        push_constant_range_count: 0,
        vertex_entry: ShaderStage::VertexStage,
        fragment_entry: ShaderStage::FragmentStage,
        vertex_layout: VertexLayout {
            array_stride: VERTEX_SIZE,
            step_mode: StepMode::PerVertex,
            attribute: VertexAttribute {
                format: AttributeFormat::Float32x2,
                offset: 0,
                shader_location: 0,
            },
        },
        color_format: format,
        has_depth_stencil: false,
        sample_count: 1,
    }
}

/// The renderer: the pipeline's description and the byte image of the
/// GPU-resident vertex buffer. Both are fixed at construction and never
/// change afterwards.
#[derive(Clone, PartialEq, Eq, Debug)]
pub struct Renderer {
    pub pipeline: PipelineDesc,
    pub vertex_buffer: Vec<u8>,
}

impl Renderer {
    /// The construction-time invariant: the declared vertex layout matches
    /// the buffer's byte layout exactly — two 32-bit positions per record at
    /// offset 0, tightly packed, and exactly three records — and the shader
    /// reads no external bindings.
    pub open spec fn wf(self) -> bool {
        &&& self.pipeline.vertex_layout.array_stride == VERTEX_SIZE
        &&& self.pipeline.vertex_layout.attribute.offset == 0
        &&& self.pipeline.vertex_layout.attribute.format == AttributeFormat::Float32x2
        &&& self.pipeline.vertex_layout.attribute.shader_location == 0
        &&& self.pipeline.bind_group_layout_count == 0
        &&& self.pipeline.push_constant_range_count == 0
        &&& self.vertex_buffer@.len() == 3 * VERTEX_SIZE
    }

    /// Construct the renderer for a context whose surface format is
    /// `format`: the fixed pipeline description and the fixed triangle's
    /// buffer bytes. The result is fully determined by `format`.
    pub fn new(format: u32) -> (r: Renderer)
        ensures
            r.pipeline == spec_pipeline_desc(format),
            r.vertex_buffer@ == spec_triangle_bytes(),
            r.wf(),
    {
        let pipeline = PipelineDesc {
            bind_group_layout_count: 0,
            push_constant_range_count: 0,
            vertex_entry: ShaderStage::VertexStage,
            fragment_entry: ShaderStage::FragmentStage,
            vertex_layout: VertexLayout {
                array_stride: VERTEX_SIZE,
                step_mode: StepMode::PerVertex,
                attribute: VertexAttribute {
                    format: AttributeFormat::Float32x2,
                    offset: 0,
                    shader_location: 0,
                },
            },
            color_format: format,
            has_depth_stencil: false,
            sample_count: 1,
        };
        let vertex_buffer = vertex_buffer_contents();
        proof {
            crate::vertex::lemma_vertices_bytes_len(spec_triangle_vertices());
        }
        Renderer { pipeline, vertex_buffer }
    }

    /// Construction is deterministic: two renderers built for the same
    /// format have equal pipeline descriptions and byte-identical vertex
    /// buffers.
    pub proof fn lemma_construction_deterministic(r1: Renderer, r2: Renderer, format: u32)
        requires
            r1.pipeline == spec_pipeline_desc(format),
            r1.vertex_buffer@ == spec_triangle_bytes(),
            r2.pipeline == spec_pipeline_desc(format),
            r2.vertex_buffer@ == spec_triangle_bytes(),
        ensures
            r1.pipeline == r2.pipeline,
            r1.vertex_buffer@ == r2.vertex_buffer@,
    {
    }
}

/// The entry point name each stage is compiled against, as spelled in the
/// bundled shader source.
pub fn entry_point_name(stage: ShaderStage) -> (s: &'static str)
    ensures
        stage == ShaderStage::VertexStage ==> s@ == "vertex"@,
        stage == ShaderStage::FragmentStage ==> s@ == "fragment"@,
{
    match stage {
        ShaderStage::VertexStage => "vertex",
        ShaderStage::FragmentStage => "fragment",
    }
}

} // verus!
