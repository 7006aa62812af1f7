use vstd::prelude::*;
use crate::surface::TextureFormat;

verus! {

/// How vertices are assembled into primitives.
#[derive(Clone, Copy, PartialEq, Eq, Structural, Debug)]
pub enum Topology {
    PointList,
    LineList,
    TriangleList,
}

/// Which winding order counts as the front of a triangle.
#[derive(Clone, Copy, PartialEq, Eq, Structural, Debug)]
pub enum FrontFace {
    Ccw,
    Cw,
}

/// Which faces the rasterizer discards.
#[derive(Clone, Copy, PartialEq, Eq, Structural, Debug)]
pub enum CullMode {
    Off,
    Front,
    Back,
}

/// How primitives are filled.
#[derive(Clone, Copy, PartialEq, Eq, Structural, Debug)]
pub enum PolygonMode {
    Fill,
    Line,
    Point,
}

/// How a fragment's output is combined with the attachment.
#[derive(Clone, Copy, PartialEq, Eq, Structural, Debug)]
pub enum BlendMode {
    Replace,
    AlphaBlend,
}

/// Write mask selecting all four color channels.
pub const COLOR_WRITE_ALL: u32 = 0xF;

/// The immutable description of a rendering pipeline: the output color
/// format together with the fixed-function rasterization and blend state it
/// was compiled with. Once built it is never mutated; a format change
/// requires a full rebuild.
#[derive(Clone, Copy, PartialEq, Eq, Structural, Debug)]
pub struct PipelineDesc {
    pub format: TextureFormat,
    pub topology: Topology,
    pub front_face: FrontFace,
    pub cull_mode: CullMode,
    pub polygon_mode: PolygonMode,
    pub blend: BlendMode,
    pub write_mask: u32,
    pub sample_count: u32,
}

/// The default fixed-function policy: triangle-list topology,
/// counter-clockwise front face, back-face culling, solid fill, no
/// blending (replace), all channels written, single-sampled, targeting the
/// given output format.
pub open spec fn spec_default_pipeline(format: TextureFormat) -> PipelineDesc {
    PipelineDesc {
        format,
        topology: Topology::TriangleList,
        front_face: FrontFace::Ccw,
        cull_mode: CullMode::Back,
        polygon_mode: PolygonMode::Fill,
        blend: BlendMode::Replace,
        write_mask: COLOR_WRITE_ALL,
        sample_count: 1,
    }
}

/// Builds the pipeline description for the given output format with the
/// default fixed-function policy.
pub fn build_pipeline(format: TextureFormat) -> (r: PipelineDesc)
    ensures
        r == spec_default_pipeline(format),
        r.format == format,
{
    PipelineDesc {
        format,
        topology: Topology::TriangleList,
        front_face: FrontFace::Ccw,
        cull_mode: CullMode::Back,
        polygon_mode: PolygonMode::Fill,
        blend: BlendMode::Replace,
        write_mask: COLOR_WRITE_ALL,
        sample_count: 1,
    }
}

} // verus!
