//! Building the render pipeline: the shader artifact is an opaque compiled
//! module that exposes named entry points and declares the vertex inputs it
//! consumes; the build accepts it only when both required entry points are
//! there and the inputs match the fixed vertex layout, and then binds that
//! layout together with the surface's format and the fixed-function state.

use vstd::prelude::*;
use crate::vertex::{
    Vertex, VertexAttribute, VertexBufferLayout, VertexFormat, buffer_bytes,
    lemma_buffer_bytes_len, lemma_buffer_record, lemma_vertex_record_decode,
    triangle_vertex_layout, triangle_layout_spec, u32_from_le, vertex_bytes, VERTEX_STRIDE,
};

verus! {

/// The pipeline stage an entry point belongs to.
#[derive(Clone, Copy, PartialEq, Eq, Structural, Debug)]
pub enum ShaderStage {
    Vertex,
    Fragment,
}

/// One named entry point of a compiled shader module.
pub struct EntryPoint {
    pub name: String,
    pub stage: ShaderStage,
}

/// A compiled shader module, opaque but for what the pipeline build reads:
/// its entry points and the per-location formats of the vertex inputs its
/// vertex stage consumes.
pub struct ShaderArtifact {
    pub entry_points: Vec<EntryPoint>,
    pub vertex_inputs: Vec<VertexFormat>,
}

/// Whether the artifact exposes an entry point of the given name and stage.
pub open spec fn has_entry(shader: ShaderArtifact, name: Seq<char>, stage: ShaderStage) -> bool {
    exists|i: int|
        0 <= i < shader.entry_points@.len() && (#[trigger] shader.entry_points@[i]).name@ == name
            && shader.entry_points@[i].stage == stage
}

/// Whether the vertex inputs the artifact consumes match the fixed layout:
/// a two-component float at location 0 and a three-component float at
/// location 1, nothing else.
pub open spec fn inputs_match_layout(shader: ShaderArtifact) -> bool {
    shader.vertex_inputs@ == seq![VertexFormat::Float32x2, VertexFormat::Float32x3]
}

/// An artifact is accepted when both named entry points are exposed and the
/// vertex inputs match the declared layout.
pub open spec fn shader_accepted(shader: ShaderArtifact) -> bool {
    &&& has_entry(shader, "vs_main"@, ShaderStage::Vertex)
    &&& has_entry(shader, "fs_main"@, ShaderStage::Fragment)
    &&& inputs_match_layout(shader)
}

/// Why a pipeline build was rejected.
///
/// The checks run in a fixed order: the vertex entry point first, the
/// fragment entry point second, the vertex inputs last.
#[derive(Clone, Copy, PartialEq, Eq, Structural, Debug)]
pub enum PipelineError {
    MissingVertexEntry,
    MissingFragmentEntry,
    AttributeMismatch,
}

/// The error an unaccepted artifact is rejected with, following the fixed
/// order of the checks.
pub open spec fn build_error(shader: ShaderArtifact) -> PipelineError {
    if !has_entry(shader, "vs_main"@, ShaderStage::Vertex) {
        PipelineError::MissingVertexEntry
    } else if !has_entry(shader, "fs_main"@, ShaderStage::Fragment) {
        PipelineError::MissingFragmentEntry
    } else {
        PipelineError::AttributeMismatch
    }
}

/// How triangles are assembled from the vertex stream. The build always
/// uses the default, a plain triangle list.
#[derive(Clone, Copy, PartialEq, Eq, Structural, Debug)]
pub enum PrimitiveTopology {
    TriangleList,
}

/// The immutable pipeline state: the two entry points, the vertex layout,
/// the color target's format, and the fixed-function choices — non-indexed
/// triangle list, no blending, full write mask, no depth/stencil target, no
/// multisampling.
pub struct PipelineDescriptor {
    pub vertex_entry: String,
    pub fragment_entry: String,
    pub vertex_layout: VertexBufferLayout,
    pub target_format: u32,
    pub topology: PrimitiveTopology,
    pub blend_enabled: bool,
    pub write_mask_all: bool,
    pub has_depth_stencil: bool,
    pub sample_count: u32,
}

/// What holds of every descriptor the build returns, beside the entry
/// names: the fixed vertex layout and fixed-function state, for the given
/// target format.
pub open spec fn built_descriptor(d: PipelineDescriptor, target_format: u32) -> bool {
    &&& d.vertex_entry@ == "vs_main"@
    &&& d.fragment_entry@ == "fs_main"@
    &&& d.vertex_layout.attributes@ == triangle_layout_spec()
    &&& d.vertex_layout.array_stride == VERTEX_STRIDE
    &&& d.target_format == target_format
    &&& d.topology == PrimitiveTopology::TriangleList
    &&& !d.blend_enabled
    &&& d.write_mask_all
    &&& !d.has_depth_stencil
    &&& d.sample_count == 1
}

/// Whether the artifact exposes an entry point of the given name and stage.
fn find_entry(shader: &ShaderArtifact, name: &String, stage: ShaderStage) -> (found: bool)
    ensures
        found == has_entry(*shader, name@, stage),
{
    let mut i: usize = 0;
    while i < shader.entry_points.len()
        invariant
            i <= shader.entry_points@.len(),
            forall|j: int|
                0 <= j < i ==> !((#[trigger] shader.entry_points@[j]).name@ == name@
                    && shader.entry_points@[j].stage == stage),
        decreases shader.entry_points@.len() - i,
    {
        let ep = &shader.entry_points[i];
        if ep.name == *name && ep.stage == stage {
            return true;
        }
        i = i + 1;
    }
    false
}

/// Whether the artifact's declared vertex inputs are exactly the fixed
/// layout's formats, in location order.
fn check_inputs(shader: &ShaderArtifact) -> (ok: bool)
    ensures
        ok == inputs_match_layout(*shader),
{
    let ok = shader.vertex_inputs.len() == 2 && shader.vertex_inputs[0] == VertexFormat::Float32x2
        && shader.vertex_inputs[1] == VertexFormat::Float32x3;
    proof {
        if ok {
            assert(shader.vertex_inputs@ =~= seq![
                VertexFormat::Float32x2,
                VertexFormat::Float32x3,
            ]);
        }
    }
    ok
}

/// Build the pipeline against a shader artifact and the surface's
/// configured format. The artifact is rejected — the vertex entry point
/// checked first, the fragment entry point second, the vertex inputs last —
/// unless it exposes `vs_main` and `fs_main` and consumes exactly the
/// declared attributes; an accepted build binds the fixed vertex layout,
/// the given color target format, and default fixed-function state.
pub fn build_pipeline(shader: &ShaderArtifact, target_format: u32) -> (r: Result<
    PipelineDescriptor,
    PipelineError,
>)
    ensures
        r.is_ok() <==> shader_accepted(*shader),
        r.is_ok() ==> built_descriptor(r.unwrap(), target_format),
        !shader_accepted(*shader) ==> r == Err::<PipelineDescriptor, PipelineError>(
            build_error(*shader),
        ),
{
    let vs_name: String = "vs_main".to_owned();
    let fs_name: String = "fs_main".to_owned();
    if !find_entry(shader, &vs_name, ShaderStage::Vertex) {
        return Err(PipelineError::MissingVertexEntry);
    }
    if !find_entry(shader, &fs_name, ShaderStage::Fragment) {
        return Err(PipelineError::MissingFragmentEntry);
    }
    if !check_inputs(shader) {
        return Err(PipelineError::AttributeMismatch);
    }
    Ok(
        PipelineDescriptor {
            vertex_entry: vs_name,
            fragment_entry: fs_name,
            vertex_layout: triangle_vertex_layout(),
            target_format,
            topology: PrimitiveTopology::TriangleList,
            blend_enabled: false,
            write_mask_all: true,
            has_depth_stencil: false,
            sample_count: 1,
        },
    )
}

/// For any shader artifact the pipeline build accepts, the bound layout's
/// attribute 0 is a two-component float vector at byte offset 0 and its
/// attribute 1 a three-component float vector at byte offset 8 — and at
/// those offsets, every record of a vertex buffer decodes back to the
/// vertex's position and color components.
pub proof fn lemma_accepted_pipeline_decodes_vertices(
    d: PipelineDescriptor,
    target_format: u32,
    vs: Seq<Vertex>,
    i: int,
)
    requires
        built_descriptor(d, target_format),
        0 <= i < vs.len(),
    ensures
        d.vertex_layout.attributes@[0] == (VertexAttribute {
            shader_location: 0,
            offset: 0,
            format: VertexFormat::Float32x2,
        }),
        d.vertex_layout.attributes@[1] == (VertexAttribute {
            shader_location: 1,
            offset: 8,
            format: VertexFormat::Float32x3,
        }),
        ({
            let stride = d.vertex_layout.array_stride as int;
            let p_off = d.vertex_layout.attributes@[0].offset as int;
            let c_off = d.vertex_layout.attributes@[1].offset as int;
            let b = buffer_bytes(vs);
            &&& u32_from_le(b.subrange(stride * i + p_off, stride * i + p_off + 4)) == vs[i].position_x
            &&& u32_from_le(b.subrange(stride * i + p_off + 4, stride * i + p_off + 8))
                == vs[i].position_y
            &&& u32_from_le(b.subrange(stride * i + c_off, stride * i + c_off + 4)) == vs[i].color_r
            &&& u32_from_le(b.subrange(stride * i + c_off + 4, stride * i + c_off + 8))
                == vs[i].color_g
            &&& u32_from_le(b.subrange(stride * i + c_off + 8, stride * i + c_off + 12))
                == vs[i].color_b
        }),
{
    let b = buffer_bytes(vs);
    let record = vertex_bytes(vs[i]);
    lemma_buffer_bytes_len(vs);
    lemma_buffer_record(vs, i);
    lemma_vertex_record_decode(vs[i]);
    assert forall|j: int| 0 <= j < 20 implies #[trigger] record[j] == b[20 * i + j] by {
        assert(record[j] == b.subrange(20 * i, 20 * i + 20)[j]);
    }
    assert(b.subrange(20 * i, 20 * i + 4) =~= record.subrange(0, 4));
    assert(b.subrange(20 * i + 4, 20 * i + 8) =~= record.subrange(4, 8));
    assert(b.subrange(20 * i + 8, 20 * i + 12) =~= record.subrange(8, 12));
    assert(b.subrange(20 * i + 12, 20 * i + 16) =~= record.subrange(12, 16));
    assert(b.subrange(20 * i + 16, 20 * i + 20) =~= record.subrange(16, 20));
}

} // verus!
