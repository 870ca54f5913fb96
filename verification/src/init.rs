//! Startup decisions for GPU context initialization.
//!
//! The negotiation with the platform (instance, adapter, device) is performed
//! by the unverified shell; this module makes the decisions that feed it: the
//! backend and limit profile for the host platform, the choice of surface
//! format among the supported ones, and the surface configuration built from
//! the chosen format and the window's pixel dimensions.

use vstd::prelude::*;

verus! {

/// The kind of host the demo runs on, resolved once at startup.
#[derive(Clone, Copy, PartialEq, Eq, Structural, Debug)]
pub enum PlatformProfile {
    Native,
    Web,
}

/// Which GPU backend set the instance should select.
#[derive(Clone, Copy, PartialEq, Eq, Structural, Debug)]
pub enum BackendPreference {
    Primary,
    Gl,
}

/// Which device limit profile to request: full defaults, or the reduced
/// profile for a constrained host.
#[derive(Clone, Copy, PartialEq, Eq, Structural, Debug)]
pub enum LimitProfile {
    Defaults,
    DownlevelWebGl2,
}

/// The platform-dependent choices made once at startup.
#[derive(Clone, Copy, PartialEq, Eq, Structural, Debug)]
pub struct StartupOptions {
    pub backends: BackendPreference,
    pub limits: LimitProfile,
}

/// The startup options for a platform: a native host uses the primary
/// backends with default limits; a web host uses the GL backend with the
/// reduced WebGL2 limit profile.
pub open spec fn spec_startup_options(platform: PlatformProfile) -> StartupOptions {
    match platform {
        PlatformProfile::Native => StartupOptions {
            backends: BackendPreference::Primary,
            limits: LimitProfile::Defaults,
        },
        PlatformProfile::Web => StartupOptions {
            backends: BackendPreference::Gl,
            limits: LimitProfile::DownlevelWebGl2,
        },
    }
}

/// Resolve the backend and limit profile for the host platform.
pub fn startup_options(platform: PlatformProfile) -> (r: StartupOptions)
    ensures
        r == spec_startup_options(platform),
{
    match platform {
        PlatformProfile::Native => StartupOptions {
            backends: BackendPreference::Primary,
            limits: LimitProfile::Defaults,
        },
        PlatformProfile::Web => StartupOptions {
            backends: BackendPreference::Gl,
            limits: LimitProfile::DownlevelWebGl2,
        },
    }
}

/// Pick the surface format: the first format flagged as gamma-correct
/// (sRGB) when one exists, else the first supported format. `srgb[i]` says
/// whether the i-th supported format is sRGB.
pub fn select_surface_format(srgb: &Vec<bool>) -> (r: usize)
    requires
        srgb@.len() > 0,
    ensures
        r < srgb@.len(),
        (exists|i: int| 0 <= i < srgb@.len() && srgb@[i]) ==> (srgb@[r as int] && forall|k: int|
            0 <= k < r ==> !srgb@[k]),
        (forall|i: int| 0 <= i < srgb@.len() ==> !srgb@[i]) ==> r == 0,
{
    let mut i: usize = 0;
    while i < srgb.len()
        invariant
            i <= srgb@.len(),
            forall|k: int| 0 <= k < i ==> !srgb@[k],
        decreases srgb@.len() - i,
    {
        if srgb[i] {
            return i;
        }
        i = i + 1;
    }
    0
}

/// The primitive assembly of the pipelines: a triangle list.
#[derive(Clone, Copy, PartialEq, Eq, Structural, Debug)]
pub enum PrimitiveTopologyDesc {
    TriangleList,
}

/// The winding that counts as front-facing: counter-clockwise.
#[derive(Clone, Copy, PartialEq, Eq, Structural, Debug)]
pub enum FrontFaceDesc {
    Ccw,
}

/// Which faces are culled: back faces.
#[derive(Clone, Copy, PartialEq, Eq, Structural, Debug)]
pub enum CullModeDesc {
    Back,
}

/// How polygons are rasterized: filled.
#[derive(Clone, Copy, PartialEq, Eq, Structural, Debug)]
pub enum PolygonModeDesc {
    Fill,
}

/// How the color target blends: plain replacement.
#[derive(Clone, Copy, PartialEq, Eq, Structural, Debug)]
pub enum BlendStateDesc {
    Replace,
}

/// Which color channels are written: all of them.
#[derive(Clone, Copy, PartialEq, Eq, Structural, Debug)]
pub enum ColorWriteMaskDesc {
    All,
}

/// Which vertex-stage routine a pipeline binds: the one emitting a fixed
/// solid color, or the one passing the vertex color through.
#[derive(Clone, Copy, PartialEq, Eq, Structural, Debug)]
pub enum VertexEntry {
    Solid,
    Main,
}

/// Everything the two pipelines share: an empty bind-group layout,
/// triangle-list topology, counter-clockwise front face with back-face
/// culling, fill mode, no depth/stencil, single-sample no-alpha-to-coverage
/// multisampling, and a replace-blended full-write color target.
#[derive(Clone, Copy, PartialEq, Eq, Structural, Debug)]
pub struct FixedPipelineState {
    pub bind_group_layout_count: usize,
    pub immediate_size: u32,
    pub topology: PrimitiveTopologyDesc,
    pub front_face: FrontFaceDesc,
    pub cull_mode: CullModeDesc,
    pub polygon_mode: PolygonModeDesc,
    pub has_depth_stencil: bool,
    pub sample_count: u32,
    pub sample_mask: u64,
    pub alpha_to_coverage_enabled: bool,
    pub blend: BlendStateDesc,
    pub write_mask: ColorWriteMaskDesc,
}

/// One pipeline to compile: the shared fixed state plus the vertex entry
/// point it binds.
#[derive(Clone, Copy, PartialEq, Eq, Structural, Debug)]
pub struct PipelinePlan {
    pub vertex_entry: VertexEntry,
    pub fixed: FixedPipelineState,
}

/// The fixed state both pipelines are built with.
pub open spec fn spec_fixed_pipeline_state() -> FixedPipelineState {
    FixedPipelineState {
        bind_group_layout_count: 0,
        immediate_size: 0,
        topology: PrimitiveTopologyDesc::TriangleList,
        front_face: FrontFaceDesc::Ccw,
        cull_mode: CullModeDesc::Back,
        polygon_mode: PolygonModeDesc::Fill,
        has_depth_stencil: false,
        sample_count: 1,
        sample_mask: 0xffff_ffff_ffff_ffff,
        alpha_to_coverage_enabled: false,
        blend: BlendStateDesc::Replace,
        write_mask: ColorWriteMaskDesc::All,
    }
}

/// The plan of the pipeline bound to the given vertex-stage routine.
pub open spec fn spec_pipeline_plan(entry: VertexEntry) -> PipelinePlan {
    PipelinePlan { vertex_entry: entry, fixed: spec_fixed_pipeline_state() }
}

/// Build the plan of one pipeline.
pub fn pipeline_plan(entry: VertexEntry) -> (r: PipelinePlan)
    ensures
        r == spec_pipeline_plan(entry),
        r.vertex_entry == entry,
        r.fixed == spec_fixed_pipeline_state(),
{
    PipelinePlan {
        vertex_entry: entry,
        fixed: FixedPipelineState {
            bind_group_layout_count: 0,
            immediate_size: 0,
            topology: PrimitiveTopologyDesc::TriangleList,
            front_face: FrontFaceDesc::Ccw,
            cull_mode: CullModeDesc::Back,
            polygon_mode: PolygonModeDesc::Fill,
            has_depth_stencil: false,
            sample_count: 1,
            sample_mask: 0xffff_ffff_ffff_ffff,
            alpha_to_coverage_enabled: false,
            blend: BlendStateDesc::Replace,
            write_mask: ColorWriteMaskDesc::All,
        },
    }
}

/// The two pipelines share one layout and all fixed state; they differ
/// only in which vertex entry point they bind.
pub proof fn lemma_pipelines_differ_only_in_vertex_entry()
    ensures
        spec_pipeline_plan(VertexEntry::Solid).fixed == spec_pipeline_plan(
            VertexEntry::Main,
        ).fixed,
        spec_pipeline_plan(VertexEntry::Solid).vertex_entry != spec_pipeline_plan(
            VertexEntry::Main,
        ).vertex_entry,
{
}

/// The shader entry point a vertex-stage routine is bound under.
pub fn vertex_entry_name(entry: VertexEntry) -> (r: &'static str)
    ensures
        entry == VertexEntry::Solid ==> r@ == "vs_solid"@,
        entry == VertexEntry::Main ==> r@ == "vs_main"@,
{
    match entry {
        VertexEntry::Solid => "vs_solid",
        VertexEntry::Main => "vs_main",
    }
}

/// The shader entry point of the one fragment-stage routine.
pub fn fragment_entry_name() -> (r: &'static str)
    ensures
        r@ == "fs_main"@,
{
    "fs_main"
}

/// A surface configuration as plain values: the index of the chosen format,
/// the indices of the chosen present and alpha modes among the supported
/// ones, the target's pixel dimensions, and the frame-latency hint.
#[derive(Clone, Copy, PartialEq, Eq, Structural, Debug)]
pub struct SurfaceConfigPlan {
    pub format_index: usize,
    pub present_mode_index: usize,
    pub alpha_mode_index: usize,
    pub width: u32,
    pub height: u32,
    pub desired_maximum_frame_latency: u32,
}

/// Build the surface configuration: render-target usage with the first
/// sRGB format if present (else the first format), the first supported
/// present and alpha modes, the window's current pixel dimensions, and a
/// frame-latency hint of 2.
pub fn plan_surface_config(srgb: &Vec<bool>, width: u32, height: u32) -> (r: SurfaceConfigPlan)
    requires
        srgb@.len() > 0,
    ensures
        r.format_index < srgb@.len(),
        (exists|i: int| 0 <= i < srgb@.len() && srgb@[i]) ==> (srgb@[r.format_index as int]
            && forall|k: int| 0 <= k < r.format_index ==> !srgb@[k]),
        (forall|i: int| 0 <= i < srgb@.len() ==> !srgb@[i]) ==> r.format_index == 0,
        r.present_mode_index == 0,
        r.alpha_mode_index == 0,
        r.width == width,
        r.height == height,
        r.desired_maximum_frame_latency == 2,
{
    let format_index = select_surface_format(srgb);
    SurfaceConfigPlan {
        format_index,
        present_mode_index: 0,
        alpha_mode_index: 0,
        width,
        height,
        desired_maximum_frame_latency: 2,
    }
}

} // verus!
