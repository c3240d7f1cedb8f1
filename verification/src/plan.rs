//! Draw orchestrator: computes everything one instanced, indirect quad draw
//! needs from a glyph run, the atlas's answers, a transform and the screen
//! extent.
//!
//! The result is a [`DrawPlan`]: the assembled vertex records, the uniform
//! transform to upload, the indirect-draw arguments (four vertices of one
//! quad strip, one instance per visible glyph), and the viewport covering
//! the screen. The caller uploads the plan's data into its per-frame pools,
//! binds the atlas texture with the fixed sampler of [`sampler_config`], and
//! records the one draw call. A plan is computed even when no glyph is
//! visible: the draw then has instance count zero and stays a well-formed
//! no-op.

use vstd::prelude::*;
use crate::assemble::{
    all_ok, assemble_vertices, first_error, lemma_vertex_count, lemma_vertices_color_z,
    vertices_of, AtlasEntry, LookupError,
};
use crate::geom::{FontId, Glyph, GlyphRun, Rgba, ScreenRect, UvRect, Vertex};

verus! {

/// The arguments of one indirect draw: a fixed four-vertex quad strip,
/// instanced once per visible glyph, starting at vertex and instance zero.
#[derive(Clone, Copy, Debug, PartialEq, Eq, Structural)]
pub struct IndirectArgs {
    pub vertex_count: u32,
    pub instance_count: u32,
    pub first_vertex: u32,
    pub first_instance: u32,
}

/// The dynamic viewport of one draw: the full screen, origin at the
/// top-left pixel. Its depth range is the fixed `[0, 1]` of the pipeline.
#[derive(Clone, Copy, Debug, PartialEq, Eq, Structural)]
pub struct Viewport {
    pub origin_x: u32,
    pub origin_y: u32,
    pub width: u32,
    pub height: u32,
}

/// Everything one draw call consumes, computed once per call: the vertex
/// records to chunk into the vertex pool, the transform to chunk into the
/// uniform pool, the indirect arguments to chunk into the indirect pool, and
/// the viewport to set.
#[derive(Debug)]
pub struct DrawPlan {
    pub vertices: Vec<Vertex>,
    /// The caller's 4x4 transform, row by row, as opaque 32-bit patterns;
    /// uploaded unchanged as the draw's single uniform record.
    pub transform: [[u32; 4]; 4],
    pub indirect: IndirectArgs,
    pub viewport: Viewport,
}

/// A texture filter choice of the fixed atlas sampler.
#[derive(Clone, Copy, Debug, PartialEq, Eq, Structural)]
pub enum SamplerFilter {
    Nearest,
    Linear,
}

/// A mipmap mode choice of the fixed atlas sampler.
#[derive(Clone, Copy, Debug, PartialEq, Eq, Structural)]
pub enum SamplerMipmapMode {
    Nearest,
    Linear,
}

/// An addressing mode choice of the fixed atlas sampler.
#[derive(Clone, Copy, Debug, PartialEq, Eq, Structural)]
pub enum SamplerAddressMode {
    Repeat,
    ClampToEdge,
}

/// The fixed sampling policy the atlas texture is bound with. Mip bias and
/// anisotropy are off; those are the device defaults the caller passes
/// alongside this policy.
#[derive(Clone, Copy, Debug, PartialEq, Eq, Structural)]
pub struct SamplerConfig {
    pub mag_filter: SamplerFilter,
    pub min_filter: SamplerFilter,
    pub mipmap_mode: SamplerMipmapMode,
    pub address_u: SamplerAddressMode,
    pub address_v: SamplerAddressMode,
    pub address_w: SamplerAddressMode,
}

/// The one sampler this renderer ever binds: linear magnification and
/// minification, nearest mipmap mode, clamp-to-edge on every axis.
pub fn sampler_config() -> (c: SamplerConfig)
    ensures
        c == (SamplerConfig {
            mag_filter: SamplerFilter::Linear,
            min_filter: SamplerFilter::Linear,
            mipmap_mode: SamplerMipmapMode::Nearest,
            address_u: SamplerAddressMode::ClampToEdge,
            address_v: SamplerAddressMode::ClampToEdge,
            address_w: SamplerAddressMode::ClampToEdge,
        }),
{
    SamplerConfig {
        mag_filter: SamplerFilter::Linear,
        min_filter: SamplerFilter::Linear,
        mipmap_mode: SamplerMipmapMode::Nearest,
        address_u: SamplerAddressMode::ClampToEdge,
        address_v: SamplerAddressMode::ClampToEdge,
        address_w: SamplerAddressMode::ClampToEdge,
    }
}

/// What a successful plan holds, given the atlas's answers: the assembled
/// vertex sequence, indirect arguments drawing the fixed quad once per
/// assembled vertex, the transform copied unchanged, and the full-screen
/// viewport.
pub open spec fn plan_matches(
    plan: DrawPlan,
    entries: Seq<Result<AtlasEntry, LookupError>>,
    transform: [[u32; 4]; 4],
    width: u32,
    height: u32,
    color: Rgba,
    z: u32,
) -> bool {
    &&& plan.vertices@ == vertices_of(entries, width as int, height as int, color, z)
    &&& plan.indirect == (IndirectArgs {
        vertex_count: 4,
        instance_count: vertices_of(entries, width as int, height as int, color, z).len() as u32,
        first_vertex: 0,
        first_instance: 0,
    })
    &&& plan.transform == transform
    &&& plan.viewport == (Viewport { origin_x: 0, origin_y: 0, width, height })
}

/// Computes the plan of one draw. `entries[i]` is the atlas's answer for
/// `run.glyphs[i]`. Succeeds with the exact plan of [`plan_matches`] when
/// every lookup answered, even the plan of a no-op draw with no visible
/// glyph; fails with the first lookup failure, unchanged, otherwise.
pub fn prepare_draw(
    run: &GlyphRun,
    entries: &Vec<Result<AtlasEntry, LookupError>>,
    transform: [[u32; 4]; 4],
    width: u32,
    height: u32,
) -> (r: Result<DrawPlan, LookupError>)
    requires
        0 < width,
        0 < height,
        entries@.len() == run.glyphs@.len(),
        run.glyphs@.len() <= u32::MAX,
    ensures
        all_ok(entries@) ==> (r matches Ok(plan) && plan_matches(
            plan,
            entries@,
            transform,
            width,
            height,
            run.color,
            run.z,
        )),
        !all_ok(entries@) ==> (r matches Err(e) && e == first_error(entries@)),
{
    let vertices = match assemble_vertices(run, entries, width, height) {
        Ok(v) => v,
        Err(e) => {
            return Err(e);
        },
    };
    proof {
        lemma_vertex_count(entries@, width as int, height as int, run.color, run.z);
    }
    let instance_count = vertices.len() as u32;
    Ok(DrawPlan {
        vertices,
        transform,
        indirect: IndirectArgs {
            vertex_count: 4,
            instance_count,
            first_vertex: 0,
            first_instance: 0,
        },
        viewport: Viewport { origin_x: 0, origin_y: 0, width, height },
    })
}

/// The atlas lookup capability this renderer consumes, implemented by the
/// texture cache that owns the glyph bitmap storage. An answer of `None`
/// means the glyph currently has no backing region and is to be skipped
/// silently; an `Err` is a cache-internal failure, distinct from absence.
pub trait AtlasLookup {
    /// Where glyph `glyph` of font `font` currently sits: its rectangle in
    /// atlas texture space and its box in screen pixel space, if resident.
    fn rect_for(&self, font: FontId, glyph: &Glyph) -> Result<
        Option<(UvRect, ScreenRect)>,
        LookupError,
    >;
}

/// What any plan built against an atlas lookup satisfies, whatever the
/// lookup answered: the fixed quad is instanced once per assembled vertex,
/// at most once per glyph of the run; the transform and viewport are the
/// call's own; and every vertex carries the run's color and depth.
pub open spec fn plan_shape_ok(
    plan: DrawPlan,
    run: GlyphRun,
    transform: [[u32; 4]; 4],
    width: u32,
    height: u32,
) -> bool {
    &&& plan.indirect == (IndirectArgs {
        vertex_count: 4,
        instance_count: plan.vertices@.len() as u32,
        first_vertex: 0,
        first_instance: 0,
    })
    &&& plan.vertices@.len() <= run.glyphs@.len()
    &&& plan.transform == transform
    &&& plan.viewport == (Viewport { origin_x: 0, origin_y: 0, width, height })
    &&& forall|j: int|
        0 <= j < plan.vertices@.len() ==> {
            &&& (#[trigger] plan.vertices@[j]).color == run.color
            &&& plan.vertices@[j].z == run.z
        }
}

/// Computes the plan of one draw by querying the atlas for each glyph of the
/// run, in run order, and assembling the answers. The first lookup failure
/// aborts the call at once — no later glyph is queried — and is returned
/// unchanged, so that a failed call plans no draw at all. A successful plan
/// has the shape of [`plan_shape_ok`]; a run with no glyphs consults no
/// lookup and always succeeds with the exact plan of the no-op draw.
pub fn plan_via<L: AtlasLookup>(
    lookup: &L,
    run: &GlyphRun,
    transform: [[u32; 4]; 4],
    width: u32,
    height: u32,
) -> (r: Result<DrawPlan, LookupError>)
    requires
        0 < width,
        0 < height,
        run.glyphs@.len() <= u32::MAX,
    ensures
        r matches Ok(plan) ==> plan_shape_ok(plan, *run, transform, width, height),
        run.glyphs@.len() == 0 ==> (r matches Ok(plan) && plan_matches(
            plan,
            Seq::<Result<AtlasEntry, LookupError>>::empty(),
            transform,
            width,
            height,
            run.color,
            run.z,
        )),
{
    let mut entries: Vec<Result<AtlasEntry, LookupError>> = Vec::new();
    let mut i: usize = 0;
    while i < run.glyphs.len()
        invariant
            0 <= i <= run.glyphs@.len(),
            entries@.len() == i,
            all_ok(entries@),
        decreases run.glyphs@.len() - i,
    {
        let glyph = run.glyphs[i];
        let entry = match lookup.rect_for(run.font, &glyph) {
            Ok(None) => AtlasEntry::Missing,
            Ok(Some((uv, screen))) => AtlasEntry::Hit { uv, screen },
            Err(e) => {
                return Err(e);
            },
        };
        entries.push(Ok(entry));
        i = i + 1;
    }
    proof {
        if run.glyphs@.len() == 0 {
            assert(entries@ =~= Seq::<Result<AtlasEntry, LookupError>>::empty());
        }
    }
    let plan = match prepare_draw(run, &entries, transform, width, height) {
        Ok(plan) => plan,
        Err(e) => {
            return Err(e);
        },
    };
    proof {
        lemma_vertex_count(entries@, width as int, height as int, run.color, run.z);
        lemma_vertices_color_z(entries@, width as int, height as int, run.color, run.z);
    }
    Ok(plan)
}

} // verus!
