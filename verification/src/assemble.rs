//! Vertex assembler: turns a glyph run and its atlas lookup results into the
//! ordered sequence of quad-instance records of one draw.
//!
//! For each glyph, in run order, the atlas either reports a rectangle pair
//! (a hit), reports nothing (the glyph has no backing region right now and
//! is silently skipped), or fails. A hit becomes one vertex: the screen
//! rectangle's corners mapped to NDC, the texture rectangle copied, and the
//! run's color and depth attached. The first failure aborts the assembly and
//! is returned unchanged.

use vstd::prelude::*;
use crate::geom::{GlyphRun, Rgba, ScreenRect, UvRect, Vertex};
use crate::ndc::{ndc_of, to_ndc};

verus! {

/// A lookup failure reported by the atlas, as an opaque code the caller
/// chooses; distinct from a glyph that is merely not resident.
#[derive(Clone, Copy, Debug, PartialEq, Eq, Structural)]
pub struct LookupError {
    pub code: u64,
}

/// What the atlas answered for one glyph of a run.
#[derive(Clone, Copy, Debug, PartialEq, Eq, Structural)]
pub enum AtlasEntry {
    /// The glyph has no backing texture region (evicted or not yet
    /// rasterized); it contributes no vertex and no error.
    Missing,
    /// The glyph is resident: its rectangle in atlas space and its box in
    /// screen pixel space.
    Hit { uv: UvRect, screen: ScreenRect },
}

/// The entry is a resident glyph.
pub open spec fn is_hit(e: Result<AtlasEntry, LookupError>) -> bool {
    e matches Ok(AtlasEntry::Hit { .. })
}

/// The vertex a hit with rectangles `uv` and `screen` becomes, on a screen
/// of `width` by `height` pixels, in a run of color `color` and depth `z`.
pub open spec fn vertex_for(
    uv: UvRect,
    screen: ScreenRect,
    width: int,
    height: int,
    color: Rgba,
    z: u32,
) -> Vertex {
    Vertex {
        tl_x: ndc_of(screen.min.x as int, width),
        tl_y: ndc_of(screen.min.y as int, height),
        br_x: ndc_of(screen.max.x as int, width),
        br_y: ndc_of(screen.max.y as int, height),
        tex_tl: uv.min,
        tex_br: uv.max,
        color: color,
        z: z,
    }
}

/// The vertex a hit entry becomes; meaningful only for hits.
pub open spec fn hit_vertex(
    e: Result<AtlasEntry, LookupError>,
    width: int,
    height: int,
    color: Rgba,
    z: u32,
) -> Vertex
    recommends
        is_hit(e),
{
    match e {
        Ok(AtlasEntry::Hit { uv, screen }) => vertex_for(uv, screen, width, height, color, z),
        _ => arbitrary(),
    }
}

/// The vertex sequence assembled from `entries` in order: one vertex per
/// hit, nothing for a missing glyph or an error entry.
pub open spec fn vertices_of(
    entries: Seq<Result<AtlasEntry, LookupError>>,
    width: int,
    height: int,
    color: Rgba,
    z: u32,
) -> Seq<Vertex>
    decreases entries.len(),
{
    if entries.len() == 0 {
        Seq::empty()
    } else {
        let init = vertices_of(entries.drop_last(), width, height, color, z);
        if is_hit(entries.last()) {
            init.push(hit_vertex(entries.last(), width, height, color, z))
        } else {
            init
        }
    }
}

/// No entry is a lookup failure.
pub open spec fn all_ok(entries: Seq<Result<AtlasEntry, LookupError>>) -> bool {
    forall|i: int| 0 <= i < entries.len() ==> entries[i] is Ok
}

/// The number of hits among the entries.
pub open spec fn hit_count(entries: Seq<Result<AtlasEntry, LookupError>>) -> nat
    decreases entries.len(),
{
    if entries.len() == 0 {
        0
    } else {
        hit_count(entries.drop_last()) + if is_hit(entries.last()) {
            1nat
        } else {
            0nat
        }
    }
}

/// The first lookup failure among the entries; meaningful only when not all
/// entries are `Ok`.
pub open spec fn first_error(entries: Seq<Result<AtlasEntry, LookupError>>) -> LookupError
    decreases entries.len(),
{
    if entries.len() == 0 {
        arbitrary()
    } else {
        match entries[0] {
            Err(e) => e,
            Ok(_) => first_error(entries.drop_first()),
        }
    }
}

/// An error entry preceded only by `Ok` entries is the first error.
pub proof fn lemma_first_error_at(entries: Seq<Result<AtlasEntry, LookupError>>, i: int, e: LookupError)
    requires
        0 <= i < entries.len(),
        forall|j: int| 0 <= j < i ==> entries[j] is Ok,
        entries[i] == Result::<AtlasEntry, LookupError>::Err(e),
    ensures
        !all_ok(entries),
        first_error(entries) == e,
    decreases i,
{
    if i == 0 {
    } else {
        let rest = entries.drop_first();
        assert(forall|j: int| 0 <= j < i - 1 ==> rest[j] is Ok);
        assert(rest[i - 1] == entries[i]);
        lemma_first_error_at(rest, i - 1, e);
    }
}

/// The assembly emits exactly one vertex per hit: the vertex sequence is as
/// long as the number of hits among the entries, which is at most the number
/// of entries.
pub proof fn lemma_vertex_count(
    entries: Seq<Result<AtlasEntry, LookupError>>,
    width: int,
    height: int,
    color: Rgba,
    z: u32,
)
    ensures
        vertices_of(entries, width, height, color, z).len() == hit_count(entries),
        hit_count(entries) <= entries.len(),
    decreases entries.len(),
{
    if entries.len() > 0 {
        lemma_vertex_count(entries.drop_last(), width, height, color, z);
    }
}

/// A run in which no glyph has atlas backing assembles to the empty vertex
/// sequence.
pub proof fn lemma_all_missing_empty(
    entries: Seq<Result<AtlasEntry, LookupError>>,
    width: int,
    height: int,
    color: Rgba,
    z: u32,
)
    requires
        forall|i: int|
            0 <= i < entries.len() ==> (#[trigger] entries[i]) matches Ok(AtlasEntry::Missing),
    ensures
        all_ok(entries),
        vertices_of(entries, width, height, color, z) =~= Seq::<Vertex>::empty(),
    decreases entries.len(),
{
    if entries.len() > 0 {
        let init = entries.drop_last();
        assert(forall|i: int|
            0 <= i < init.len() ==> (#[trigger] init[i]) matches Ok(AtlasEntry::Missing));
        lemma_all_missing_empty(init, width, height, color, z);
    }
}

/// Every assembled vertex carries the run's shared color and depth
/// unchanged, whatever its per-glyph rectangles are.
pub proof fn lemma_vertices_color_z(
    entries: Seq<Result<AtlasEntry, LookupError>>,
    width: int,
    height: int,
    color: Rgba,
    z: u32,
)
    ensures
        forall|j: int|
            0 <= j < vertices_of(entries, width, height, color, z).len() ==> {
                &&& (#[trigger] vertices_of(entries, width, height, color, z)[j]).color == color
                &&& vertices_of(entries, width, height, color, z)[j].z == z
            },
    decreases entries.len(),
{
    if entries.len() > 0 {
        let vs = vertices_of(entries, width, height, color, z);
        let init_vs = vertices_of(entries.drop_last(), width, height, color, z);
        lemma_vertices_color_z(entries.drop_last(), width, height, color, z);
        if is_hit(entries.last()) {
            let last_v = hit_vertex(entries.last(), width, height, color, z);
            match entries.last() {
                Ok(AtlasEntry::Hit { uv, screen }) => {
                    assert(last_v == vertex_for(uv, screen, width, height, color, z));
                },
                _ => {},
            }
            assert forall|j: int| 0 <= j < vs.len() implies {
                &&& (#[trigger] vs[j]).color == color
                &&& vs[j].z == z
            } by {
                if j < init_vs.len() {
                    assert(vs[j] == init_vs[j]);
                } else {
                    assert(vs[j] == last_v);
                }
            }
        }
    }
}

/// Vertex order is glyph order, stably under skips: the hit at entry `i`
/// becomes the vertex whose position equals the number of hits before `i`.
pub proof fn lemma_vertex_order(
    entries: Seq<Result<AtlasEntry, LookupError>>,
    width: int,
    height: int,
    color: Rgba,
    z: u32,
    i: int,
)
    requires
        0 <= i < entries.len(),
        is_hit(entries[i]),
    ensures
        hit_count(entries.take(i)) < vertices_of(entries, width, height, color, z).len(),
        vertices_of(entries, width, height, color, z)[hit_count(entries.take(i)) as int]
            == hit_vertex(entries[i], width, height, color, z),
    decreases entries.len(),
{
    let vs = vertices_of(entries, width, height, color, z);
    let init = entries.drop_last();
    lemma_vertex_count(entries, width, height, color, z);
    lemma_vertex_count(init, width, height, color, z);
    if i == entries.len() - 1 {
        assert(entries.take(i) =~= init);
        assert(vs == vertices_of(init, width, height, color, z).push(
            hit_vertex(entries.last(), width, height, color, z),
        ));
    } else {
        assert(init.take(i) =~= entries.take(i));
        assert(init[i] == entries[i]);
        lemma_vertex_order(init, width, height, color, z, i);
        let k = hit_count(entries.take(i)) as int;
        assert(vertices_of(init, width, height, color, z)[k] == hit_vertex(
            entries[i],
            width,
            height,
            color,
            z,
        ));
        lemma_hit_count_take_le(entries, i + 1, entries.len() - 1);
        assert(entries.take(entries.len() - 1) =~= init);
        assert(hit_count(entries.take(i + 1)) == hit_count(entries.take(i)) + 1) by {
            assert(entries.take(i + 1).drop_last() =~= entries.take(i));
            assert(entries.take(i + 1).last() == entries[i]);
        }
        assert(k < hit_count(init));
        if is_hit(entries.last()) {
            assert(vs[k] == vertices_of(init, width, height, color, z)[k]);
        }
    }
}

/// Counting hits over a longer prefix counts at least as many.
proof fn lemma_hit_count_take_le(entries: Seq<Result<AtlasEntry, LookupError>>, a: int, b: int)
    requires
        0 <= a <= b <= entries.len(),
    ensures
        hit_count(entries.take(a)) <= hit_count(entries.take(b)),
    decreases b - a,
{
    if a < b {
        lemma_hit_count_take_le(entries, a, b - 1);
        assert(entries.take(b).drop_last() =~= entries.take(b - 1));
        assert(hit_count(entries.take(b - 1)) <= hit_count(entries.take(b)));
    }
}

/// Assembles the vertex sequence of one draw from a run and its atlas
/// answers. `entries[i]` is the atlas's answer for `run.glyphs[i]`. Emits
/// the hits' vertices in run order, skips missing glyphs silently, and
/// returns the first lookup failure unchanged if there is one.
pub fn assemble_vertices(
    run: &GlyphRun,
    entries: &Vec<Result<AtlasEntry, LookupError>>,
    width: u32,
    height: u32,
) -> (r: Result<Vec<Vertex>, LookupError>)
    requires
        0 < width,
        0 < height,
        entries@.len() == run.glyphs@.len(),
    ensures
        all_ok(entries@) ==> (r matches Ok(v) && v@ == vertices_of(
            entries@,
            width as int,
            height as int,
            run.color,
            run.z,
        )),
        !all_ok(entries@) ==> (r matches Err(e) && e == first_error(entries@)),
{
    let ghost w = width as int;
    let ghost h = height as int;
    let mut verts: Vec<Vertex> = Vec::new();
    let mut i: usize = 0;
    while i < entries.len()
        invariant
            0 <= i <= entries@.len(),
            0 < width,
            0 < height,
            forall|j: int| 0 <= j < i ==> entries@[j] is Ok,
            verts@ == vertices_of(entries@.take(i as int), w, h, run.color, run.z),
            w == width as int,
            h == height as int,
        decreases entries@.len() - i,
    {
        let entry = entries[i];
        let ghost prefix = entries@.take(i as int);
        let ghost prefix1 = entries@.take(i as int + 1);
        proof {
            assert(prefix1.drop_last() =~= prefix);
            assert(prefix1.last() == entries@[i as int]);
        }
        match entry {
            Err(e) => {
                proof {
                    lemma_first_error_at(entries@, i as int, e);
                }
                return Err(e);
            },
            Ok(AtlasEntry::Missing) => {},
            Ok(AtlasEntry::Hit { uv, screen }) => {
                let v = Vertex {
                    tl_x: to_ndc(screen.min.x, width),
                    tl_y: to_ndc(screen.min.y, height),
                    br_x: to_ndc(screen.max.x, width),
                    br_y: to_ndc(screen.max.y, height),
                    tex_tl: uv.min,
                    tex_br: uv.max,
                    color: run.color,
                    z: run.z,
                };
                proof {
                    assert(v == vertex_for(uv, screen, w, h, run.color, run.z));
                }
                verts.push(v);
            },
        }
        i = i + 1;
    }
    proof {
        assert(entries@.take(entries@.len() as int) =~= entries@);
    }
    Ok(verts)
}

} // verus!
