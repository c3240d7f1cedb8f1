use glyph_draw::assemble::{assemble_vertices, AtlasEntry, LookupError};
use glyph_draw::geom::{FontId, Glyph, GlyphRun, Rgba, ScreenPoint, ScreenRect, UvPoint, UvRect};
use glyph_draw::ndc::to_ndc;
use glyph_draw::plan::{
    plan_via, prepare_draw, sampler_config, AtlasLookup, SamplerAddressMode, SamplerFilter,
    SamplerMipmapMode, Viewport,
};

fn run_of(n: u64) -> GlyphRun {
    GlyphRun {
        font: FontId { id: 3 },
        glyphs: (0..n).map(|id| Glyph { id }).collect(),
        color: Rgba { r: 0x3f800000, g: 0, b: 0, a: 0x3f800000 },
        z: 0x3f000000,
    }
}

fn uv_rect(k: u32) -> UvRect {
    UvRect {
        min: UvPoint { x: k, y: k + 1 },
        max: UvPoint { x: k + 2, y: k + 3 },
    }
}

fn screen_rect(x0: i32, y0: i32, x1: i32, y1: i32) -> ScreenRect {
    ScreenRect {
        min: ScreenPoint { x: x0, y: y0 },
        max: ScreenPoint { x: x1, y: y1 },
    }
}

fn hit(k: u32, rect: ScreenRect) -> Result<AtlasEntry, LookupError> {
    Ok(AtlasEntry::Hit { uv: uv_rect(k), screen: rect })
}

const IDENTITY: [[u32; 4]; 4] = [
    [0x3f800000, 0, 0, 0],
    [0, 0x3f800000, 0, 0],
    [0, 0, 0x3f800000, 0],
    [0, 0, 0, 0x3f800000],
];

#[test]
fn all_missing_gives_empty_draw() {
    let run = run_of(4);
    let entries = vec![Ok(AtlasEntry::Missing); 4];
    let verts = assemble_vertices(&run, &entries, 800, 600).unwrap();
    assert!(verts.is_empty());
    let plan = prepare_draw(&run, &entries, IDENTITY, 800, 600).unwrap();
    assert_eq!(plan.indirect.instance_count, 0);
    assert_eq!(plan.indirect.vertex_count, 4);
    assert!(plan.vertices.is_empty());
}

#[test]
fn empty_run_still_plans_a_noop_draw() {
    let run = run_of(0);
    let entries = Vec::new();
    let plan = prepare_draw(&run, &entries, IDENTITY, 640, 480).unwrap();
    assert_eq!(plan.indirect.instance_count, 0);
    assert_eq!(plan.indirect.vertex_count, 4);
    assert_eq!(plan.indirect.first_vertex, 0);
    assert_eq!(plan.indirect.first_instance, 0);
    assert_eq!(
        plan.viewport,
        Viewport { origin_x: 0, origin_y: 0, width: 640, height: 480 }
    );
}

#[test]
fn hits_become_exactly_that_many_instances() {
    let run = run_of(5);
    let entries = vec![
        hit(0, screen_rect(0, 0, 8, 8)),
        Ok(AtlasEntry::Missing),
        hit(10, screen_rect(8, 0, 16, 8)),
        Ok(AtlasEntry::Missing),
        hit(20, screen_rect(16, 0, 24, 8)),
    ];
    let verts = assemble_vertices(&run, &entries, 800, 600).unwrap();
    assert_eq!(verts.len(), 3);
    let plan = prepare_draw(&run, &entries, IDENTITY, 800, 600).unwrap();
    assert_eq!(plan.indirect.instance_count, 3);
    assert_eq!(plan.vertices.len(), 3);
}

#[test]
fn vertex_order_is_glyph_order_under_skips() {
    let run = run_of(4);
    let entries = vec![
        hit(0, screen_rect(0, 0, 8, 8)),
        Ok(AtlasEntry::Missing),
        hit(10, screen_rect(8, 0, 16, 8)),
        hit(20, screen_rect(16, 0, 24, 8)),
    ];
    let verts = assemble_vertices(&run, &entries, 800, 600).unwrap();
    assert_eq!(verts.len(), 3);
    assert_eq!(verts[0].tex_tl, uv_rect(0).min);
    assert_eq!(verts[0].tl_x, to_ndc(0, 800));
    assert_eq!(verts[1].tex_tl, uv_rect(10).min);
    assert_eq!(verts[1].tl_x, to_ndc(8, 800));
    assert_eq!(verts[2].tex_tl, uv_rect(20).min);
    assert_eq!(verts[2].tl_x, to_ndc(16, 800));
}

#[test]
fn color_and_z_copied_to_every_vertex() {
    let run = run_of(3);
    let entries = vec![
        hit(0, screen_rect(-4, -4, 0, 0)),
        hit(5, screen_rect(100, 3, 140, 19)),
        hit(9, screen_rect(7, 7, 7, 7)),
    ];
    let verts = assemble_vertices(&run, &entries, 320, 240).unwrap();
    assert_eq!(verts.len(), 3);
    for v in &verts {
        assert_eq!(v.color, run.color);
        assert_eq!(v.z, run.z);
    }
}

#[test]
fn screen_rect_round_trip() {
    let run = run_of(1);
    let entries = vec![hit(0, screen_rect(10, 20, 50, 80))];
    let verts = assemble_vertices(&run, &entries, 100, 100).unwrap();
    assert_eq!(verts.len(), 1);
    let v = &verts[0];
    assert_eq!(v.tl_x, to_ndc(10, 100));
    assert_eq!(v.tl_y, to_ndc(20, 100));
    assert_eq!(v.br_x, to_ndc(50, 100));
    assert_eq!(v.br_y, to_ndc(80, 100));
    assert_eq!(v.tl_x.num as f32 / v.tl_x.den as f32, -0.8);
    assert_eq!(v.tl_y.num as f32 / v.tl_y.den as f32, -0.6);
    assert_eq!(v.br_x.num as f32 / v.br_x.den as f32, 0.0);
    assert_eq!(v.br_y.num as f32 / v.br_y.den as f32, 0.6);
}

#[test]
fn uv_rect_copied_verbatim() {
    let run = run_of(1);
    let entries = vec![hit(77, screen_rect(0, 0, 1, 1))];
    let verts = assemble_vertices(&run, &entries, 100, 100).unwrap();
    assert_eq!(verts[0].tex_tl, UvPoint { x: 77, y: 78 });
    assert_eq!(verts[0].tex_br, UvPoint { x: 79, y: 80 });
}

#[test]
fn transform_and_viewport_copied() {
    let run = run_of(1);
    let entries = vec![Ok(AtlasEntry::Missing)];
    let t: [[u32; 4]; 4] = [[1, 2, 3, 4], [5, 6, 7, 8], [9, 10, 11, 12], [13, 14, 15, 16]];
    let plan = prepare_draw(&run, &entries, t, 1920, 1080).unwrap();
    assert_eq!(plan.transform, t);
    assert_eq!(
        plan.viewport,
        Viewport { origin_x: 0, origin_y: 0, width: 1920, height: 1080 }
    );
}

#[test]
fn lookup_error_aborts_the_draw() {
    let run = run_of(3);
    let entries = vec![
        hit(0, screen_rect(0, 0, 8, 8)),
        Err(LookupError { code: 42 }),
        hit(10, screen_rect(8, 0, 16, 8)),
    ];
    let r = prepare_draw(&run, &entries, IDENTITY, 800, 600);
    assert_eq!(r.unwrap_err(), LookupError { code: 42 });
}

#[test]
fn first_of_two_errors_wins() {
    let run = run_of(2);
    let entries = vec![Err(LookupError { code: 7 }), Err(LookupError { code: 9 })];
    let r = assemble_vertices(&run, &entries, 800, 600);
    assert_eq!(r.unwrap_err(), LookupError { code: 7 });
}

#[test]
fn two_draws_each_keep_their_own_count() {
    let run_a = run_of(3);
    let entries_a = vec![
        hit(0, screen_rect(0, 0, 8, 8)),
        hit(1, screen_rect(8, 0, 16, 8)),
        Ok(AtlasEntry::Missing),
    ];
    let run_b = run_of(2);
    let entries_b = vec![Ok(AtlasEntry::Missing), hit(2, screen_rect(0, 8, 8, 16))];
    let plan_a = prepare_draw(&run_a, &entries_a, IDENTITY, 800, 600).unwrap();
    let plan_b = prepare_draw(&run_b, &entries_b, IDENTITY, 800, 600).unwrap();
    assert_eq!(plan_a.indirect.instance_count, 2);
    assert_eq!(plan_b.indirect.instance_count, 1);
    assert_eq!(plan_a.vertices.len(), 2);
    assert_eq!(plan_b.vertices.len(), 1);
}

#[test]
fn sampler_policy_is_fixed() {
    let c = sampler_config();
    assert_eq!(c.mag_filter, SamplerFilter::Linear);
    assert_eq!(c.min_filter, SamplerFilter::Linear);
    assert_eq!(c.mipmap_mode, SamplerMipmapMode::Nearest);
    assert_eq!(c.address_u, SamplerAddressMode::ClampToEdge);
    assert_eq!(c.address_v, SamplerAddressMode::ClampToEdge);
    assert_eq!(c.address_w, SamplerAddressMode::ClampToEdge);
}

struct EvenGlyphAtlas;

impl AtlasLookup for EvenGlyphAtlas {
    fn rect_for(
        &self,
        _font: FontId,
        glyph: &Glyph,
    ) -> Result<Option<(UvRect, ScreenRect)>, LookupError> {
        if glyph.id % 2 == 0 {
            Ok(Some((uv_rect(glyph.id as u32), screen_rect(glyph.id as i32, 0, glyph.id as i32 + 8, 8))))
        } else {
            Ok(None)
        }
    }
}

struct FailingAtlas;

impl AtlasLookup for FailingAtlas {
    fn rect_for(
        &self,
        _font: FontId,
        glyph: &Glyph,
    ) -> Result<Option<(UvRect, ScreenRect)>, LookupError> {
        Err(LookupError { code: glyph.id })
    }
}

#[test]
fn plan_via_queries_in_run_order() {
    let run = run_of(5);
    let plan = plan_via(&EvenGlyphAtlas, &run, IDENTITY, 800, 600).unwrap();
    assert_eq!(plan.indirect.instance_count, 3);
    assert_eq!(plan.indirect.vertex_count, 4);
    assert_eq!(plan.vertices.len(), 3);
    assert_eq!(plan.vertices[0].tex_tl, uv_rect(0).min);
    assert_eq!(plan.vertices[1].tex_tl, uv_rect(2).min);
    assert_eq!(plan.vertices[2].tex_tl, uv_rect(4).min);
    for v in &plan.vertices {
        assert_eq!(v.color, run.color);
        assert_eq!(v.z, run.z);
    }
}

#[test]
fn plan_via_propagates_the_first_failure() {
    let run = run_of(3);
    let r = plan_via(&FailingAtlas, &run, IDENTITY, 800, 600);
    assert_eq!(r.unwrap_err(), LookupError { code: 0 });
}

#[test]
fn plan_via_on_an_empty_run_always_succeeds() {
    let run = run_of(0);
    let plan = plan_via(&FailingAtlas, &run, IDENTITY, 640, 480).unwrap();
    assert_eq!(plan.indirect.instance_count, 0);
    assert_eq!(plan.indirect.vertex_count, 4);
    assert!(plan.vertices.is_empty());
    assert_eq!(plan.transform, IDENTITY);
    assert_eq!(
        plan.viewport,
        Viewport { origin_x: 0, origin_y: 0, width: 640, height: 480 }
    );
}

struct RecordingAtlas {
    queried: std::cell::RefCell<Vec<u64>>,
    fail_at: u64,
}

impl AtlasLookup for RecordingAtlas {
    fn rect_for(
        &self,
        _font: FontId,
        glyph: &Glyph,
    ) -> Result<Option<(UvRect, ScreenRect)>, LookupError> {
        self.queried.borrow_mut().push(glyph.id);
        if glyph.id == self.fail_at {
            Err(LookupError { code: glyph.id })
        } else {
            Ok(None)
        }
    }
}

#[test]
fn plan_via_stops_querying_at_the_first_failure() {
    let run = run_of(5);
    let atlas = RecordingAtlas { queried: std::cell::RefCell::new(Vec::new()), fail_at: 1 };
    let r = plan_via(&atlas, &run, IDENTITY, 800, 600);
    assert_eq!(r.unwrap_err(), LookupError { code: 1 });
    assert_eq!(*atlas.queried.borrow(), vec![0, 1]);
}
