use scene_composer::geometry::{Affine, PathEl, Point, ONE};
use scene_composer::glyph::{make_fragment, Font, Fragment, GlyphCache};
use scene_composer::scene::{Brush, Color, DrawCommand, FragmentKey, SceneBuilder};
use scene_composer::text::{
    font_index, render_line, render_run, render_text, Glyph, GlyphRun, Layout, Line, ParleyBrush,
};

fn fx(n: i32) -> i32 {
    n * 65536
}

fn white() -> Brush {
    Brush::Solid(Color::rgb8(255, 255, 255))
}

fn yellow() -> Brush {
    Brush::Solid(Color::rgb8(255, 255, 0))
}

/// A triangle, in design units.
fn outline(size: i32) -> Vec<PathEl> {
    vec![
        PathEl::MoveTo(Point::new(0, 0)),
        PathEl::LineTo(Point::new(fx(size), 0)),
        PathEl::LineTo(Point::new(fx(size), fx(2 * size))),
        PathEl::ClosePath,
    ]
}

/// A font of 2048 units per em in which glyph 0 and glyph 3 have no
/// outline and glyphs 1, 2, 4 and 5 have one.
fn font(id: u64) -> Font {
    Font {
        id,
        units_per_em: 2048,
        outlines: vec![
            None,
            Some(outline(1024)),
            Some(outline(2048)),
            None,
            Some(outline(512)),
            Some(outline(256)),
        ],
    }
}

fn glyph(id: u16, x: i32, y: i32, advance: i32) -> Glyph {
    Glyph { id, x: fx(x), y: fx(y), advance: fx(advance) }
}

fn run(font: usize, size: i32, offset: i32, baseline: i32, brush: Brush, glyphs: Vec<Glyph>) -> GlyphRun {
    GlyphRun {
        font,
        font_size: fx(size),
        offset: fx(offset),
        baseline: fx(baseline),
        brush: ParleyBrush(brush),
        glyphs,
    }
}

fn placed(outer: Affine, x: i32, y: i32) -> Affine {
    outer.compose(Affine::translate(fx(x), fx(y))).compose(Affine::flip_y())
}

fn key(font: u64, size: i32, glyph: u16, brush: Brush) -> FragmentKey {
    FragmentKey { font, size: fx(size), glyph, brush }
}

#[test]
fn default_text_brush_is_black() {
    assert_eq!(ParleyBrush::default(), ParleyBrush(Brush::Solid(Color { r: 0, g: 0, b: 0, a: 255 })));
}

#[test]
fn text_brushes_compare_by_content() {
    assert_eq!(ParleyBrush(white()), ParleyBrush(white()));
    assert_ne!(ParleyBrush(white()), ParleyBrush(yellow()));
}

#[test]
fn font_outline_lookup() {
    let f = font(1);
    assert_eq!(f.outline(1), Some(&outline(1024)));
    assert_eq!(f.outline(0), None);
    assert_eq!(f.outline(3), None);
    assert_eq!(f.outline(6), None);
    assert_eq!(f.outline(u16::MAX), None);
    let unitless = Font { id: 2, units_per_em: 0, outlines: vec![Some(outline(1))] };
    assert_eq!(unitless.outline(0), None);
}

#[test]
fn font_scale_is_size_over_units() {
    let f = font(1);
    assert_eq!(f.scale(fx(34)), 1088);
    assert_eq!(f.scale(fx(48)), 1536);
    assert_eq!(f.scale(fx(2048)), ONE);
    assert_eq!(f.scale(2047), 0);
    assert_eq!(f.scale(0), 0);
    assert_eq!(f.scale(fx(-34)), 0);
    let unitless = Font { id: 2, units_per_em: 0, outlines: vec![] };
    assert_eq!(unitless.scale(fx(34)), 0);
}

#[test]
fn fragment_is_the_scaled_outline() {
    // 34 / 2048 of 1024 units is 17, of 2048 units 34.
    let f = make_fragment(&outline(1024), 1088, yellow());
    assert_eq!(
        f,
        Fragment {
            brush: yellow(),
            path: vec![
                PathEl::MoveTo(Point::new(0, 0)),
                PathEl::LineTo(Point::new(fx(17), 0)),
                PathEl::LineTo(Point::new(fx(17), fx(34))),
                PathEl::ClosePath,
            ],
        }
    );
    assert_eq!(make_fragment(&vec![], 1088, white()), Fragment { brush: white(), path: vec![] });
}

#[test]
fn cache_makes_a_fragment_once() {
    let f = font(7);
    let mut cache = GlyphCache::new();
    assert_eq!(cache.len(), 0);
    let k = key(7, 34, 1, white());
    assert!(!cache.contains(&k));
    assert_eq!(cache.fragment(&k), None);

    assert_eq!(cache.get_fragment(&f, fx(34), 1, white()), Some(k));
    assert_eq!(cache.len(), 1);
    assert!(cache.contains(&k));
    assert_eq!(cache.fragment(&k), Some(&make_fragment(&outline(1024), 1088, white())));

    // The same glyph again: the same key, and no second fragment.
    assert_eq!(cache.get_fragment(&f, fx(34), 1, white()), Some(k));
    assert_eq!(cache.len(), 1);
}

#[test]
fn cache_keys_tell_size_brush_glyph_and_font_apart() {
    let f = font(7);
    let g = font(8);
    let mut cache = GlyphCache::new();
    assert_eq!(cache.get_fragment(&f, fx(34), 1, white()), Some(key(7, 34, 1, white())));
    assert_eq!(cache.get_fragment(&f, fx(48), 1, white()), Some(key(7, 48, 1, white())));
    assert_eq!(cache.get_fragment(&f, fx(34), 1, yellow()), Some(key(7, 34, 1, yellow())));
    assert_eq!(cache.get_fragment(&f, fx(34), 2, white()), Some(key(7, 34, 2, white())));
    assert_eq!(cache.get_fragment(&g, fx(34), 1, white()), Some(key(8, 34, 1, white())));
    assert_eq!(cache.len(), 5);
    assert_eq!(
        cache.fragment(&key(7, 48, 1, white())),
        Some(&make_fragment(&outline(1024), 1536, white()))
    );
    assert_eq!(
        cache.fragment(&key(7, 34, 1, yellow())),
        Some(&make_fragment(&outline(1024), 1088, yellow()))
    );
}

#[test]
fn cache_has_no_fragment_for_a_missing_outline() {
    let f = font(7);
    let mut cache = GlyphCache::new();
    assert_eq!(cache.get_fragment(&f, fx(34), 0, white()), None);
    assert_eq!(cache.get_fragment(&f, fx(34), 3, white()), None);
    assert_eq!(cache.get_fragment(&f, fx(34), 99, white()), None);
    assert_eq!(cache.len(), 0);
    assert!(!cache.contains(&key(7, 34, 0, white())));
}

#[test]
fn cache_entries_are_never_changed() {
    let f = font(7);
    let mut cache = GlyphCache::new();
    let k = cache.get_fragment(&f, fx(34), 1, white()).unwrap();
    let first = cache.fragment(&k).unwrap().clone();
    // A font that claims the same id does not replace what is kept.
    let other = Font { id: 7, units_per_em: 1000, outlines: vec![None, Some(outline(3))] };
    assert_eq!(cache.get_fragment(&other, fx(34), 1, white()), Some(k));
    assert_eq!(cache.get_fragment(&f, fx(34), 2, white()), Some(key(7, 34, 2, white())));
    assert_eq!(cache.fragment(&k), Some(&first));
    assert_eq!(cache.len(), 2);
}

#[test]
fn glyph_placement() {
    // A run that starts at (7, 20). Its first glyph has no outline and an
    // advance of 5, so the second stands at the pen position 12. That one
    // has advance 10 and offset (2, 3); the third shows where the pen went.
    let outer = Affine::translate(fx(100), fx(400));
    let f = font(1);
    let r = run(0, 34, 7, 20, white(), vec![glyph(0, 1, 1, 5), glyph(1, 2, 3, 10), glyph(2, 0, 0, 4)]);
    let mut b = SceneBuilder::new();
    let mut cache = GlyphCache::new();
    render_run(&mut b, &mut cache, &f, outer, &r);
    let scene = b.finish().unwrap();
    assert_eq!(
        scene.commands(),
        &vec![
            DrawCommand::AppendFragment {
                fragment: key(1, 34, 1, white()),
                transform: placed(outer, 12 + 2, 20 - 3),
            },
            DrawCommand::AppendFragment {
                fragment: key(1, 34, 2, white()),
                transform: placed(outer, 12 + 10, 20),
            },
        ]
    );
    assert_eq!(
        placed(outer, 14, 17),
        Affine { a: ONE, b: 0, c: 0, d: -ONE, e: fx(114), f: fx(417) }
    );
}

#[test]
fn pen_moves_on_whether_or_not_a_glyph_is_drawn() {
    let outer = Affine::identity();
    let drawn = run(0, 34, 0, 0, white(), vec![glyph(1, 0, 0, 10), glyph(2, 0, 0, 10)]);
    let missing = run(0, 34, 0, 0, white(), vec![glyph(3, 0, 0, 10), glyph(2, 0, 0, 10)]);
    let f = font(1);

    let mut b1 = SceneBuilder::new();
    let mut c1 = GlyphCache::new();
    render_run(&mut b1, &mut c1, &f, outer, &drawn);
    let s1 = b1.finish().unwrap();

    let mut b2 = SceneBuilder::new();
    let mut c2 = GlyphCache::new();
    render_run(&mut b2, &mut c2, &f, outer, &missing);
    let s2 = b2.finish().unwrap();

    assert_eq!(s1.len(), 2);
    assert_eq!(s2.len(), 1);
    assert_eq!(s1.commands()[1], s2.commands()[0]);
    assert_eq!(
        s2.commands()[0],
        DrawCommand::AppendFragment { fragment: key(1, 34, 2, white()), transform: placed(outer, 10, 0) }
    );
}

#[test]
fn pen_saturates_at_the_end_of_the_range() {
    let f = font(1);
    let r = GlyphRun {
        font: 0,
        font_size: fx(34),
        offset: i32::MAX - 5,
        baseline: i32::MIN + 1,
        brush: ParleyBrush(white()),
        glyphs: vec![
            Glyph { id: 1, x: 0, y: 0, advance: 10 },
            Glyph { id: 1, x: 3, y: 7, advance: 10 },
        ],
    };
    let mut b = SceneBuilder::new();
    let mut cache = GlyphCache::new();
    render_run(&mut b, &mut cache, &f, Affine::identity(), &r);
    let scene = b.finish().unwrap();
    assert_eq!(
        scene.commands()[1],
        DrawCommand::AppendFragment {
            fragment: key(1, 34, 1, white()),
            transform: Affine { a: ONE, b: 0, c: 0, d: -ONE, e: i32::MAX, f: i32::MIN },
        }
    );
}

#[test]
fn runs_and_lines_keep_their_order() {
    let outer = Affine::translate(fx(100), fx(400));
    let layout = Layout {
        fonts: vec![font(1), font(2)],
        lines: vec![
            Line {
                runs: vec![
                    run(0, 34, 0, 30, white(), vec![glyph(1, 0, 0, 10), glyph(0, 0, 0, 5)]),
                    run(1, 48, 15, 30, yellow(), vec![glyph(4, 0, 0, 20)]),
                ],
            },
            Line { runs: vec![] },
            Line { runs: vec![run(0, 34, 0, 70, white(), vec![glyph(5, 1, -1, 10)])] },
        ],
    };
    let mut b = SceneBuilder::new();
    let mut cache = GlyphCache::new();
    render_text(&mut b, &mut cache, outer, &layout);
    assert_eq!(b.layer_depth(), 0);
    let scene = b.finish().unwrap();
    assert_eq!(
        scene.commands(),
        &vec![
            DrawCommand::AppendFragment { fragment: key(1, 34, 1, white()), transform: placed(outer, 0, 30) },
            DrawCommand::AppendFragment { fragment: key(2, 48, 4, yellow()), transform: placed(outer, 15, 30) },
            DrawCommand::AppendFragment { fragment: key(1, 34, 5, white()), transform: placed(outer, 1, 71) },
        ]
    );
    // Every fragment of the scene is in the cache.
    assert_eq!(cache.len(), 3);
    for c in scene.commands() {
        match c {
            DrawCommand::AppendFragment { fragment, .. } => assert!(cache.contains(fragment)),
            _ => panic!("text draws fragments only"),
        }
    }
}

#[test]
fn render_text_appends_after_what_is_there() {
    let layout = Layout {
        fonts: vec![font(1)],
        lines: vec![Line { runs: vec![run(0, 34, 0, 0, white(), vec![glyph(1, 0, 0, 10)])] }],
    };
    let mut b = SceneBuilder::new();
    let mut cache = GlyphCache::new();
    render_text(&mut b, &mut cache, Affine::identity(), &layout);
    render_text(&mut b, &mut cache, Affine::translate(fx(5), 0), &layout);
    assert_eq!(b.len(), 2);
    assert_eq!(cache.len(), 1);
    let scene = b.finish().unwrap();
    assert_eq!(
        scene.commands()[1],
        DrawCommand::AppendFragment {
            fragment: key(1, 34, 1, white()),
            transform: placed(Affine::translate(fx(5), 0), 0, 0),
        }
    );
}

#[test]
fn run_with_a_missing_font_draws_nothing() {
    let layout = Layout {
        fonts: vec![font(1)],
        lines: vec![Line {
            runs: vec![
                run(1, 34, 0, 0, white(), vec![glyph(1, 0, 0, 10)]),
                run(0, 34, 10, 0, white(), vec![glyph(2, 0, 0, 10)]),
            ],
        }],
    };
    let mut b = SceneBuilder::new();
    let mut cache = GlyphCache::new();
    render_line(&mut b, &mut cache, &layout.fonts, Affine::identity(), &layout.lines[0]);
    let scene = b.finish().unwrap();
    assert_eq!(
        scene.commands(),
        &vec![DrawCommand::AppendFragment {
            fragment: key(1, 34, 2, white()),
            transform: placed(Affine::identity(), 10, 0),
        }]
    );
}

#[test]
fn empty_layout_draws_nothing() {
    let mut b = SceneBuilder::new();
    let mut cache = GlyphCache::new();
    render_text(&mut b, &mut cache, Affine::identity(), &Layout { fonts: vec![], lines: vec![] });
    assert_eq!(b.len(), 0);
    assert_eq!(cache.len(), 0);
}

#[test]
fn new_font_has_no_outlines() {
    let f = Font::new(5, 1000);
    assert_eq!(f, Font { id: 5, units_per_em: 1000, outlines: vec![] });
    assert_eq!(f.outline(0), None);
}

#[test]
fn set_outline_grows_the_table() {
    let mut f = Font::new(5, 1000);
    f.set_outline(2, Some(outline(7)));
    assert_eq!(f.outlines, vec![None, None, Some(outline(7))]);
    f.set_outline(0, Some(outline(3)));
    assert_eq!(f.outlines, vec![Some(outline(3)), None, Some(outline(7))]);
    f.set_outline(2, None);
    assert_eq!(f.outlines, vec![Some(outline(3)), None, None]);
    f.set_outline(3, None);
    assert_eq!(f.outlines, vec![Some(outline(3)), None, None, None]);
    assert_eq!((f.id, f.units_per_em), (5, 1000));
    assert_eq!(f.outline(0), Some(&outline(3)));
}

#[test]
fn font_index_finds_or_adds() {
    let mut fonts = vec![font(10), font(20)];
    assert_eq!(font_index(&mut fonts, 20, 1), 1);
    assert_eq!(font_index(&mut fonts, 10, 1), 0);
    assert_eq!(fonts, vec![font(10), font(20)]);
    assert_eq!(font_index(&mut fonts, 30, 1000), 2);
    assert_eq!(fonts, vec![font(10), font(20), Font::new(30, 1000)]);
    assert_eq!(font_index(&mut fonts, 30, 2048), 2);
    assert_eq!(fonts.len(), 3);
    let mut none: Vec<Font> = vec![];
    assert_eq!(font_index(&mut none, 1, 2), 0);
    assert_eq!(none, vec![Font::new(1, 2)]);
}
