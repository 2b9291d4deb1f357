//! Shaped text: the glyph runs of a layout, and their placement in a scene
//! as glyph fragments.

use crate::geometry::{fx_add, fx_sub, lemma_placement_associates, sat_add, sat_sub, Affine};
use crate::glyph::{cache_with, fragment_key, Font, FontView, FragmentView, GlyphCache};
use crate::scene::{Brush, Color, Command, FragmentKey, SceneBuilder};
use vstd::map_lib::lemma_submap_of_trans;
use vstd::prelude::*;

verus! {

/// The brush of a span of text. Two of them are equal where their brushes
/// are.
#[derive(Clone, Copy, Debug, PartialEq, Eq, Structural)]
pub struct ParleyBrush(pub Brush);

impl Default for ParleyBrush {
    /// Opaque black.
    fn default() -> (b: ParleyBrush)
        ensures
            b == ParleyBrush(Brush::Solid(Color { r: 0, g: 0, b: 0, a: 255 })),
    {
        ParleyBrush(Brush::Solid(Color::rgb8(0, 0, 0)))
    }
}

/// One shaped glyph: its id in the font, its offset from the pen, and how
/// far the pen moves after it.
#[derive(Clone, Copy, Debug, PartialEq, Eq, Structural)]
pub struct Glyph {
    pub id: u16,
    pub x: i32,
    pub y: i32,
    pub advance: i32,
}

/// Glyphs of one font, size and brush that follow each other on a line.
/// `font` is the place of the font in the layout's list of fonts, `offset`
/// where the pen starts, `baseline` the height of the line.
#[derive(Clone, Debug, PartialEq, Eq)]
pub struct GlyphRun {
    pub font: usize,
    pub font_size: i32,
    pub offset: i32,
    pub baseline: i32,
    pub brush: ParleyBrush,
    pub glyphs: Vec<Glyph>,
}

/// The runs of one line, from left to right.
#[derive(Clone, Debug, PartialEq, Eq)]
pub struct Line {
    pub runs: Vec<GlyphRun>,
}

/// Shaped text: its fonts, and its lines from top to bottom.
#[derive(Clone, Debug, PartialEq, Eq)]
pub struct Layout {
    pub fonts: Vec<Font>,
    pub lines: Vec<Line>,
}

/// What a run holds, with its glyphs as a sequence.
pub struct GlyphRunView {
    pub font: usize,
    pub font_size: i32,
    pub offset: i32,
    pub baseline: i32,
    pub brush: ParleyBrush,
    pub glyphs: Seq<Glyph>,
}

impl View for GlyphRun {
    type V = GlyphRunView;

    open spec fn view(&self) -> GlyphRunView {
        GlyphRunView {
            font: self.font,
            font_size: self.font_size,
            offset: self.offset,
            baseline: self.baseline,
            brush: self.brush,
            glyphs: self.glyphs@,
        }
    }
}

/// What a line holds.
pub struct LineView {
    pub runs: Seq<GlyphRunView>,
}

impl View for Line {
    type V = LineView;

    open spec fn view(&self) -> LineView {
        LineView { runs: self.runs@.map_values(|r: GlyphRun| r@) }
    }
}

/// What a list of fonts holds.
pub open spec fn fonts_view(fonts: Seq<Font>) -> Seq<FontView> {
    fonts.map_values(|f: Font| f@)
}

/// What a layout holds.
pub struct LayoutView {
    pub fonts: Seq<FontView>,
    pub lines: Seq<LineView>,
}

impl View for Layout {
    type V = LayoutView;

    open spec fn view(&self) -> LayoutView {
        LayoutView {
            fonts: fonts_view(self.fonts@),
            lines: self.lines@.map_values(|l: Line| l@),
        }
    }
}

/// The place of the font with the identity `id` in `fonts`. Where the list
/// has none, a font without outlines is added at its end.
pub fn font_index(fonts: &mut Vec<Font>, id: u64, units_per_em: u16) -> (at: usize)
    ensures
        at < final(fonts)@.len(),
        fonts_view(final(fonts)@)[at as int].id == id,
        forall|j: int| 0 <= j < at ==> fonts_view(old(fonts)@)[j].id != id,
        at < old(fonts)@.len() ==> fonts_view(final(fonts)@) == fonts_view(old(fonts)@),
        at >= old(fonts)@.len() ==> at == old(fonts)@.len() && fonts_view(final(fonts)@)
            == fonts_view(old(fonts)@).push(
            FontView { id, units_per_em, outlines: Seq::empty() },
        ),
{
    let mut i: usize = 0;
    while i < fonts.len()
        invariant
            0 <= i <= fonts@.len(),
            fonts@ == old(fonts)@,
            forall|j: int| 0 <= j < i ==> fonts_view(fonts@)[j].id != id,
        decreases fonts.len() - i,
    {
        if fonts[i].id == id {
            return i;
        }
        i = i + 1;
    }
    let font = Font::new(id, units_per_em);
    assert(fonts_view(fonts@.push(font)) =~= fonts_view(fonts@).push(font@));
    fonts.push(font);
    i
}

/// Where the pen stands before glyph `k` of a run that starts at `offset`:
/// the offset moved by the advance of each glyph before `k`, whether or
/// not that glyph had a fragment.
pub open spec fn cursor_at(offset: i32, glyphs: Seq<Glyph>, k: int) -> i32
    decreases k,
{
    if k <= 0 {
        offset
    } else {
        fx_add(cursor_at(offset, glyphs, k - 1) as int, glyphs[k - 1].advance as int) as i32
    }
}

/// The transform under which a glyph is drawn, with the pen at `cursor` on
/// the line at `baseline`: `outer · translate(cursor + x, baseline − y) ·
/// flip_y`. The outline of a glyph has its y axis pointing up, that of a
/// scene pointing down.
pub open spec fn glyph_transform(outer: Affine, cursor: i32, baseline: i32, glyph: Glyph) -> Affine {
    outer.compose_spec(
        Affine::translate_spec(
            fx_add(cursor as int, glyph.x as int) as i32,
            fx_sub(baseline as int, glyph.y as int) as i32,
        ).compose_spec(Affine::flip_y_spec()),
    )
}

/// The commands for the first `n` glyphs of a run: one fragment for each
/// glyph that has an outline in `font`, in the order of the glyphs.
pub open spec fn run_commands(font: FontView, run: GlyphRunView, outer: Affine, n: int) -> Seq<
    Command,
>
    decreases n,
{
    if n <= 0 {
        Seq::empty()
    } else {
        let before = run_commands(font, run, outer, n - 1);
        let glyph = run.glyphs[n - 1];
        if font.outline(glyph.id) is Some {
            before.push(
                Command::AppendFragment {
                    fragment: fragment_key(font, run.font_size, glyph.id, run.brush.0),
                    transform: glyph_transform(
                        outer,
                        cursor_at(run.offset, run.glyphs, n - 1),
                        run.baseline,
                        glyph,
                    ),
                },
            )
        } else {
            before
        }
    }
}

/// What a cache holds after the first `n` glyphs of a run.
pub open spec fn run_cache(
    entries: Map<FragmentKey, FragmentView>,
    font: FontView,
    run: GlyphRunView,
    n: int,
) -> Map<FragmentKey, FragmentView>
    decreases n,
{
    if n <= 0 {
        entries
    } else {
        cache_with(
            run_cache(entries, font, run, n - 1),
            font,
            run.font_size,
            run.glyphs[n - 1].id,
            run.brush.0,
        )
    }
}

/// The font of a run, if the list has one at that place.
pub open spec fn run_font(fonts: Seq<FontView>, run: GlyphRunView) -> Option<FontView> {
    if run.font < fonts.len() {
        Some(fonts[run.font as int])
    } else {
        None
    }
}

/// The commands for a whole run. A run whose font is missing draws nothing.
pub open spec fn whole_run_commands(fonts: Seq<FontView>, run: GlyphRunView, outer: Affine) -> Seq<
    Command,
> {
    match run_font(fonts, run) {
        Some(font) => run_commands(font, run, outer, run.glyphs.len() as int),
        None => Seq::empty(),
    }
}

/// What a cache holds after a whole run.
pub open spec fn whole_run_cache(
    entries: Map<FragmentKey, FragmentView>,
    fonts: Seq<FontView>,
    run: GlyphRunView,
) -> Map<FragmentKey, FragmentView> {
    match run_font(fonts, run) {
        Some(font) => run_cache(entries, font, run, run.glyphs.len() as int),
        None => entries,
    }
}

/// The commands for the first `n` runs of a line, run after run.
pub open spec fn line_commands(fonts: Seq<FontView>, line: LineView, outer: Affine, n: int) -> Seq<
    Command,
>
    decreases n,
{
    if n <= 0 {
        Seq::empty()
    } else {
        line_commands(fonts, line, outer, n - 1) + whole_run_commands(
            fonts,
            line.runs[n - 1],
            outer,
        )
    }
}

/// What a cache holds after the first `n` runs of a line.
pub open spec fn line_cache(
    entries: Map<FragmentKey, FragmentView>,
    fonts: Seq<FontView>,
    line: LineView,
    n: int,
) -> Map<FragmentKey, FragmentView>
    decreases n,
{
    if n <= 0 {
        entries
    } else {
        whole_run_cache(line_cache(entries, fonts, line, n - 1), fonts, line.runs[n - 1])
    }
}

/// The commands for the first `n` lines of a layout, line after line.
pub open spec fn layout_commands(layout: LayoutView, outer: Affine, n: int) -> Seq<Command>
    decreases n,
{
    if n <= 0 {
        Seq::empty()
    } else {
        let line = layout.lines[n - 1];
        layout_commands(layout, outer, n - 1) + line_commands(
            layout.fonts,
            line,
            outer,
            line.runs.len() as int,
        )
    }
}

/// What a cache holds after the first `n` lines of a layout.
pub open spec fn layout_cache(
    entries: Map<FragmentKey, FragmentView>,
    layout: LayoutView,
    n: int,
) -> Map<FragmentKey, FragmentView>
    decreases n,
{
    if n <= 0 {
        entries
    } else {
        let line = layout.lines[n - 1];
        line_cache(
            layout_cache(entries, layout, n - 1),
            layout.fonts,
            line,
            line.runs.len() as int,
        )
    }
}

/// The commands that draw a layout under `outer`.
pub open spec fn text_commands(layout: LayoutView, outer: Affine) -> Seq<Command> {
    layout_commands(layout, outer, layout.lines.len() as int)
}

/// What a cache holds after a layout was drawn.
pub open spec fn text_cache(entries: Map<FragmentKey, FragmentView>, layout: LayoutView) -> Map<
    FragmentKey,
    FragmentView,
> {
    layout_cache(entries, layout, layout.lines.len() as int)
}

/// From command `from` on, each command appends a fragment that `entries`
/// holds.
pub open spec fn fragments_present(
    commands: Seq<Command>,
    from: int,
    entries: Map<FragmentKey, FragmentView>,
) -> bool {
    forall|j: int|
        from <= j < commands.len() ==> (#[trigger] commands[j] matches Command::AppendFragment {
            fragment,
            ..
        } && entries.contains_key(fragment))
}

/// Draws one run with the fragments of `font`.
pub fn render_run(
    builder: &mut SceneBuilder,
    cache: &mut GlyphCache,
    font: &Font,
    outer: Affine,
    run: &GlyphRun,
)
    requires
        old(builder).wf(),
        old(cache).wf(),
    ensures
        final(builder).wf(),
        final(cache).wf(),
        final(builder)@ == old(builder)@ + run_commands(font@, run@, outer, run.glyphs@.len() as int),
        final(builder).depth() == old(builder).depth(),
        final(cache)@ == run_cache(old(cache)@, font@, run@, run.glyphs@.len() as int),
        old(cache)@.submap_of(final(cache)@),
        fragments_present(final(builder)@, old(builder)@.len() as int, final(cache)@),
{
    let ghost start = builder@;
    let ghost held = cache@;
    let mut x: i32 = run.offset;
    let mut i: usize = 0;
    assert(builder@ =~= start + run_commands(font@, run@, outer, 0));
    while i < run.glyphs.len()
        invariant
            0 <= i <= run.glyphs@.len(),
            builder.wf(),
            cache.wf(),
            x == cursor_at(run.offset, run.glyphs@, i as int),
            builder@ == start + run_commands(font@, run@, outer, i as int),
            builder.depth() == old(builder).depth(),
            cache@ == run_cache(held, font@, run@, i as int),
            held.submap_of(cache@),
            fragments_present(builder@, start.len() as int, cache@),
        decreases run.glyphs.len() - i,
    {
        let glyph = run.glyphs[i];
        let ghost drawn = builder@;
        let ghost kept = cache@;
        match cache.get_fragment(font, run.font_size, glyph.id, run.brush.0) {
            Some(key) => {
                let gx: i32 = sat_add(x, glyph.x);
                let gy: i32 = sat_sub(run.baseline, glyph.y);
                let placed = Affine::translate(gx, gy).compose(Affine::flip_y());
                builder.append_fragment(key, outer.compose(placed));
                assert(builder@ =~= start + run_commands(font@, run@, outer, i + 1));
            },
            None => {},
        }
        proof {
            lemma_submap_of_trans(held, kept, cache@);
            assert forall|j: int| start.len() <= j < builder@.len() implies (
            #[trigger] builder@[j] matches Command::AppendFragment { fragment, .. }
                && cache@.contains_key(fragment)) by {
                if j < drawn.len() {
                    assert(builder@[j] == drawn[j]);
                    assert(kept.dom().contains(drawn[j]->fragment));
                }
            }
        }
        x = sat_add(x, glyph.advance);
        i = i + 1;
    }
}

/// Draws the runs of one line.
pub fn render_line(
    builder: &mut SceneBuilder,
    cache: &mut GlyphCache,
    fonts: &Vec<Font>,
    outer: Affine,
    line: &Line,
)
    requires
        old(builder).wf(),
        old(cache).wf(),
    ensures
        final(builder).wf(),
        final(cache).wf(),
        final(builder)@ == old(builder)@ + line_commands(
            fonts_view(fonts@),
            line@,
            outer,
            line.runs@.len() as int,
        ),
        final(builder).depth() == old(builder).depth(),
        final(cache)@ == line_cache(old(cache)@, fonts_view(fonts@), line@, line.runs@.len() as int),
        old(cache)@.submap_of(final(cache)@),
        fragments_present(final(builder)@, old(builder)@.len() as int, final(cache)@),
{
    let ghost start = builder@;
    let ghost held = cache@;
    let mut i: usize = 0;
    assert(builder@ =~= start + line_commands(fonts_view(fonts@), line@, outer, 0));
    while i < line.runs.len()
        invariant
            0 <= i <= line.runs@.len(),
            builder.wf(),
            cache.wf(),
            builder@ == start + line_commands(fonts_view(fonts@), line@, outer, i as int),
            builder.depth() == old(builder).depth(),
            cache@ == line_cache(held, fonts_view(fonts@), line@, i as int),
            held.submap_of(cache@),
            fragments_present(builder@, start.len() as int, cache@),
        decreases line.runs.len() - i,
    {
        let run = &line.runs[i];
        let ghost drawn = builder@;
        let ghost kept = cache@;
        if run.font < fonts.len() {
            render_run(builder, cache, &fonts[run.font], outer, run);
        }
        proof {
            assert(builder@ =~= start + line_commands(fonts_view(fonts@), line@, outer, i + 1));
            lemma_submap_of_trans(held, kept, cache@);
            assert forall|j: int| start.len() <= j < builder@.len() implies (
            #[trigger] builder@[j] matches Command::AppendFragment { fragment, .. }
                && cache@.contains_key(fragment)) by {
                if j < drawn.len() {
                    assert(builder@[j] == drawn[j]);
                    assert(kept.dom().contains(drawn[j]->fragment));
                }
            }
        }
        i = i + 1;
    }
}

/// Draws a layout under `transform`: line after line and run after run,
/// one fragment for each glyph that has an outline. A glyph without one is
/// passed over, and the pen moves on by its advance all the same. The
/// fragments come from `cache`, which makes and keeps those that it lacks.
pub fn render_text(
    builder: &mut SceneBuilder,
    cache: &mut GlyphCache,
    transform: Affine,
    layout: &Layout,
)
    requires
        old(builder).wf(),
        old(cache).wf(),
    ensures
        final(builder).wf(),
        final(cache).wf(),
        final(builder)@ == old(builder)@ + text_commands(layout@, transform),
        final(builder).depth() == old(builder).depth(),
        final(cache)@ == text_cache(old(cache)@, layout@),
        old(cache)@.submap_of(final(cache)@),
        fragments_present(final(builder)@, old(builder)@.len() as int, final(cache)@),
{
    let ghost start = builder@;
    let ghost held = cache@;
    let mut i: usize = 0;
    assert(builder@ =~= start + layout_commands(layout@, transform, 0));
    while i < layout.lines.len()
        invariant
            0 <= i <= layout.lines@.len(),
            builder.wf(),
            cache.wf(),
            builder@ == start + layout_commands(layout@, transform, i as int),
            builder.depth() == old(builder).depth(),
            cache@ == layout_cache(held, layout@, i as int),
            held.submap_of(cache@),
            fragments_present(builder@, start.len() as int, cache@),
        decreases layout.lines.len() - i,
    {
        let ghost drawn = builder@;
        let ghost kept = cache@;
        render_line(builder, cache, &layout.fonts, transform, &layout.lines[i]);
        proof {
            assert(builder@ =~= start + layout_commands(layout@, transform, i + 1));
            lemma_submap_of_trans(held, kept, cache@);
            assert forall|j: int| start.len() <= j < builder@.len() implies (
            #[trigger] builder@[j] matches Command::AppendFragment { fragment, .. }
                && cache@.contains_key(fragment)) by {
                if j < drawn.len() {
                    assert(builder@[j] == drawn[j]);
                    assert(kept.dom().contains(drawn[j]->fragment));
                }
            }
        }
        i = i + 1;
    }
}

/// The placement of glyph `k` of a run. The pen stands at the offset of
/// the run moved by the advances of the glyphs before `k`; the glyph is
/// drawn under `outer · translate(pen + x, baseline − y) · flip_y`, however
/// the product is grouped; and the pen then moves by the advance of the
/// glyph, whether or not the glyph has a fragment. Sums and differences
/// saturate at the ends of the range of a scalar.
pub proof fn lemma_glyph_placement(
    outer: Affine,
    offset: i32,
    baseline: i32,
    glyphs: Seq<Glyph>,
    k: int,
)
    requires
        0 <= k < glyphs.len(),
    ensures
        cursor_at(offset, glyphs, 0) == offset,
        cursor_at(offset, glyphs, k + 1) == fx_add(
            cursor_at(offset, glyphs, k) as int,
            glyphs[k].advance as int,
        ),
        i32::MIN <= cursor_at(offset, glyphs, k) + glyphs[k].advance <= i32::MAX ==> cursor_at(
            offset,
            glyphs,
            k + 1,
        ) == cursor_at(offset, glyphs, k) + glyphs[k].advance,
        glyph_transform(outer, cursor_at(offset, glyphs, k), baseline, glyphs[k])
            == outer.compose_spec(
            Affine::translate_spec(
                fx_add(cursor_at(offset, glyphs, k) as int, glyphs[k].x as int) as i32,
                fx_sub(baseline as int, glyphs[k].y as int) as i32,
            ),
        ).compose_spec(Affine::flip_y_spec()),
{
    lemma_placement_associates(
        outer,
        fx_add(cursor_at(offset, glyphs, k) as int, glyphs[k].x as int) as i32,
        fx_sub(baseline as int, glyphs[k].y as int) as i32,
    );
}

/// The sum of the advances of the first `k` glyphs.
pub open spec fn advance_sum(glyphs: Seq<Glyph>, k: int) -> int
    decreases k,
{
    if k <= 0 {
        0
    } else {
        advance_sum(glyphs, k - 1) + glyphs[k - 1].advance
    }
}

/// As long as the pen stays within the range of a scalar, it stands at the
/// offset of the run plus the advances of the glyphs that it has passed.
pub proof fn lemma_cursor_is_offset_plus_advances(offset: i32, glyphs: Seq<Glyph>, k: int)
    requires
        0 <= k <= glyphs.len(),
        forall|j: int| 0 <= j <= k ==> i32::MIN <= offset + #[trigger] advance_sum(glyphs, j) <= i32::MAX,
    ensures
        cursor_at(offset, glyphs, k) == offset + advance_sum(glyphs, k),
    decreases k,
{
    if k > 0 {
        lemma_cursor_is_offset_plus_advances(offset, glyphs, k - 1);
        assert(i32::MIN <= offset + advance_sum(glyphs, k) <= i32::MAX);
    }
}

/// The number of glyphs among the first `n` that have an outline in `font`.
pub open spec fn drawn_glyphs(font: FontView, glyphs: Seq<Glyph>, n: int) -> nat
    decreases n,
{
    if n <= 0 {
        0
    } else {
        drawn_glyphs(font, glyphs, n - 1) + if font.outline(glyphs[n - 1].id) is Some {
            1nat
        } else {
            0nat
        }
    }
}

/// A run draws one fragment for each of its glyphs that has an outline,
/// and nothing else; each fragment is of the font, the size and the brush
/// of the run.
pub proof fn lemma_run_draws_its_glyphs(font: FontView, run: GlyphRunView, outer: Affine, n: int)
    requires
        0 <= n <= run.glyphs.len(),
    ensures
        run_commands(font, run, outer, n).len() == drawn_glyphs(font, run.glyphs, n),
        forall|j: int|
            0 <= j < run_commands(font, run, outer, n).len() ==> (#[trigger] run_commands(
                font,
                run,
                outer,
                n,
            )[j] matches Command::AppendFragment { fragment, .. } && fragment.font == font.id
                && fragment.size == run.font_size && fragment.brush == run.brush.0),
    decreases n,
{
    if n > 0 {
        lemma_run_draws_its_glyphs(font, run, outer, n - 1);
        let before = run_commands(font, run, outer, n - 1);
        let all = run_commands(font, run, outer, n);
        assert forall|j: int| 0 <= j < all.len() implies (#[trigger] all[j] matches Command::AppendFragment {
            fragment,
            ..
        } && fragment.font == font.id && fragment.size == run.font_size && fragment.brush
            == run.brush.0) by {
            if j < before.len() {
                assert(all[j] == before[j]);
            }
        }
    }
}

} // verus!
