//! The animation: the scene of one frame.
//!
//! A frame is a grey background, a block of text, a line that turns about
//! the middle of the picture, a small red square, and a blue and a green
//! square in a layer whose opacity swings between nought and one.

use crate::geometry::{fx_mul_add, fx_whole, mul_add, whole, Affine, PathEl, Point, Rect, ONE};
use crate::glyph::GlyphCache;
use crate::resolve::fragments_resolve;
use crate::scene::{
    Brush, Cap, Color, Command, Fill, Join, Mix, Scene, SceneBuilder, Stroke,
};
use crate::text::{render_text, text_cache, text_commands, Layout, LayoutView};
use vstd::prelude::*;

verus! {

/// One fifth, rounded down to a multiple of 1/65536.
pub const FIFTH: i32 = 13107;

/// One half.
pub const HALF: i32 = 32768;

/// What moves from frame to frame: the cosine and the sine of the angle
/// of the line, and the wave that drives the opacity of the layer, each a
/// scalar between minus one and one.
#[derive(Clone, Copy, Debug, PartialEq, Eq, Structural)]
pub struct FramePhase {
    pub cos: i32,
    pub sin: i32,
    pub wave: i32,
}

/// The square that the background and the small squares are cut from.
pub open spec fn frame_rect() -> Rect {
    Rect::from_origin_size_spec(
        Point { x: 0, y: 0 },
        fx_whole(1000) as i32,
        fx_whole(1000) as i32,
    )
}

/// The point about which the line turns.
pub open spec fn line_center() -> Point {
    Point { x: fx_whole(500) as i32, y: fx_whole(500) as i32 }
}

/// The far end of the line: 400 from the centre, in the direction
/// `(cos, sin)`.
pub open spec fn line_end(phase: FramePhase) -> Point {
    Point {
        x: fx_mul_add(fx_whole(400), phase.cos as int, 0, 0, fx_whole(500)) as i32,
        y: fx_mul_add(fx_whole(400), phase.sin as int, 0, 0, fx_whole(500)) as i32,
    }
}

/// The opacity of the layer: `0.5 · wave + 0.5`, kept between nought and
/// one.
pub open spec fn layer_alpha(wave: i32) -> i32 {
    let v = fx_mul_add(HALF as int, wave as int, 0, 0, HALF as int);
    if v < 0 {
        0
    } else if v > ONE {
        ONE
    } else {
        v as i32
    }
}

/// A small square: the frame's square at a fifth of its size, moved to
/// `(at, at)`.
pub open spec fn small_square(at: int, color: Color) -> Command {
    Command::Fill {
        rule: Fill::NonZero,
        transform: Affine::translate_spec(fx_whole(at) as i32, fx_whole(at) as i32).compose_spec(
            Affine::scale_spec(FIFTH),
        ),
        brush: Brush::Solid(color),
        clip: None,
        shape: frame_rect().path_spec(),
    }
}

/// What is drawn before the text: the background.
pub open spec fn frame_backdrop() -> Seq<Command> {
    seq![
        Command::Fill {
            rule: Fill::NonZero,
            transform: Affine::identity_spec(),
            brush: Brush::Solid(Color { r: 128, g: 128, b: 128, a: 255 }),
            clip: None,
            shape: frame_rect().path_spec(),
        },
    ]
}

/// What is drawn after the text: the line, the red square, and the layer
/// with the blue and the green square.
pub open spec fn frame_foreground(phase: FramePhase) -> Seq<Command> {
    seq![
        Command::Stroke {
            style: Stroke {
                width: fx_whole(5) as u32,
                join: Join::Round,
                cap: Cap::Round,
            },
            transform: Affine::identity_spec(),
            brush: Brush::Solid(Color { r: 128, g: 0, b: 0, a: 255 }),
            clip: None,
            path: seq![PathEl::MoveTo(line_center()), PathEl::LineTo(line_end(phase))],
        },
        small_square(150, Color { r: 255, g: 0, b: 0, a: 255 }),
        Command::PushLayer {
            blend: Mix::Normal,
            alpha: layer_alpha(phase.wave),
            transform: Affine::identity_spec(),
            clip_shape: frame_rect().path_spec(),
        },
        small_square(100, Color { r: 0, g: 0, b: 255, a: 255 }),
        small_square(200, Color { r: 0, g: 128, b: 0, a: 255 }),
        Command::PopLayer,
    ]
}

/// Where the text of a frame is put.
pub open spec fn text_origin() -> Affine {
    Affine::translate_spec(fx_whole(100) as i32, fx_whole(400) as i32)
}

/// The commands of a frame: a function of the layout and the phase, and
/// of nothing else.
pub open spec fn frame_commands(layout: LayoutView, phase: FramePhase) -> Seq<Command> {
    frame_backdrop() + text_commands(layout, text_origin()) + frame_foreground(phase)
}

/// Computes the opacity of the layer.
#[verifier::when_used_as_spec(layer_alpha)]
pub fn alpha_for(wave: i32) -> (alpha: i32)
    ensures
        alpha == layer_alpha(wave),
        0 <= alpha <= ONE,
{
    let v: i32 = mul_add(HALF, wave, 0, 0, HALF);
    if v < 0 {
        0
    } else if v > ONE {
        ONE
    } else {
        v
    }
}

fn square_at(at: i16) -> (m: Affine)
    ensures
        m == Affine::translate_spec(fx_whole(at as int) as i32, fx_whole(at as int) as i32).compose_spec(
            Affine::scale_spec(FIFTH),
        ),
{
    Affine::translate(whole(at), whole(at)).compose(Affine::scale(FIFTH))
}

/// Composes one frame into `scene`. Whatever the scene held before is
/// gone: the new scene is `frame_commands` of the layout and the phase. The
/// glyph fragments of the text come from `cache`, which only grows.
pub fn render_anim_frame(
    scene: &mut Scene,
    cache: &mut GlyphCache,
    layout: &Layout,
    phase: FramePhase,
)
    requires
        old(cache).wf(),
    ensures
        final(scene).wf(),
        final(scene)@ == frame_commands(layout@, phase),
        final(cache).wf(),
        final(cache)@ == text_cache(old(cache)@, layout@),
        old(cache)@.submap_of(final(cache)@),
        fragments_resolve(final(scene)@, final(cache)@),
{
    let mut sb = SceneBuilder::new();
    let rect = Rect::from_origin_size(Point::new(0, 0), whole(1000), whole(1000));
    sb.fill(
        Fill::NonZero,
        Affine::identity(),
        Brush::Solid(Color::rgb8(128, 128, 128)),
        None,
        rect.path(),
    );
    assert(sb@ =~= frame_backdrop());
    render_text(&mut sb, cache, Affine::translate(whole(100), whole(400)), layout);
    let ghost text_end = sb@;

    let center = Point::new(whole(500), whole(500));
    let p1 = Point::new(
        mul_add(whole(400), phase.cos, 0, 0, whole(500)),
        mul_add(whole(400), phase.sin, 0, 0, whole(500)),
    );
    let mut line: Vec<PathEl> = Vec::new();
    line.push(PathEl::MoveTo(center));
    line.push(PathEl::LineTo(p1));
    assert(line@ =~= seq![PathEl::MoveTo(line_center()), PathEl::LineTo(line_end(phase))]);
    let width: u32 = 5 * 65536;
    sb.stroke(
        Stroke::new(width),
        Affine::identity(),
        Brush::Solid(Color::rgb8(128, 0, 0)),
        None,
        line,
    );
    sb.fill(
        Fill::NonZero,
        square_at(150),
        Brush::Solid(Color::rgb8(255, 0, 0)),
        None,
        rect.path(),
    );
    sb.push_layer(Mix::Normal, alpha_for(phase.wave), Affine::identity(), rect.path());
    sb.fill(
        Fill::NonZero,
        square_at(100),
        Brush::Solid(Color::rgb8(0, 0, 255)),
        None,
        rect.path(),
    );
    sb.fill(
        Fill::NonZero,
        square_at(200),
        Brush::Solid(Color::rgb8(0, 128, 0)),
        None,
        rect.path(),
    );
    let popped = sb.pop_layer();
    proof {
        assert(popped is Ok);
        assert(sb@ =~= text_end + frame_foreground(phase));
        assert(sb@ =~= frame_commands(layout@, phase));
        assert forall|j: int| 0 <= j < sb@.len() implies (#[trigger] sb@[j] matches Command::AppendFragment {
            fragment,
            ..
        } ==> cache@.contains_key(fragment)) by {
            if j == 0 {
            } else if j < text_end.len() {
                assert(sb@[j] == text_end[j]);
            } else {
                assert(sb@[j] == frame_foreground(phase)[j - text_end.len()]);
            }
        }
    }
    match sb.finish() {
        Ok(done) => {
            *scene = done;
        },
        Err(_) => {
            proof {
                assert(false);
            }
        },
    }
}

/// The scene of a frame depends on what the layout holds and on the phase
/// alone: two frames composed from layouts that hold the same, with the
/// same phase, have the same commands, whatever the scene and the cache
/// held before either.
pub proof fn lemma_frame_is_determined(
    layout_a: Layout,
    phase_a: FramePhase,
    layout_b: Layout,
    phase_b: FramePhase,
)
    requires
        layout_a@ == layout_b@,
        phase_a == phase_b,
    ensures
        frame_commands(layout_a@, phase_a) == frame_commands(layout_b@, phase_b),
{
}

} // verus!
