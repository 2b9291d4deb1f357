//! Drawing commands, the scene they make up, and the builder that keeps the
//! layers of a scene balanced.

use crate::geometry::{Affine, PathEl, ONE};
use vstd::prelude::*;

verus! {

/// A colour with 8 bits for each of red, green, blue and alpha.
#[derive(Clone, Copy, Debug, PartialEq, Eq, Structural)]
pub struct Color {
    pub r: u8,
    pub g: u8,
    pub b: u8,
    pub a: u8,
}

impl Color {
    /// An opaque colour.
    pub fn rgb8(r: u8, g: u8, b: u8) -> (c: Color)
        ensures
            c == (Color { r, g, b, a: 255 }),
    {
        Color { r, g, b, a: 255 }
    }

    pub fn rgba8(r: u8, g: u8, b: u8, a: u8) -> (c: Color)
        ensures
            c == (Color { r, g, b, a }),
    {
        Color { r, g, b, a }
    }
}

/// What an area is painted with.
#[derive(Clone, Copy, Debug, PartialEq, Eq, Structural)]
pub enum Brush {
    Solid(Color),
}

/// The rule that decides which points a path encloses.
#[derive(Clone, Copy, Debug, PartialEq, Eq, Structural)]
pub enum Fill {
    NonZero,
    EvenOdd,
}

/// How a layer is mixed with what lies below it.
#[derive(Clone, Copy, Debug, PartialEq, Eq, Structural)]
pub enum Mix {
    Normal,
    Multiply,
    Screen,
    Overlay,
    Darken,
    Lighten,
    Clip,
}

/// How two segments of a stroke are joined.
#[derive(Clone, Copy, Debug, PartialEq, Eq, Structural)]
pub enum Join {
    Bevel,
    Miter,
    Round,
}

/// How a stroke ends.
#[derive(Clone, Copy, Debug, PartialEq, Eq, Structural)]
pub enum Cap {
    Butt,
    Square,
    Round,
}

/// The style of a stroke. The width is a fixed-point scalar and, being
/// unsigned, never negative.
#[derive(Clone, Copy, Debug, PartialEq, Eq, Structural)]
pub struct Stroke {
    pub width: u32,
    pub join: Join,
    pub cap: Cap,
}

impl Stroke {
    /// A stroke of the given width with round joins and caps.
    pub fn new(width: u32) -> (s: Stroke)
        ensures
            s == (Stroke { width, join: Join::Round, cap: Cap::Round }),
    {
        Stroke { width, join: Join::Round, cap: Cap::Round }
    }
}

/// The address of a glyph fragment: the font, the size, the glyph and the
/// brush that it was made from. Two fragments with one key are the same
/// fragment.
#[derive(Clone, Copy, Debug, PartialEq, Eq, Structural)]
pub struct FragmentKey {
    pub font: u64,
    pub size: i32,
    pub glyph: u16,
    pub brush: Brush,
}

/// One operation of a scene.
#[derive(Clone, Debug, PartialEq, Eq)]
pub enum DrawCommand {
    Fill { rule: Fill, transform: Affine, brush: Brush, clip: Option<Vec<PathEl>>, shape: Vec<PathEl> },
    Stroke {
        style: Stroke,
        transform: Affine,
        brush: Brush,
        clip: Option<Vec<PathEl>>,
        path: Vec<PathEl>,
    },
    PushLayer { blend: Mix, alpha: i32, transform: Affine, clip_shape: Vec<PathEl> },
    PopLayer,
    AppendFragment { fragment: FragmentKey, transform: Affine },
}

/// What a drawing command says, with its paths as sequences.
pub enum Command {
    Fill { rule: Fill, transform: Affine, brush: Brush, clip: Option<Seq<PathEl>>, shape: Seq<PathEl> },
    Stroke {
        style: Stroke,
        transform: Affine,
        brush: Brush,
        clip: Option<Seq<PathEl>>,
        path: Seq<PathEl>,
    },
    PushLayer { blend: Mix, alpha: i32, transform: Affine, clip_shape: Seq<PathEl> },
    PopLayer,
    AppendFragment { fragment: FragmentKey, transform: Affine },
}

/// What an optional clip path holds.
pub open spec fn clip_view(clip: Option<Vec<PathEl>>) -> Option<Seq<PathEl>> {
    match clip {
        Some(p) => Some(p@),
        None => None,
    }
}

impl View for DrawCommand {
    type V = Command;

    open spec fn view(&self) -> Command {
        match *self {
            DrawCommand::Fill { rule, transform, brush, clip, shape } => Command::Fill {
                rule,
                transform,
                brush,
                clip: clip_view(clip),
                shape: shape@,
            },
            DrawCommand::Stroke { style, transform, brush, clip, path } => Command::Stroke {
                style,
                transform,
                brush,
                clip: clip_view(clip),
                path: path@,
            },
            DrawCommand::PushLayer { blend, alpha, transform, clip_shape } => Command::PushLayer {
                blend,
                alpha,
                transform,
                clip_shape: clip_shape@,
            },
            DrawCommand::PopLayer => Command::PopLayer,
            DrawCommand::AppendFragment { fragment, transform } => Command::AppendFragment {
                fragment,
                transform,
            },
        }
    }
}

/// What a list of drawing commands says.
pub open spec fn commands_view(commands: Seq<DrawCommand>) -> Seq<Command> {
    commands.map_values(|c: DrawCommand| c@)
}

/// The number of layers that the commands open.
pub open spec fn pushes(commands: Seq<Command>) -> nat
    decreases commands.len(),
{
    if commands.len() == 0 {
        0
    } else {
        pushes(commands.drop_last()) + if commands.last() is PushLayer {
            1nat
        } else {
            0nat
        }
    }
}

/// The number of layers that the commands close.
pub open spec fn pops(commands: Seq<Command>) -> nat
    decreases commands.len(),
{
    if commands.len() == 0 {
        0
    } else {
        pops(commands.drop_last()) + if commands.last() is PopLayer {
            1nat
        } else {
            0nat
        }
    }
}

/// No command closes a layer that was not opened before it: among the first
/// `n` commands, for every `n`, there are no more pops than pushes.
pub open spec fn never_underflows(commands: Seq<Command>) -> bool {
    forall|n: int|
        0 <= n <= commands.len() ==> pops(#[trigger] commands.take(n)) <= pushes(
            commands.take(n),
        )
}

/// Every layer that is opened is closed, and none is closed before it is
/// opened.
pub open spec fn balanced(commands: Seq<Command>) -> bool {
    never_underflows(commands) && pushes(commands) == pops(commands)
}

/// One more command changes the two counts by what that command is.
pub proof fn lemma_counts_push(commands: Seq<Command>, c: Command)
    ensures
        pushes(commands.push(c)) == pushes(commands) + if c is PushLayer {
            1nat
        } else {
            0nat
        },
        pops(commands.push(c)) == pops(commands) + if c is PopLayer {
            1nat
        } else {
            0nat
        },
{
    assert(commands.push(c).drop_last() =~= commands);
}

/// A list that never underflows still does so after one more command, if
/// that command leaves no more pops than pushes.
pub proof fn lemma_never_underflows_push(commands: Seq<Command>, c: Command)
    requires
        never_underflows(commands),
        pops(commands.push(c)) <= pushes(commands.push(c)),
    ensures
        never_underflows(commands.push(c)),
{
    let longer = commands.push(c);
    assert forall|n: int| 0 <= n <= longer.len() implies pops(#[trigger] longer.take(n))
        <= pushes(longer.take(n)) by {
        if n <= commands.len() {
            assert(longer.take(n) =~= commands.take(n));
        } else {
            assert(longer.take(n) =~= longer);
        }
    }
}

/// Raised where a layer is closed that was never opened, or where a scene
/// is finished while a layer is still open.
#[derive(Clone, Copy, Debug, PartialEq, Eq, Structural)]
pub struct UnbalancedLayerError;

/// A finished scene: the commands of one frame, in the order in which they
/// are drawn.
#[derive(Clone, Debug, PartialEq, Eq)]
pub struct Scene {
    commands: Vec<DrawCommand>,
}

impl View for Scene {
    type V = Seq<Command>;

    closed spec fn view(&self) -> Seq<Command> {
        commands_view(self.commands@)
    }
}

impl Scene {
    /// The layers of a scene are balanced.
    pub open spec fn wf(&self) -> bool {
        balanced(self@)
    }

    /// The empty scene.
    pub fn new() -> (s: Scene)
        ensures
            s@ == Seq::<Command>::empty(),
            s.wf(),
    {
        let s = Scene { commands: Vec::new() };
        proof {
            assert(s@ =~= Seq::<Command>::empty());
            lemma_empty_is_balanced();
        }
        s
    }

    /// The commands of the scene.
    pub fn commands(&self) -> (c: &Vec<DrawCommand>)
        ensures
            commands_view(c@) == self@,
    {
        &self.commands
    }

    /// The number of commands.
    pub fn len(&self) -> (n: usize)
        ensures
            n == self@.len(),
    {
        self.commands.len()
    }

    /// Makes a scene of a list of commands, if its layers are balanced.
    pub fn from_commands(commands: Vec<DrawCommand>) -> (r: Result<Scene, UnbalancedLayerError>)
        ensures
            r is Ok <==> balanced(commands_view(commands@)),
            r matches Ok(s) ==> s@ == commands_view(commands@) && s.wf(),
    {
        let ghost all = commands_view(commands@);
        let mut depth: usize = 0;
        let mut i: usize = 0;
        proof {
            assert(all.take(0) =~= Seq::<Command>::empty());
            lemma_empty_is_balanced();
        }
        while i < commands.len()
            invariant
                0 <= i <= commands.len(),
                all == commands_view(commands@),
                never_underflows(all.take(i as int)),
                depth == pushes(all.take(i as int)) - pops(all.take(i as int)),
                depth <= i,
            decreases commands.len() - i,
        {
            proof {
                assert(all.take(i + 1) =~= all.take(i as int).push(all[i as int]));
                lemma_counts_push(all.take(i as int), all[i as int]);
            }
            match &commands[i] {
                DrawCommand::PushLayer { .. } => {
                    depth = depth + 1;
                },
                DrawCommand::PopLayer => {
                    if depth == 0 {
                        proof {
                            assert(all.take(i + 1).len() == i + 1);
                            assert(pops(all.take(i + 1)) > pushes(all.take(i + 1)));
                            assert(!never_underflows(all));
                        }
                        return Err(UnbalancedLayerError);
                    }
                    depth = depth - 1;
                },
                _ => {},
            }
            proof {
                lemma_never_underflows_push(all.take(i as int), all[i as int]);
            }
            i = i + 1;
        }
        proof {
            assert(all.take(i as int) =~= all);
        }
        if depth != 0 {
            return Err(UnbalancedLayerError);
        }
        Ok(Scene { commands })
    }
}

/// The empty list of commands is balanced.
pub proof fn lemma_empty_is_balanced()
    ensures
        balanced(Seq::<Command>::empty()),
{
    let e = Seq::<Command>::empty();
    assert forall|n: int| 0 <= n <= e.len() implies pops(#[trigger] e.take(n)) <= pushes(
        e.take(n),
    ) by {
        assert(e.take(n) =~= e);
    }
}

/// Collects the commands of one frame and keeps count of the open layers.
pub struct SceneBuilder {
    commands: Vec<DrawCommand>,
    depth: usize,
}

impl View for SceneBuilder {
    type V = Seq<Command>;

    closed spec fn view(&self) -> Seq<Command> {
        commands_view(self.commands@)
    }
}

impl SceneBuilder {
    /// The number of layers that are open.
    pub closed spec fn depth(&self) -> nat {
        self.depth as nat
    }

    /// The count of open layers is the number of pushes less the number of
    /// pops, and no pop came before its push.
    pub open spec fn wf(&self) -> bool {
        &&& never_underflows(self@)
        &&& self.depth() + pops(self@) == pushes(self@)
    }

    /// A builder with no commands and no open layer.
    pub fn new() -> (b: SceneBuilder)
        ensures
            b.wf(),
            b@ == Seq::<Command>::empty(),
            b.depth() == 0,
    {
        let b = SceneBuilder { commands: Vec::new(), depth: 0 };
        proof {
            assert(b@ =~= Seq::<Command>::empty());
            lemma_empty_is_balanced();
        }
        b
    }

    /// Starts a frame: drops every command and every open layer.
    pub fn begin(&mut self)
        ensures
            final(self).wf(),
            final(self)@ == Seq::<Command>::empty(),
            final(self).depth() == 0,
    {
        self.commands.clear();
        self.depth = 0;
        proof {
            assert(self@ =~= Seq::<Command>::empty());
            lemma_empty_is_balanced();
        }
    }

    /// The number of commands so far.
    pub fn len(&self) -> (n: usize)
        ensures
            n == self@.len(),
    {
        self.commands.len()
    }

    /// The number of layers that are open.
    pub fn layer_depth(&self) -> (d: usize)
        ensures
            d == self.depth(),
    {
        self.depth
    }

    fn append(&mut self, command: DrawCommand)
        requires
            old(self).wf(),
            !(command@ is PushLayer),
            !(command@ is PopLayer),
        ensures
            final(self).wf(),
            final(self)@ == old(self)@.push(command@),
            final(self).depth() == old(self).depth(),
    {
        proof {
            lemma_counts_push(self@, command@);
            lemma_never_underflows_push(self@, command@);
            assert(commands_view(self.commands@.push(command)) =~= self@.push(command@));
        }
        self.commands.push(command);
    }

    /// Appends a fill of `shape`.
    pub fn fill(
        &mut self,
        rule: Fill,
        transform: Affine,
        brush: Brush,
        clip: Option<Vec<PathEl>>,
        shape: Vec<PathEl>,
    )
        requires
            old(self).wf(),
        ensures
            final(self).wf(),
            final(self)@ == old(self)@.push(
                Command::Fill { rule, transform, brush, clip: clip_view(clip), shape: shape@ },
            ),
            final(self).depth() == old(self).depth(),
    {
        self.append(DrawCommand::Fill { rule, transform, brush, clip, shape });
    }

    /// Appends a stroke along `path`.
    pub fn stroke(
        &mut self,
        style: Stroke,
        transform: Affine,
        brush: Brush,
        clip: Option<Vec<PathEl>>,
        path: Vec<PathEl>,
    )
        requires
            old(self).wf(),
        ensures
            final(self).wf(),
            final(self)@ == old(self)@.push(
                Command::Stroke { style, transform, brush, clip: clip_view(clip), path: path@ },
            ),
            final(self).depth() == old(self).depth(),
    {
        self.append(DrawCommand::Stroke { style, transform, brush, clip, path });
    }

    /// Appends a glyph fragment, named by its key, under `transform`.
    pub fn append_fragment(&mut self, fragment: FragmentKey, transform: Affine)
        requires
            old(self).wf(),
        ensures
            final(self).wf(),
            final(self)@ == old(self)@.push(Command::AppendFragment { fragment, transform }),
            final(self).depth() == old(self).depth(),
    {
        self.append(DrawCommand::AppendFragment { fragment, transform });
    }

    /// Opens a layer. `alpha` lies between nought and one.
    pub fn push_layer(
        &mut self,
        blend: Mix,
        alpha: i32,
        transform: Affine,
        clip_shape: Vec<PathEl>,
    )
        requires
            old(self).wf(),
            0 <= alpha <= ONE,
        ensures
            final(self).wf(),
            final(self)@ == old(self)@.push(
                Command::PushLayer { blend, alpha, transform, clip_shape: clip_shape@ },
            ),
            final(self).depth() == old(self).depth() + 1,
    {
        let command = DrawCommand::PushLayer { blend, alpha, transform, clip_shape };
        proof {
            lemma_counts_push(self@, command@);
            lemma_never_underflows_push(self@, command@);
            lemma_pushes_at_most_len(self@);
            assert(commands_view(self.commands@.push(command)) =~= self@.push(command@));
        }
        self.commands.push(command);
        // The open layers are no more than the commands, whose number a
        // `usize` holds: the count cannot overflow.
        let held: usize = self.commands.len();
        self.depth = self.depth + 1;
    }

    /// Closes the layer that was opened last. Where none is open, nothing
    /// changes and the call fails.
    pub fn pop_layer(&mut self) -> (r: Result<(), UnbalancedLayerError>)
        requires
            old(self).wf(),
        ensures
            final(self).wf(),
            r is Err <==> old(self).depth() == 0,
            r is Err <==> pops(old(self)@) == pushes(old(self)@),
            r is Err ==> final(self)@ == old(self)@ && final(self).depth() == old(self).depth(),
            r is Ok ==> final(self)@ == old(self)@.push(Command::PopLayer) && final(self).depth()
                == old(self).depth() - 1,
    {
        if self.depth == 0 {
            return Err(UnbalancedLayerError);
        }
        let command = DrawCommand::PopLayer;
        proof {
            lemma_counts_push(self@, command@);
            lemma_never_underflows_push(self@, command@);
            assert(commands_view(self.commands@.push(command)) =~= self@.push(command@));
        }
        self.commands.push(command);
        self.depth = self.depth - 1;
        Ok(())
    }

    /// Ends the frame. The scene is handed out if no layer is open.
    pub fn finish(self) -> (r: Result<Scene, UnbalancedLayerError>)
        requires
            self.wf(),
        ensures
            r is Ok <==> self.depth() == 0,
            r is Ok <==> balanced(self@),
            r matches Ok(s) ==> s@ == self@ && s.wf(),
    {
        if self.depth != 0 {
            return Err(UnbalancedLayerError);
        }
        Ok(Scene { commands: self.commands })
    }
}

/// A list holds no more pushes than commands.
pub proof fn lemma_pushes_at_most_len(commands: Seq<Command>)
    ensures
        pushes(commands) <= commands.len(),
    decreases commands.len(),
{
    if commands.len() > 0 {
        lemma_pushes_at_most_len(commands.drop_last());
    }
}

} // verus!
