//! The flat form of a scene: what is handed to a rasteriser that knows
//! nothing of glyph fragments.

use crate::geometry::PathEl;
use crate::glyph::{FragmentView, GlyphCache};
use crate::scene::{
    balanced, commands_view, never_underflows, pops, pushes, Command, DrawCommand, Fill,
    FragmentKey, Scene,
};
use vstd::prelude::*;

verus! {

/// Each fragment that the commands append is held by `entries`.
pub open spec fn fragments_resolve(
    commands: Seq<Command>,
    entries: Map<FragmentKey, FragmentView>,
) -> bool {
    forall|j: int|
        0 <= j < commands.len() ==> (#[trigger] commands[j] matches Command::AppendFragment {
            fragment,
            ..
        } ==> entries.contains_key(fragment))
}

/// A command with its fragment written out: a fragment appended under a
/// transform is the fill of its outline, with its brush, under that
/// transform. Any other command stays as it is.
pub open spec fn resolve_command(c: Command, entries: Map<FragmentKey, FragmentView>) -> Command {
    match c {
        Command::AppendFragment { fragment, transform } => Command::Fill {
            rule: Fill::NonZero,
            transform,
            brush: entries[fragment].brush,
            clip: None,
            shape: entries[fragment].path,
        },
        _ => c,
    }
}

/// The commands with every fragment written out.
pub open spec fn resolved(commands: Seq<Command>, entries: Map<FragmentKey, FragmentView>) -> Seq<
    Command,
> {
    commands.map_values(|c: Command| resolve_command(c, entries))
}

/// Writing the fragments out opens and closes the same layers.
pub proof fn lemma_resolved_counts(commands: Seq<Command>, entries: Map<FragmentKey, FragmentView>)
    ensures
        pushes(resolved(commands, entries)) == pushes(commands),
        pops(resolved(commands, entries)) == pops(commands),
    decreases commands.len(),
{
    if commands.len() > 0 {
        lemma_resolved_counts(commands.drop_last(), entries);
        assert(resolved(commands, entries).drop_last() =~= resolved(commands.drop_last(), entries));
    }
}

/// A balanced scene is balanced with its fragments written out.
pub proof fn lemma_resolved_balanced(commands: Seq<Command>, entries: Map<FragmentKey, FragmentView>)
    requires
        balanced(commands),
    ensures
        balanced(resolved(commands, entries)),
{
    let flat = resolved(commands, entries);
    lemma_resolved_counts(commands, entries);
    assert forall|n: int| 0 <= n <= flat.len() implies pops(#[trigger] flat.take(n)) <= pushes(
        flat.take(n),
    ) by {
        assert(flat.take(n) =~= resolved(commands.take(n), entries));
        lemma_resolved_counts(commands.take(n), entries);
    }
}

/// A copy of a path.
pub fn copy_path(path: &Vec<PathEl>) -> (r: Vec<PathEl>)
    ensures
        r@ == path@,
{
    let mut r: Vec<PathEl> = Vec::new();
    let mut i: usize = 0;
    while i < path.len()
        invariant
            0 <= i <= path.len(),
            r@ == path@.take(i as int),
        decreases path.len() - i,
    {
        r.push(path[i]);
        assert(r@ =~= path@.take(i + 1));
        i = i + 1;
    }
    assert(path@.take(path@.len() as int) =~= path@);
    r
}

fn copy_clip(clip: &Option<Vec<PathEl>>) -> (r: Option<Vec<PathEl>>)
    ensures
        crate::scene::clip_view(r) == crate::scene::clip_view(*clip),
{
    match clip {
        Some(path) => Some(copy_path(path)),
        None => None,
    }
}

/// A command with its fragment written out. There is none where the
/// command appends a fragment that the cache does not hold.
pub fn resolve(command: &DrawCommand, cache: &GlyphCache) -> (r: Option<DrawCommand>)
    requires
        cache.wf(),
    ensures
        r is None <==> (command@ matches Command::AppendFragment { fragment, .. }
            && !cache@.contains_key(fragment)),
        r matches Some(c) ==> c@ == resolve_command(command@, cache@),
{
    match command {
        DrawCommand::Fill { rule, transform, brush, clip, shape } => Some(
            DrawCommand::Fill {
                rule: *rule,
                transform: *transform,
                brush: *brush,
                clip: copy_clip(clip),
                shape: copy_path(shape),
            },
        ),
        DrawCommand::Stroke { style, transform, brush, clip, path } => Some(
            DrawCommand::Stroke {
                style: *style,
                transform: *transform,
                brush: *brush,
                clip: copy_clip(clip),
                path: copy_path(path),
            },
        ),
        DrawCommand::PushLayer { blend, alpha, transform, clip_shape } => Some(
            DrawCommand::PushLayer {
                blend: *blend,
                alpha: *alpha,
                transform: *transform,
                clip_shape: copy_path(clip_shape),
            },
        ),
        DrawCommand::PopLayer => Some(DrawCommand::PopLayer),
        DrawCommand::AppendFragment { fragment, transform } => match cache.fragment(fragment) {
            Some(found) => Some(
                DrawCommand::Fill {
                    rule: Fill::NonZero,
                    transform: *transform,
                    brush: found.brush,
                    clip: None,
                    shape: copy_path(&found.path),
                },
            ),
            None => None,
        },
    }
}

/// The scene with every glyph fragment written out as the fill of its
/// outline, for a rasteriser. There is none where the scene appends a
/// fragment that the cache does not hold.
pub fn flatten(scene: &Scene, cache: &GlyphCache) -> (r: Option<Scene>)
    requires
        scene.wf(),
        cache.wf(),
    ensures
        r is Some <==> fragments_resolve(scene@, cache@),
        r matches Some(flat) ==> flat@ == resolved(scene@, cache@) && flat.wf(),
{
    let commands = scene.commands();
    let ghost all = scene@;
    let mut flat: Vec<DrawCommand> = Vec::new();
    let mut i: usize = 0;
    while i < commands.len()
        invariant
            0 <= i <= commands.len(),
            cache.wf(),
            all == scene@,
            all == commands_view(commands@),
            fragments_resolve(all.take(i as int), cache@),
            commands_view(flat@) == resolved(all.take(i as int), cache@),
        decreases commands.len() - i,
    {
        assert(all[i as int] == commands@[i as int]@);
        match resolve(&commands[i], cache) {
            Some(c) => {
                proof {
                    let before = all.take(i as int);
                    assert(all.take(i + 1) =~= before.push(all[i as int]));
                    assert(resolved(before.push(all[i as int]), cache@) =~= resolved(
                        before,
                        cache@,
                    ).push(resolve_command(all[i as int], cache@)));
                    assert(commands_view(flat@.push(c)) =~= commands_view(flat@).push(c@));
                    assert forall|j: int| 0 <= j < all.take(i + 1).len() implies (
                    #[trigger] all.take(i + 1)[j] matches Command::AppendFragment { fragment, .. }
                        ==> cache@.contains_key(fragment)) by {
                        if j < i {
                            assert(all.take(i + 1)[j] == all.take(i as int)[j]);
                        }
                    }
                }
                flat.push(c);
            },
            None => {
                assert(all[i as int] is AppendFragment && !cache@.contains_key(
                    all[i as int]->fragment,
                ));
                return None;
            },
        }
        i = i + 1;
    }
    proof {
        assert(all.take(i as int) =~= all);
        lemma_resolved_balanced(all, cache@);
    }
    match Scene::from_commands(flat) {
        Ok(s) => Some(s),
        Err(_) => {
            proof {
                assert(false);
            }
            None
        },
    }
}

} // verus!
