//! What carrying out commands leaves alone.
use vstd::prelude::*;
use crate::command::{Command, PrimitiveMode, Vertex};
use crate::raster::{depths_ok, lemma_drawn_depths_ok};
use crate::screen::{lemma_screen_triangle_wf, survives_clip};
use crate::state::State;

verus! {

/// Drawing a triangle changes nothing but the two buffers, keeps their
/// lengths, and keeps every depth between 0 and 1.
pub proof fn lemma_draw_frame(s: State, a: Vertex, b: Vertex, c: Vertex)
    ensures
        s.draw(a, b, c) == (State {
            back: s.draw(a, b, c).back,
            depth: s.draw(a, b, c).depth,
            ..s
        }),
        s.draw(a, b, c).back.len() == s.back.len(),
        s.draw(a, b, c).depth.len() == s.depth.len(),
        depths_ok(s.depth) ==> depths_ok(s.draw(a, b, c).depth),
{
    reveal(State::draw);
    if survives_clip(a.position) && survives_clip(b.position) && survives_clip(c.position) {
        lemma_screen_triangle_wf(s.viewport, a, b, c);
        if depths_ok(s.depth) {
            lemma_drawn_depths_ok(
                s.viewport.screen_triangle(a, b, c),
                s.viewport,
                s.depth,
                s.depth_mask,
            );
        }
    }
}

/// Drawing the held primitives changes nothing but the two buffers, and
/// keeps their lengths.
pub proof fn lemma_draw_primitives_frame(s: State, mode: PrimitiveMode, from: int)
    ensures
        s.draw_primitives(mode, from) == (State {
            back: s.draw_primitives(mode, from).back,
            depth: s.draw_primitives(mode, from).depth,
            ..s
        }),
        s.draw_primitives(mode, from).back.len() == s.back.len(),
        s.draw_primitives(mode, from).depth.len() == s.depth.len(),
        depths_ok(s.depth) ==> depths_ok(s.draw_primitives(mode, from).depth),
    decreases s.verts.len() - from,
{
    if from < 0 || from + mode.vertices() > s.verts.len() {
    } else {
        let v = s.verts;
        let first = s.draw(v[from], v[from + 1], v[from + 2]);
        lemma_draw_frame(s, v[from], v[from + 1], v[from + 2]);
        let whole = match mode {
            PrimitiveMode::Triangles => first,
            PrimitiveMode::Quads => first.draw(v[from + 2], v[from + 3], v[from]),
        };
        lemma_draw_frame(first, v[from + 2], v[from + 3], v[from]);
        lemma_draw_primitives_frame(whole, mode, from + mode.vertices());
    }
}

/// What no command changes, whether it goes through or is refused: the
/// display lists, the list being compiled and its mode, the pixel-store
/// parameters and the client arrays; and the state stays well-formed.
pub open spec fn same_frame(s: State, after: State) -> bool {
    &&& after.lists == s.lists
    &&& after.new_list == s.new_list
    &&& after.new_list_mode == s.new_list_mode
    &&& after.pixel_store == s.pixel_store
    &&& after.arrays == s.arrays
    &&& (s.wf() ==> after.wf())
}

/// Carrying out a command changes neither the display lists nor what else
/// `same_frame` names.
pub proof fn lemma_execute_frame(s: State, command: Command, fuel: nat)
    ensures
        same_frame(s, s.execute(command, fuel).state),
    decreases fuel, 0nat,
{
    match command {
        Command::CallList { list } => {
            if s.has_list(list) && fuel > 0 {
                lemma_run_frame(s, s.list(list), (fuel - 1) as nat);
            }
        },
        Command::End => {
            reveal(State::end);
            if s.primitive_mode.is_some() {
                lemma_draw_primitives_frame(s.clip_verts(), s.primitive_mode.unwrap(), 0);
            }
        },
        Command::Clear { .. } => {
            reveal(State::clear);
            reveal(depths_ok);
        },
        Command::TexParameteri { .. } => {
            reveal(State::tex_parameter);
        },
        _ => {},
    }
}

/// Carrying out commands one after another changes neither the display
/// lists nor what else `same_frame` names.
pub proof fn lemma_run_frame(s: State, commands: Seq<Command>, fuel: nat)
    ensures
        same_frame(s, s.run(commands, fuel).state),
    decreases fuel, 1 + commands.len(),
{
    if commands.len() > 0 {
        let first = s.execute(commands[0], fuel);
        lemma_execute_frame(s, commands[0], fuel);
        if first.fault.is_none() {
            lemma_run_frame(first.state, commands.drop_first(), fuel);
        }
    }
}

} // verus!
