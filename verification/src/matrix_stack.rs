//! What holds of the matrix stack: a pop undoes a push, and the depth of
//! the stack counts the pushes less the pops.
use vstd::prelude::*;
use crate::command::Command;
use crate::frame::lemma_draw_primitives_frame;
use crate::fuel::lemma_run_concat;
use crate::matrix::Matrix;
use crate::state::State;

verus! {

/// Whether a command is one of the transforms: the calls that work on the
/// current matrix and on nothing else.
pub open spec fn is_transform(command: Command) -> bool {
    ||| command is LoadIdentity
    ||| command is MultMatrixd
    ||| command is MultMatrixf
    ||| command is Ortho
    ||| command is Translated
}

/// Transforms change nothing but the current matrix.
pub proof fn lemma_transforms_touch_current_matrix(s: State, ops: Seq<Command>, fuel: nat)
    requires
        forall|i: int| 0 <= i < ops.len() ==> is_transform(#[trigger] ops[i]),
    ensures
        s.run(ops, fuel).state == s.with_current_matrix(
            s.run(ops, fuel).state.current_matrix(),
        ),
    decreases ops.len(),
{
    if ops.len() > 0 {
        let first = s.execute(ops[0], fuel);
        assert(is_transform(ops[0]));
        assert(first.state == s.with_current_matrix(first.state.current_matrix()));
        if first.fault.is_none() {
            let rest = ops.drop_first();
            assert forall|i: int| 0 <= i < rest.len() implies is_transform(#[trigger] rest[i]) by {
                assert(rest[i] == ops[i + 1]);
            }
            lemma_transforms_touch_current_matrix(first.state, rest, fuel);
        }
    }
}

/// Carrying out one command is carrying out the sequence of it alone.
pub proof fn lemma_run_single(s: State, command: Command, fuel: nat)
    ensures
        s.run(seq![command], fuel) == s.execute(command, fuel),
{
    let one = seq![command];
    assert(one[0] == command);
    assert(one.drop_first().len() == 0);
    reveal_with_fuel(State::run, 2);
}

/// A pop undoes a push, whatever the current matrix was made in between.
pub proof fn lemma_pop_undoes_push(s: State, m: Matrix, fuel: nat)
    ensures
        ({
            let pushed = s.execute(Command::PushMatrix, fuel);
            let popped = pushed.state.with_current_matrix(m).execute(Command::PopMatrix, fuel);
            &&& pushed.fault.is_none()
            &&& popped.fault.is_none() ==> popped.state == s
        }),
{
    assert(s.stack.push(s.current_matrix()).drop_last() =~= s.stack);
}

/// A push, any transforms, and a pop leave the state exactly as it was: the
/// current matrix is restored entry for entry, and the stack is as before.
pub proof fn law_push_pop_restores(s: State, ops: Seq<Command>, fuel: nat)
    requires
        forall|i: int| 0 <= i < ops.len() ==> is_transform(#[trigger] ops[i]),
        s.run(seq![Command::PushMatrix] + ops + seq![Command::PopMatrix], fuel).fault.is_none(),
    ensures
        s.run(seq![Command::PushMatrix] + ops + seq![Command::PopMatrix], fuel).state == s,
{
    let push = seq![Command::PushMatrix];
    let pop = seq![Command::PopMatrix];
    let pushed = s.execute(Command::PushMatrix, fuel);
    let moved = pushed.state.run(ops, fuel);
    lemma_run_concat(s, push + ops, pop, fuel);
    lemma_run_concat(s, push, ops, fuel);
    lemma_run_single(s, Command::PushMatrix, fuel);
    lemma_run_single(moved.state, Command::PopMatrix, fuel);
    lemma_transforms_touch_current_matrix(pushed.state, ops, fuel);
    lemma_pop_undoes_push(s, moved.state.current_matrix(), fuel);
}

/// By how much a command that goes through changes the depth of the matrix
/// stack.
pub open spec fn stack_change(command: Command) -> int {
    match command {
        Command::PushMatrix => 1,
        Command::PopMatrix => -1,
        _ => 0,
    }
}

/// The pushes among `commands` less the pops.
pub open spec fn net_pushes(commands: Seq<Command>) -> int
    decreases commands.len(),
{
    if commands.len() == 0 {
        0
    } else {
        stack_change(commands[0]) + net_pushes(commands.drop_first())
    }
}

/// A command other than a call of a list changes the depth of the matrix
/// stack by its `stack_change`.
pub proof fn lemma_stack_change(s: State, command: Command, fuel: nat)
    requires
        !(command is CallList),
        s.execute(command, fuel).fault.is_none(),
    ensures
        s.execute(command, fuel).state.stack.len() == s.stack.len() + stack_change(command),
{
    match command {
        Command::End => {
            reveal(State::end);
            if s.primitive_mode.is_some() {
                lemma_draw_primitives_frame(s.clip_verts(), s.primitive_mode.unwrap(), 0);
            }
        },
        Command::Clear { .. } => {
            reveal(State::clear);
        },
        Command::TexParameteri { .. } => {
            reveal(State::tex_parameter);
        },
        _ => {},
    }
}

/// The depth of the matrix stack after commands that all went through, none
/// of them a call of a list, is its depth before, plus the pushes, less the
/// pops. After a balanced sequence it is the depth before.
pub proof fn law_stack_depth(s: State, commands: Seq<Command>, fuel: nat)
    requires
        forall|i: int| 0 <= i < commands.len() ==> !(#[trigger] commands[i] is CallList),
        s.run(commands, fuel).fault.is_none(),
    ensures
        s.run(commands, fuel).state.stack.len() == s.stack.len() + net_pushes(commands),
        net_pushes(commands) == 0 ==> s.run(commands, fuel).state.stack.len() == s.stack.len(),
    decreases commands.len(),
{
    if commands.len() > 0 {
        let first = s.execute(commands[0], fuel);
        assert(!(commands[0] is CallList));
        lemma_stack_change(s, commands[0], fuel);
        let rest = commands.drop_first();
        assert forall|i: int| 0 <= i < rest.len() implies !(#[trigger] rest[i] is CallList) by {
            assert(rest[i] == commands[i + 1]);
        }
        law_stack_depth(first.state, rest, fuel);
    }
}

} // verus!
