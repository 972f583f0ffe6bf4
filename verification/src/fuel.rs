//! How the limit on the nesting of display lists bears on what commands do:
//! a run that stays within a limit is the same under every greater one.
use vstd::prelude::*;
use crate::command::{Command, Fault};
use crate::state::State;

verus! {

/// A command does the same with more nesting left, unless it was refused
/// for nesting too deep.
pub proof fn lemma_execute_more_fuel(s: State, command: Command, fuel: nat, more: nat)
    requires
        fuel <= more,
        s.execute(command, fuel).fault != Some(Fault::ListNestingTooDeep),
    ensures
        s.execute(command, more) == s.execute(command, fuel),
    decreases fuel, 0nat,
{
    match command {
        Command::CallList { list } => {
            if s.has_list(list) {
                lemma_run_more_fuel(s, s.list(list), (fuel - 1) as nat, (more - 1) as nat);
            }
        },
        _ => {},
    }
}

/// Commands do the same with more nesting left, unless one was refused for
/// nesting too deep.
pub proof fn lemma_run_more_fuel(s: State, commands: Seq<Command>, fuel: nat, more: nat)
    requires
        fuel <= more,
        s.run(commands, fuel).fault != Some(Fault::ListNestingTooDeep),
    ensures
        s.run(commands, more) == s.run(commands, fuel),
    decreases fuel, 1 + commands.len(),
{
    if commands.len() > 0 {
        let first = s.execute(commands[0], fuel);
        lemma_execute_more_fuel(s, commands[0], fuel, more);
        if first.fault.is_none() {
            lemma_run_more_fuel(first.state, commands.drop_first(), fuel, more);
        }
    }
}

/// Carrying out two sequences of commands one after the other is carrying
/// out the first and, where it goes through, the second from where the first
/// left off.
pub proof fn lemma_run_concat(s: State, first: Seq<Command>, second: Seq<Command>, fuel: nat)
    ensures
        s.run(first + second, fuel) == if s.run(first, fuel).fault.is_some() {
            s.run(first, fuel)
        } else {
            s.run(first, fuel).state.run(second, fuel)
        },
    decreases first.len(),
{
    if first.len() == 0 {
        assert(first + second =~= second);
    } else {
        let head = s.execute(first[0], fuel);
        assert((first + second)[0] == first[0]);
        assert((first + second).drop_first() =~= first.drop_first() + second);
        if head.fault.is_none() {
            lemma_run_concat(head.state, first.drop_first(), second, fuel);
        }
    }
}

} // verus!
