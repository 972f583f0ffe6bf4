//! What holds of display lists: recording keeps a command by value, and
//! calling a list replays it.
use vstd::prelude::*;
use crate::command::{Command, Fault, MAX_LIST_NESTING};
use crate::frame::lemma_execute_frame;
use crate::fuel::lemma_run_more_fuel;
use crate::state::State;

verus! {

/// With no list being compiled, issuing commands is carrying them out.
pub proof fn lemma_issue_all_immediate(s: State, commands: Seq<Command>)
    requires
        s.new_list.is_none(),
    ensures
        s.issue_all(commands) == s.run(commands, MAX_LIST_NESTING as nat),
    decreases commands.len(),
{
    reveal(State::issue);
    if commands.len() > 0 {
        let first = s.issue(commands[0]);
        lemma_execute_frame(s, commands[0], MAX_LIST_NESTING as nat);
        if first.fault.is_none() {
            lemma_issue_all_immediate(first.state, commands.drop_first());
        }
    }
}

/// Calling a display list does what issuing its commands one by one does,
/// to the state and to the buffers, and is refused where they are. This
/// holds with no list being compiled and unless the call is refused for
/// nesting too deep, which the commands issued singly, one level higher,
/// need not be.
pub proof fn law_call_list_replays(s: State, list: u32)
    requires
        s.new_list.is_none(),
        s.has_list(list),
        s.issue(Command::CallList { list }).fault != Some(Fault::ListNestingTooDeep),
    ensures
        s.issue_all(s.list(list)) == s.issue(Command::CallList { list }),
{
    reveal(State::issue);
    lemma_issue_all_immediate(s, s.list(list));
    lemma_run_more_fuel(
        s,
        s.list(list),
        (MAX_LIST_NESTING - 1) as nat,
        MAX_LIST_NESTING as nat,
    );
}

/// Recording is by value: a command issued while a list is compiled is the
/// list's last command afterwards, and the commands before it are as they
/// were.
pub proof fn law_recording_copies(s: State, command: Command)
    requires
        s.wf(),
        s.new_list.is_some(),
        s.issue(command).fault.is_none(),
    ensures
        ({
            let name = s.new_list.unwrap();
            let after = s.issue(command).state;
            &&& after.has_list(name)
            &&& after.list(name) == s.list(name).push(command)
        }),
{
    reveal(State::issue);
    lemma_execute_frame(s, command, MAX_LIST_NESTING as nat);
}

} // verus!
