//! The general commands. Each takes the state that its caller holds the lock
//! of, and none can fail: the `Result` is there for the shell's sake.

use crate::error::Error;
use crate::state::State;
use vstd::prelude::*;
use vstd::string::StringExecFns;

verus! {

/// The confirmation that greeting `name` is answered with.
pub open spec fn confirmation(name: Seq<char>) -> Seq<char> {
    "Hello, "@ + name + "! You've been greeted from Rust!"@
}

/// Records `name` and answers with its confirmation.
pub fn greet(name: &str, state: &mut State) -> (r: Result<String, Error>)
    ensures
        r is Ok,
        r->Ok_0@ == confirmation(name@),
        final(state)@ == old(state)@.record(name@),
{
    state.record_greeting(name);
    let mut answer = String::from_str("Hello, ");
    answer.append(name);
    answer.append("! You've been greeted from Rust!");
    Ok(answer)
}

/// All recorded greetings, oldest first.
pub fn get_greetings(state: &State) -> (r: Result<Vec<String>, Error>)
    ensures
        r is Ok,
        crate::state::names_of(r->Ok_0@) == state@.greetings,
{
    Ok(state.list_greetings())
}

/// Forgets all recorded greetings.
pub fn clear_greetings(state: &mut State) -> (r: Result<(), Error>)
    ensures
        r is Ok,
        final(state)@ == old(state)@.clear(),
{
    state.clear_greetings();
    Ok(())
}

/// Makes `new_theme` the theme.
pub fn update_theme(new_theme: String, state: &mut State) -> (r: Result<(), Error>)
    ensures
        r is Ok,
        final(state)@ == old(state)@.with_theme(new_theme@),
{
    state.set_theme(new_theme);
    Ok(())
}

/// The current theme: empty if none was ever set.
pub fn get_theme(state: &State) -> (r: Result<String, Error>)
    ensures
        r is Ok,
        r->Ok_0@ == state@.theme,
{
    Ok(state.get_theme())
}

} // verus!
