//! Commands for work on the project itself.
use vstd::prelude::*;

verus! {

/// Commands for work on the project itself. What generating schemas takes is up
/// to that.
#[derive(Debug)]
pub enum Command<S> {
    GenerateSchemas(S),
}

#[derive(Debug)]
pub struct Args<S> {
    pub command: Command<S>,
}

/// What a command comes to.
#[derive(Debug)]
pub enum Action<S> {
    /// Schemas are generated.
    GenerateSchemas(S),
}

/// What a command comes to.
pub fn handle_command<S>(args: Args<S>) -> (action: Action<S>)
    ensures
        match args.command {
            Command::GenerateSchemas(args) => action == Action::GenerateSchemas(args),
        },
{
    match args.command {
        Command::GenerateSchemas(args) => Action::GenerateSchemas(args),
    }
}

} // verus!
