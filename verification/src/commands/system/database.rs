//! Commands about the database of an otel-worker.
use vstd::prelude::*;

verus! {

/// Commands about the database.
#[derive(Debug, Clone, Copy, PartialEq, Eq, Structural)]
pub enum Command {
    /// Delete the database files from the otel-worker directory.
    Delete,
}

#[derive(Debug)]
pub struct Args<P> {
    pub command: Command,
    /// The otel-worker directory, where one is asked for.
    pub otel_worker_directory: Option<P>,
}

/// What a command needs to be done.
#[derive(Debug)]
pub enum DatabaseAction<P> {
    /// Delete the database of the otel-worker directory that is asked for, or
    /// else of the one that is found.
    Delete { otel_worker_directory: Option<P> },
}

/// The action is what the command needs to be done.
pub open spec fn is_action_of<P>(action: DatabaseAction<P>, args: Args<P>) -> bool {
    match args.command {
        Command::Delete => action == (DatabaseAction::Delete {
            otel_worker_directory: args.otel_worker_directory,
        }),
    }
}

/// What a command needs to be done.
pub fn handle_command<P>(args: Args<P>) -> (action: DatabaseAction<P>)
    ensures
        is_action_of(action, args),
{
    match args.command {
        Command::Delete => DatabaseAction::Delete {
            otel_worker_directory: args.otel_worker_directory,
        },
    }
}

/// What is done to delete a database.
#[derive(Debug)]
pub enum DeletePlan<P> {
    /// The database file is removed from this directory.
    Remove(P),
    /// Nothing: there is no otel-worker directory.
    Skip,
}

/// From which directory the database is deleted: the one that is asked for, else
/// the one that was found. Where there is none nothing is deleted.
pub fn handle_delete_database<P>(otel_worker_directory: Option<P>, found: Option<P>) -> (plan:
    DeletePlan<P>)
    ensures
        match otel_worker_directory {
            Some(directory) => plan == DeletePlan::Remove(directory),
            None => match found {
                Some(directory) => plan == DeletePlan::Remove(directory),
                None => plan == DeletePlan::<P>::Skip,
            },
        },
{
    match otel_worker_directory {
        Some(directory) => DeletePlan::Remove(directory),
        None => match found {
            Some(directory) => DeletePlan::Remove(directory),
            None => DeletePlan::Skip,
        },
    }
}

/// Deleting the database goes to the directory that was asked for, and to no other.
pub proof fn law_delete_keeps_its_directory<P>(action: DatabaseAction<P>, args: Args<P>)
    requires
        is_action_of(action, args),
    ensures
        args.command == Command::Delete,
        action matches DatabaseAction::Delete { otel_worker_directory } && otel_worker_directory
            == args.otel_worker_directory,
{
}

} // verus!
