//! Commands about the machine that an otel-worker runs on.
use crate::text::join;
use vstd::prelude::*;

pub mod database;

verus! {

/// Commands about the machine that an otel-worker runs on.
#[derive(Debug)]
pub enum Command<P> {
    /// Low level interaction with the database.
    Database(database::Args<P>),
    /// Print the path to the otel-worker directory.
    OtelWorkerDirectory,
}

#[derive(Debug)]
pub struct Args<P> {
    pub command: Command<P>,
}

/// What a command needs to be done.
#[derive(Debug)]
pub enum SystemAction<P> {
    Database(database::DatabaseAction<P>),
    /// Say where the otel-worker directory is that is found from the current
    /// directory.
    ReportDirectory,
}

/// The action is what the command needs to be done.
pub open spec fn is_action_of<P>(action: SystemAction<P>, args: Args<P>) -> bool {
    match args.command {
        Command::Database(args) => {
            &&& action matches SystemAction::Database(action)
            &&& database::is_action_of(action, args)
        },
        Command::OtelWorkerDirectory => action is ReportDirectory,
    }
}

/// What a command needs to be done.
pub fn handle_command<P>(args: Args<P>) -> (action: SystemAction<P>)
    ensures
        is_action_of(action, args),
{
    match args.command {
        Command::Database(args) => SystemAction::Database(database::handle_command(args)),
        Command::OtelWorkerDirectory => SystemAction::ReportDirectory,
    }
}

/// Where the otel-worker directory is, in words.
pub fn handle_otel_worker_directory_command(directory: Option<String>) -> (report: String)
    ensures
        report@ == match directory {
            Some(path) => "otel worker directory found: "@ + path@,
            None => "otel worker directory not found"@,
        },
{
    match directory {
        Some(path) => join("otel worker directory found: ", path.as_str()),
        None => "otel worker directory not found".to_owned(),
    }
}

/// A command about the database comes to what is done to the database, with the
/// directory that was asked for, and the other one to a report.
pub proof fn law_commands_come_to_their_own_action<P>(action: SystemAction<P>, args: Args<P>)
    requires
        is_action_of(action, args),
    ensures
        args.command is OtelWorkerDirectory <==> action is ReportDirectory,
        args.command matches Command::Database(database) ==> (action matches SystemAction::Database(
            database::DatabaseAction::Delete { otel_worker_directory },
        ) && otel_worker_directory == database.otel_worker_directory),
{
}

} // verus!
