use vstd::prelude::*;
use crate::builtin_command::{builtin_of, BuiltinCommand, BuiltinOutcome};
use crate::error::{lemma_not_found_names_command, not_found_message, ShellError};
use crate::external_command::{
    answers, lemma_unlisted_name_not_found, opt_view, resolve, ExternalCommand,
};
use crate::text::{join_path, split_colons};
use crate::text::{copy_prefix, join_spaces, texts};

verus! {

/// What a command name stands for.
#[derive(Debug, PartialEq, Eq)]
pub enum Command {
    Builtin(BuiltinCommand),
    External(ExternalCommand),
    NotFound(String),
}

/// What running a command comes to.
#[derive(Debug, PartialEq, Eq)]
pub enum Execution {
    /// Its result: text, or an error.
    Done(Result<String, ShellError>),
    /// The process is to end with this status.
    Terminate(i32),
    /// A child process is to be run, at this path with these arguments.
    Run(ExternalCommand, Vec<String>),
}

/// What `find` returned agrees with `name` and its resolution `res`.
pub open spec fn command_as(r: Result<Command, ShellError>, name: Seq<char>, res: Option<Option<Seq<char>>>) -> bool {
    match builtin_of(name) {
        Some(b) => r == Ok::<Command, ShellError>(Command::Builtin(b)),
        None => match res {
            None => r == Err::<Command, ShellError>(ShellError::MissingPathVariable),
            Some(None) => r is Ok && r->Ok_0 is NotFound && r->Ok_0->NotFound_0@ == name,
            Some(Some(p)) => r is Ok && r->Ok_0 is External && r->Ok_0->External_0.path@ == p,
        },
    }
}

impl Command {
    /// Resolves a command name: a builtin first, else an executable, else not
    /// found. Fails only where `PATH` is needed and not set.
    pub fn find<F: Fn(&str) -> bool>(command: &str, path_var: Option<&str>, is_present: F) -> (r:
        Result<Command, ShellError>)
        requires
            forall|p: &str| is_present.requires((p,)),
        ensures
            forall|fs: Set<Seq<char>>|
                answers(is_present, fs) ==> command_as(r, command@, resolve(command@, opt_view(path_var), fs)),
    {
        match BuiltinCommand::parse(command) {
            Some(b) => Ok(Command::Builtin(b)),
            None => match ExternalCommand::find_command(command, path_var, is_present) {
                Err(e) => Err(e),
                Ok(Some(ext)) => Ok(Command::External(ext)),
                Ok(None) => Ok(Command::NotFound(command.to_string())),
            },
        }
    }

    /// Runs a command on its arguments, as far as the shell itself can: a
    /// builtin to its end, a name not found to its error; an executable is
    /// handed back to be run.
    pub fn execute(self, args: &Vec<String>) -> (r: Execution)
        ensures
            match self {
                Command::Builtin(BuiltinCommand::Echo) => r is Done && r->Done_0 is Ok
                    && r->Done_0->Ok_0@ == join_spaces(texts(args@)),
                Command::Builtin(BuiltinCommand::Exit) => r == Execution::Terminate(0),
                Command::External(e) => r is Run && r->Run_0.path@ == e.path@ && texts(r->Run_1@)
                    == texts(args@),
                Command::NotFound(n) => r == Execution::Done(Err(ShellError::NotFound(n))),
            },
    {
        match self {
            Command::Builtin(b) => match b.execute(args) {
                BuiltinOutcome::Text(t) => Execution::Done(Ok(t)),
                BuiltinOutcome::Terminate(code) => Execution::Terminate(code),
            },
            Command::External(e) => {
                let a = copy_prefix(args, args.len());
                assert(texts(args@).take(args@.len() as int) == texts(args@));
                Execution::Run(e, a)
            },
            Command::NotFound(n) => Execution::Done(Err(ShellError::NotFound(n))),
        }
    }
}

/// A name that is no builtin, has no `/` and is in no directory of `PATH` is
/// found as not found, and its report holds the name verbatim.
pub proof fn lemma_unlisted_name_reported(
    r: Result<Command, ShellError>,
    name: Seq<char>,
    path_var: Seq<char>,
    fs: Set<Seq<char>>,
)
    requires
        builtin_of(name) is None,
        !name.contains('/'),
        forall|d: Seq<char>| split_colons(path_var).contains(d) ==> !fs.contains(#[trigger] join_path(d, name)),
        command_as(r, name, resolve(name, Some(path_var), fs)),
    ensures
        r is Ok && r->Ok_0 is NotFound && r->Ok_0->NotFound_0@ == name,
        ({
            let k: int = "Command not found: \""@.len() as int;
            not_found_message(name).subrange(k, k + name.len()) == name
        }),
{
    lemma_unlisted_name_not_found(name, path_var, fs);
    lemma_not_found_names_command(name);
}

} // verus!
