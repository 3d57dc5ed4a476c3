use vstd::prelude::*;

verus! {

/// Everything that can go wrong while a line is resolved, parsed or run.
#[derive(Debug, PartialEq, Eq)]
pub enum ShellError {
    /// The `PATH` environment variable is not set.
    MissingPathVariable,
    /// No builtin and no executable carries this name.
    NotFound(String),
    /// The executable could not be started; holds the system's reason.
    SpawnFailed(String),
    /// The executable exited unsuccessfully; holds what it wrote to standard error.
    ExternalFailed(String),
    /// More than one `>` in a line.
    MultipleRedirections,
    /// A `>` with no path after it.
    MissingRedirectPath,
}

/// The report of a command that was not found.
pub open spec fn not_found_message(name: Seq<char>) -> Seq<char> {
    "Command not found: \""@ + name + "\""@
}

/// The text reported for an error.
pub open spec fn message_of(e: ShellError) -> Seq<char> {
    match e {
        ShellError::MissingPathVariable => "environment variable not found: PATH"@,
        ShellError::NotFound(name) => not_found_message(name@),
        ShellError::SpawnFailed(why) => "Execute external command error: "@ + why@,
        ShellError::ExternalFailed(err) => "Execute external command error: "@ + err@,
        ShellError::MultipleRedirections => "Multiple redirections are not supported."@,
        ShellError::MissingRedirectPath => "File path not found."@,
    }
}

impl ShellError {
    /// The text reported for this error.
    pub fn message(&self) -> (r: String)
        ensures
            r@ == message_of(*self),
    {
        match self {
            ShellError::MissingPathVariable => "environment variable not found: PATH".to_string(),
            ShellError::NotFound(name) => {
                let mut s = "Command not found: \"".to_string();
                s.append(name.as_str());
                s.append("\"");
                s
            },
            ShellError::SpawnFailed(why) => {
                let mut s = "Execute external command error: ".to_string();
                s.append(why.as_str());
                s
            },
            ShellError::ExternalFailed(err) => {
                let mut s = "Execute external command error: ".to_string();
                s.append(err.as_str());
                s
            },
            ShellError::MultipleRedirections => "Multiple redirections are not supported.".to_string(),
            ShellError::MissingRedirectPath => "File path not found.".to_string(),
        }
    }
}

/// The report of a command that was not found holds its name verbatim.
pub proof fn lemma_not_found_names_command(name: Seq<char>)
    ensures
        ({
            let k: int = "Command not found: \""@.len() as int;
            not_found_message(name).subrange(k, k + name.len()) == name
        }),
{
    reveal_strlit("Command not found: \"");
    reveal_strlit("\"");
    let k: int = "Command not found: \""@.len() as int;
    assert(not_found_message(name).subrange(k, k + name.len()) =~= name);
}

} // verus!
