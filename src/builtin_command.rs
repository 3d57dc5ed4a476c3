use vstd::prelude::*;
use crate::text::{join_spaces, join_with_spaces, same_text, texts};

verus! {

/// The commands the shell runs itself.
#[derive(PartialEq, Eq, Structural, Clone, Copy, Debug)]
pub enum BuiltinCommand {
    Echo,
    Exit,
}

/// The builtin a name stands for, if any.
pub open spec fn builtin_of(name: Seq<char>) -> Option<BuiltinCommand> {
    if name == "echo"@ {
        Some(BuiltinCommand::Echo)
    } else if name == "exit"@ {
        Some(BuiltinCommand::Exit)
    } else {
        None
    }
}

/// What running a builtin comes to.
#[derive(Debug, PartialEq, Eq)]
pub enum BuiltinOutcome {
    /// The text it produced.
    Text(String),
    /// The process is to end with this status.
    Terminate(i32),
}

impl BuiltinCommand {
    /// Recognises the name of a builtin.
    pub fn parse(s: &str) -> (r: Option<Self>)
        ensures
            r == builtin_of(s@),
    {
        if same_text(s, "echo") {
            Some(BuiltinCommand::Echo)
        } else if same_text(s, "exit") {
            Some(BuiltinCommand::Exit)
        } else {
            None
        }
    }

    /// Runs a builtin on its arguments: `echo` gives them back joined by single
    /// spaces, `exit` asks for the process to end with status 0.
    pub fn execute(self, args: &Vec<String>) -> (r: BuiltinOutcome)
        ensures
            self == BuiltinCommand::Echo ==> r is Text && r->Text_0@ == join_spaces(texts(args@)),
            self == BuiltinCommand::Exit ==> r == BuiltinOutcome::Terminate(0),
    {
        match self {
            BuiltinCommand::Echo => BuiltinOutcome::Text(join_with_spaces(args)),
            BuiltinCommand::Exit => BuiltinOutcome::Terminate(0),
        }
    }
}

} // verus!
