use vstd::prelude::*;

pub mod builtin_command;
pub mod command;
pub mod error;
pub mod external_command;
pub mod output;
pub mod text;

use crate::builtin_command::{builtin_of, BuiltinCommand};
use crate::command::{Command, Execution};
use crate::error::{message_of, not_found_message, ShellError};
use crate::external_command::{answers, opt_view, resolve, ExternalCommand, ProcessRun};
use crate::output::{emitted, output_view, redirect_error, redirects, Emission, Output};
use crate::text::{join_spaces, texts, tokenize, words};

verus! {

/// What is to be done for one line of input.
#[derive(Debug, PartialEq, Eq)]
pub enum LineAction {
    /// Nothing: the line is blank or a comment.
    Skip,
    /// The shell cannot go on.
    Fatal(ShellError),
    /// Text to be sent, which finishes the line.
    Emit(Emission),
    /// The process is to end with this status.
    Terminate(i32),
    /// A child process is to be run; its result then goes to `output`.
    Run { command: ExternalCommand, args: Vec<String>, output: Output },
}

/// The line is a comment.
pub open spec fn is_comment(line: Seq<char>) -> bool {
    line.len() > 0 && line[0] == '#'
}

/// What `interpret_line` does with a line whose command is `name` and whose
/// other words are `rest`, where `name` resolves as `res`.
pub open spec fn acts_on(r: LineAction, name: Seq<char>, rest: Seq<Seq<char>>, res: Option<Option<Seq<char>>>) -> bool {
    if builtin_of(name) is None && res is None {
        r == LineAction::Fatal(ShellError::MissingPathVariable)
    } else if redirect_error(rest) is Some {
        r is Emit && emitted(r->Emit_0, None, message_of(redirect_error(rest)->0), true)
    } else {
        forall|out: Option<Seq<char>>, kept: Seq<Seq<char>>|
            #[trigger] redirects(rest, out, kept) ==> match builtin_of(name) {
                Some(BuiltinCommand::Echo) => r is Emit && emitted(r->Emit_0, out, join_spaces(kept), false),
                Some(BuiltinCommand::Exit) => r == LineAction::Terminate(0),
                None => match res->0 {
                    Some(p) => r is Run && r->Run_command.path@ == p && texts(r->Run_args@) == kept
                        && output_view(r->Run_output) == out,
                    None => r is Emit && emitted(r->Emit_0, out, not_found_message(name), true),
                },
            }
    }
}

/// Works out what to do with one line of input. `path_var` is the `PATH`
/// list, if set, and `is_present` tells whether a path exists. The command is
/// resolved first, then the redirection taken out of its arguments, then the
/// command run as far as the shell itself can run it.
pub fn interpret_line<F: Fn(&str) -> bool>(line: &str, path_var: Option<&str>, is_present: F) -> (r:
    LineAction)
    requires
        forall|p: &str| is_present.requires((p,)),
    ensures
        is_comment(line@) || words(line@).len() == 0 ==> r is Skip,
        !is_comment(line@) && words(line@).len() > 0 ==> forall|fs: Set<Seq<char>>|
            answers(is_present, fs) ==> acts_on(
                r,
                words(line@)[0],
                words(line@).drop_first(),
                resolve(words(line@)[0], opt_view(path_var), fs),
            ),
{
    if line.unicode_len() > 0 && line.get_char(0) == '#' {
        return LineAction::Skip;
    }
    let elements = tokenize(line);
    if elements.len() == 0 {
        return LineAction::Skip;
    }
    let ghost w = words(line@);
    let mut rest: Vec<String> = Vec::new();
    let mut k: usize = 1;
    while k < elements.len()
        invariant
            1 <= k <= elements@.len(),
            texts(rest@) == texts(elements@).subrange(1, k as int),
        decreases elements@.len() - k,
    {
        let t = elements[k].clone();
        proof { crate::text::lemma_texts_push(rest@, t); }
        rest.push(t);
        assert(texts(rest@) =~= texts(elements@).subrange(1, k + 1));
        k = k + 1;
    }
    assert(texts(rest@) =~= w.drop_first());
    assert(elements@[0]@ == w[0]);
    let command = match Command::find(elements[0].as_str(), path_var, is_present) {
        Ok(c) => c,
        Err(e) => return LineAction::Fatal(e),
    };
    let (output, args) = match Output::parse_args(&rest) {
        Ok(p) => p,
        Err(e) => return LineAction::Emit(Output::Stdout.write_error(e)),
    };
    match command.execute(&args) {
        Execution::Done(Ok(text)) => LineAction::Emit(output.write(text)),
        Execution::Done(Err(e)) => LineAction::Emit(output.write_error(e)),
        Execution::Terminate(code) => LineAction::Terminate(code),
        Execution::Run(c, a) => LineAction::Run { command: c, args: a, output },
    }
}

/// What the result of a child process sends where.
pub fn finish_run(output: &Output, run: ProcessRun) -> (r: Emission)
    ensures
        match run {
            ProcessRun::SpawnFailed(why) => emitted(
                r,
                output_view(*output),
                message_of(ShellError::SpawnFailed(why)),
                true,
            ),
            ProcessRun::Exited { success, stdout, stderr } => if success {
                emitted(r, output_view(*output), stdout@, false)
            } else {
                emitted(r, output_view(*output), message_of(ShellError::ExternalFailed(stderr)), true)
            },
        },
{
    match ExternalCommand::finish(run) {
        Ok(text) => output.write(text),
        Err(e) => output.write_error(e),
    }
}

} // verus!
