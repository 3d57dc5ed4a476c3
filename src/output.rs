use vstd::prelude::*;
use crate::error::{message_of, ShellError};
use crate::text::{copy_prefix, same_text, texts};

verus! {

/// Where the result of a line goes.
#[derive(Debug, PartialEq, Eq)]
pub enum Output {
    /// The terminal: standard output for results, standard error for errors.
    Stdout,
    /// A file, overwritten with the result or the error.
    File(String),
}

/// A stream that text can be sent to.
#[derive(Debug, PartialEq, Eq)]
pub enum Stream {
    Stdout,
    Stderr,
    File(String),
}

/// Text to be sent to a stream, in full.
#[derive(Debug, PartialEq, Eq)]
pub struct Emission {
    pub stream: Stream,
    pub text: String,
}

/// The redirection token.
pub open spec fn is_mark(t: Seq<char>) -> bool {
    t == seq!['>']
}

/// How many redirection tokens `a` holds.
pub open spec fn count_marks(a: Seq<Seq<char>>) -> nat
    decreases a.len(),
{
    if a.len() == 0 {
        0
    } else {
        count_marks(a.drop_last()) + if is_mark(a.last()) { 1nat } else { 0nat }
    }
}

/// `i` is the place of the first redirection token of `a`.
pub open spec fn first_mark_at(a: Seq<Seq<char>>, i: int) -> bool {
    0 <= i < a.len() && is_mark(a[i]) && forall|j: int| 0 <= j < i ==> !is_mark(a[j])
}

/// `o` sends to the file `path`.
pub open spec fn sends_to_file(o: Output, path: Seq<char>) -> bool {
    o is File && o->File_0@ == path
}

/// `s` is the file `path`.
pub open spec fn is_file_stream(s: Stream, path: Seq<char>) -> bool {
    s is File && s->File_0@ == path
}

/// The file an output names, if any.
pub open spec fn output_view(o: Output) -> Option<Seq<char>> {
    match o {
        Output::Stdout => None,
        Output::File(p) => Some(p@),
    }
}

/// Taking the redirection out of `a` leaves the output `out` and the arguments `kept`.
pub open spec fn redirects(a: Seq<Seq<char>>, out: Option<Seq<char>>, kept: Seq<Seq<char>>) -> bool {
    ||| count_marks(a) == 0 && out is None && kept == a
    ||| count_marks(a) == 1 && forall|i: int|
        first_mark_at(a, i) ==> i + 1 < a.len() && out == Some(a[i + 1]) && kept == a.take(i)
}

/// The error that taking the redirection out of `a` meets, if any.
pub open spec fn redirect_error(a: Seq<Seq<char>>) -> Option<ShellError> {
    if count_marks(a) >= 2 {
        Some(ShellError::MultipleRedirections)
    } else if count_marks(a) == 1 && forall|i: int| first_mark_at(a, i) ==> i + 1 >= a.len() {
        Some(ShellError::MissingRedirectPath)
    } else {
        None
    }
}

/// `e` sends `text` to the output `out`: to the file as it is, or to the
/// terminal with a line break, on standard error when `is_error`.
pub open spec fn emitted(e: Emission, out: Option<Seq<char>>, text: Seq<char>, is_error: bool) -> bool {
    match out {
        None => (if is_error {
            e.stream is Stderr
        } else {
            e.stream is Stdout
        }) && e.text@ == text + seq!['\n'],
        Some(p) => is_file_stream(e.stream, p) && e.text@ == text,
    }
}

impl Output {
    /// Takes the redirection out of the arguments of a command. With no `>` the
    /// output is the terminal and the arguments stay as they are. With one, the
    /// token after it names the file and the arguments are those before it;
    /// tokens after the file's name are dropped. Two or more, or a `>` at the
    /// end, are errors.
    pub fn parse_args(args: &Vec<String>) -> (r: Result<(Output, Vec<String>), ShellError>)
        ensures
            r is Err <==> redirect_error(texts(args@)) is Some,
            match r {
                Ok(p) => redirects(texts(args@), output_view(p.0), texts(p.1@)),
                Err(e) => redirect_error(texts(args@)) == Some(e),
            },
    {
        let ghost a = texts(args@);
        let mut count: usize = 0;
        let mut first: usize = 0;
        let mut i: usize = 0;
        while i < args.len()
            invariant
                a == texts(args@),
                i <= args@.len(),
                count == count_marks(a.take(i as int)),
                count <= i,
                count == 0 ==> forall|j: int| 0 <= j < i ==> !is_mark(a[j]),
                count > 0 ==> first_mark_at(a, first as int) && first < i,
            decreases args@.len() - i,
        {
            proof {
                reveal_strlit(">");
                assert(a.take(i + 1).drop_last() == a.take(i as int));
                assert(a.take(i + 1).last() == args@[i as int]@);
                assert(">"@ =~= seq!['>']);
            }
            if same_text(args[i].as_str(), ">") {
                if count == 0 {
                    first = i;
                }
                count = count + 1;
            }
            i = i + 1;
        }
        assert(a.take(args@.len() as int) == a);
        if count == 0 {
            let rest = copy_prefix(args, args.len());
            assert(texts(args@).take(args@.len() as int) == texts(args@));
            Ok((Output::Stdout, rest))
        } else if count == 1 {
            assert(forall|j: int| first_mark_at(a, j) ==> j == first);
            if first + 1 < args.len() {
                let path = args[first + 1].clone();
                let rest = copy_prefix(args, first);
                Ok((Output::File(path), rest))
            } else {
                Err(ShellError::MissingRedirectPath)
            }
        } else {
            Err(ShellError::MultipleRedirections)
        }
    }

    /// The same as `parse_args`, for the tokens that follow a command's name.
    pub fn from_args(args: &Vec<String>) -> (r: Result<(Output, Vec<String>), ShellError>)
        ensures
            r is Err <==> redirect_error(texts(args@)) is Some,
            match r {
                Ok(p) => redirects(texts(args@), output_view(p.0), texts(p.1@)),
                Err(e) => redirect_error(texts(args@)) == Some(e),
            },
    {
        Output::parse_args(args)
    }

    /// What writing a result sends where: to the terminal with a line break
    /// after it, or to the file exactly as it is.
    pub fn write(&self, content: String) -> (r: Emission)
        ensures
            emitted(r, output_view(*self), content@, false),
    {
        match self {
            Output::Stdout => {
                let mut text = content;
                proof {
                    reveal_strlit("\n");
                    assert("\n"@ =~= seq!['\n']);
                }
                text.append("\n");
                Emission { stream: Stream::Stdout, text }
            },
            Output::File(path) => Emission { stream: Stream::File(path.clone()), text: content },
        }
    }

    /// What writing an error sends where: its text to standard error with a
    /// line break after it, or to the file exactly as it is.
    pub fn write_error(&self, error: ShellError) -> (r: Emission)
        ensures
            emitted(r, output_view(*self), message_of(error), true),
    {
        let mut text = error.message();
        match self {
            Output::Stdout => {
                proof {
                    reveal_strlit("\n");
                    assert("\n"@ =~= seq!['\n']);
                }
                text.append("\n");
                Emission { stream: Stream::Stderr, text }
            },
            Output::File(path) => Emission { stream: Stream::File(path.clone()), text },
        }
    }
}

} // verus!
