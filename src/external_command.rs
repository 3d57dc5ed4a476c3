use vstd::prelude::*;
use crate::error::ShellError;
use crate::text::{has_char, join_dir, join_path, split_at_colons, split_colons, texts};

verus! {

/// A command run as a child process, by the path it was found at.
#[derive(Debug, PartialEq, Eq)]
pub struct ExternalCommand {
    pub path: String,
}

/// How a child process ended, as seen by the shell.
#[derive(Debug, PartialEq, Eq)]
pub enum ProcessRun {
    /// It could not be started; holds the system's reason.
    SpawnFailed(String),
    /// It ran to its end, with what it wrote to its two streams.
    Exited { success: bool, stdout: String, stderr: String },
}

/// The paths at which the `PATH` list `path_var` looks for `name`, in order.
pub open spec fn candidates(name: Seq<char>, path_var: Seq<char>) -> Seq<Seq<char>> {
    split_colons(path_var).map_values(|d: Seq<char>| join_path(d, name))
}

/// The first of `c` that is among the present paths `fs`.
pub open spec fn first_present(c: Seq<Seq<char>>, fs: Set<Seq<char>>) -> Option<Seq<char>>
    decreases c.len(),
{
    if c.len() == 0 {
        None
    } else if fs.contains(c[0]) {
        Some(c[0])
    } else {
        first_present(c.drop_first(), fs)
    }
}

/// Where `name` resolves to when exactly the paths `fs` exist: `None` when the
/// `PATH` list was needed and is missing, `Some(None)` when nothing was found.
/// A name with a `/` is taken as a path first, without looking at `PATH`.
pub open spec fn resolve(name: Seq<char>, path_var: Option<Seq<char>>, fs: Set<Seq<char>>) -> Option<
    Option<Seq<char>>,
> {
    if name.contains('/') && fs.contains(name) {
        Some(Some(name))
    } else {
        match path_var {
            None => None,
            Some(p) => Some(first_present(candidates(name, p), fs)),
        }
    }
}

/// The check `f` answers, for every path, whether it is among `fs`.
pub open spec fn answers<F: Fn(&str) -> bool>(f: F, fs: Set<Seq<char>>) -> bool {
    forall|p: &str, b: bool| #[trigger] f.ensures((p,), b) ==> b == fs.contains(p@)
}

/// The view of an optional string.
pub open spec fn opt_view(o: Option<&str>) -> Option<Seq<char>> {
    match o {
        Some(s) => Some(s@),
        None => None,
    }
}

/// What `find_command` returned agrees with the resolution `res`.
pub open spec fn found_as(
    r: Result<Option<ExternalCommand>, ShellError>,
    res: Option<Option<Seq<char>>>,
) -> bool {
    match res {
        None => r == Err::<Option<ExternalCommand>, ShellError>(ShellError::MissingPathVariable),
        Some(None) => r is Ok && r->Ok_0 is None,
        Some(Some(p)) => r is Ok && r->Ok_0 is Some && r->Ok_0->Some_0.path@ == p,
    }
}

proof fn lemma_first_present_skip(c: Seq<Seq<char>>, fs: Set<Seq<char>>, i: int)
    requires
        0 <= i <= c.len(),
        forall|j: int| 0 <= j < i ==> !fs.contains(c[j]),
    ensures
        first_present(c, fs) == first_present(c.skip(i), fs),
    decreases i,
{
    if i == 0 {
        assert(c.skip(0) == c);
    } else {
        assert(c.skip(1) == c.drop_first());
        lemma_first_present_skip(c.drop_first(), fs, i - 1);
        assert(c.drop_first().skip(i - 1) == c.skip(i));
    }
}

impl ExternalCommand {
    /// Looks `command` up as an executable. `is_present` tells whether a path
    /// exists; `path_var` is the `PATH` list, if set. A name with a `/` is tried
    /// as a path first; then each directory of `PATH` in turn, the first hit winning.
    pub fn find_command<F: Fn(&str) -> bool>(
        command: &str,
        path_var: Option<&str>,
        is_present: F,
    ) -> (r: Result<Option<ExternalCommand>, ShellError>)
        requires
            forall|p: &str| is_present.requires((p,)),
        ensures
            forall|fs: Set<Seq<char>>|
                answers(is_present, fs) ==> found_as(r, resolve(command@, opt_view(path_var), fs)),
    {
        let literal = has_char(command, '/');
        if literal {
            if is_present(command) {
                return Ok(Some(ExternalCommand { path: command.to_string() }));
            }
        }
        assert(forall|fs: Set<Seq<char>>|
            answers(is_present, fs) ==> !(command@.contains('/') && fs.contains(command@)));
        match path_var {
            None => Err(ShellError::MissingPathVariable),
            Some(pv) => {
                let dirs = split_at_colons(pv);
                let ghost c = candidates(command@, pv@);
                assert(c.len() == dirs@.len());
                let mut i: usize = 0;
                while i < dirs.len()
                    invariant
                        c == candidates(command@, pv@),
                        path_var == Some(pv),
                        texts(dirs@) == split_colons(pv@),
                        c.len() == dirs@.len(),
                        i <= dirs@.len(),
                        forall|fs: Set<Seq<char>>|
                            answers(is_present, fs) ==> forall|j: int| 0 <= j < i ==> !fs.contains(c[j]),
                        forall|p: &str| is_present.requires((p,)),
                        forall|fs: Set<Seq<char>>|
                            answers(is_present, fs) ==> !(command@.contains('/') && fs.contains(
                                command@,
                            )),
                    decreases dirs@.len() - i,
                {
                    let path = join_dir(dirs[i].as_str(), command);
                    assert(path@ == c[i as int]);
                    if is_present(path.as_str()) {
                        proof {
                            assert forall|fs: Set<Seq<char>>| answers(is_present, fs) implies first_present(c, fs)
                                == Some(c[i as int]) by {
                                lemma_first_present_skip(c, fs, i as int);
                                assert(fs.contains(c[i as int]));
                                assert(c.skip(i as int)[0] == c[i as int]);
                            }
                        }
                        return Ok(Some(ExternalCommand { path }));
                    }
                    i = i + 1;
                }
                proof {
                    assert forall|fs: Set<Seq<char>>| answers(is_present, fs) implies first_present(c, fs)
                        is None by {
                        lemma_first_present_skip(c, fs, c.len() as int);
                    }
                }
                Ok(None)
            },
        }
    }

    /// What a finished child process comes to: its standard output when it
    /// succeeded, else an error with its standard error, or the reason it could
    /// not start.
    pub fn finish(run: ProcessRun) -> (r: Result<String, ShellError>)
        ensures
            match run {
                ProcessRun::SpawnFailed(why) => r == Err::<String, ShellError>(
                    ShellError::SpawnFailed(why),
                ),
                ProcessRun::Exited { success, stdout, stderr } => if success {
                    r == Ok::<String, ShellError>(stdout)
                } else {
                    r == Err::<String, ShellError>(ShellError::ExternalFailed(stderr))
                },
            },
    {
        match run {
            ProcessRun::SpawnFailed(why) => Err(ShellError::SpawnFailed(why)),
            ProcessRun::Exited { success, stdout, stderr } => if success {
                Ok(stdout)
            } else {
                Err(ShellError::ExternalFailed(stderr))
            },
        }
    }
}

/// A name with a `/` that names a present path resolves to itself, whatever
/// `PATH` holds and whether it is set.
pub proof fn lemma_literal_path_ignores_path_var(name: Seq<char>, fs: Set<Seq<char>>)
    requires
        name.contains('/'),
        fs.contains(name),
    ensures
        forall|path_var: Option<Seq<char>>| #[trigger] resolve(name, path_var, fs) == Some(Some(name)),
{
}

proof fn lemma_first_present_none(c: Seq<Seq<char>>, fs: Set<Seq<char>>)
    requires
        forall|j: int| 0 <= j < c.len() ==> !fs.contains(c[j]),
    ensures
        first_present(c, fs) is None,
{
    lemma_first_present_skip(c, fs, c.len() as int);
}

/// A name without a `/` that is in no directory of `PATH` is not found.
pub proof fn lemma_unlisted_name_not_found(name: Seq<char>, path_var: Seq<char>, fs: Set<Seq<char>>)
    requires
        !name.contains('/'),
        forall|d: Seq<char>| split_colons(path_var).contains(d) ==> !fs.contains(#[trigger] join_path(d, name)),
    ensures
        resolve(name, Some(path_var), fs) == Some(None::<Seq<char>>),
{
    let c = candidates(name, path_var);
    assert forall|j: int| 0 <= j < c.len() implies !fs.contains(c[j]) by {
        assert(split_colons(path_var).contains(split_colons(path_var)[j]));
    }
    lemma_first_present_none(c, fs);
}

} // verus!
