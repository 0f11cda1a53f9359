//! Starting things: the worker where none runs yet, and the plain tool where
//! the worker is not installed at all.

use vstd::prelude::*;
use vstd::string::*;
use crate::paths::Session;
use crate::text::contains_text;

verus! {

/// A program to run, with its arguments and the variables added to its
/// environment.
#[derive(PartialEq, Eq, Debug)]
pub struct Invocation {
    pub program: String,
    pub args: Vec<String>,
    pub env: Vec<(String, String)>,
}

/// An [`Invocation`] as plain text.
pub struct InvocationView {
    pub program: Seq<char>,
    pub args: Seq<Seq<char>>,
    pub env: Seq<(Seq<char>, Seq<char>)>,
}

impl View for Invocation {
    type V = InvocationView;

    open spec fn view(&self) -> InvocationView {
        InvocationView {
            program: self.program@,
            args: self.args.deep_view(),
            env: self.env.deep_view(),
        }
    }
}

/// The environment asks for the tools to be run through the bundler: a
/// variable named `RUBOCOP_DAEMON_USE_BUNDLER` is set, to whatever value.
pub open spec fn uses_bundler(env_keys: Seq<Seq<char>>) -> bool {
    env_keys.contains("RUBOCOP_DAEMON_USE_BUNDLER"@)
}

/// What is put in front of a program's name.
pub open spec fn prefix_of(env_keys: Seq<Seq<char>>) -> Seq<char> {
    if uses_bundler(env_keys) {
        "bundle exec "@
    } else {
        Seq::empty()
    }
}

/// Computes the prefix of the program names from the names of the variables
/// that are set in the environment.
pub fn command_prefix(env_keys: &Vec<String>) -> (prefix: String)
    ensures
        prefix@ == prefix_of(env_keys.deep_view()),
{
    if contains_text(env_keys, "RUBOCOP_DAEMON_USE_BUNDLER") {
        String::from_str("bundle exec ")
    } else {
        String::new()
    }
}

/// The plain tool, run with the launcher's own arguments.
pub open spec fn fallback_invocation(
    env_keys: Seq<Seq<char>>,
    args: Seq<Seq<char>>,
) -> InvocationView {
    InvocationView { program: prefix_of(env_keys) + "rubocop"@, args, env: Seq::empty() }
}

/// The worker's start: the directive `start`, and the session's files
/// handed over in the environment.
pub open spec fn worker_invocation(env_keys: Seq<Seq<char>>, session: Session) -> InvocationView {
    InvocationView {
        program: prefix_of(env_keys) + "rubocop-daemon"@,
        args: seq!["start"@],
        env: session.environment(),
    }
}

/// Calls `which::which`, and tells whether it found the program.
///
/// Trusted, with nothing claimed: the answer depends on the search path and
/// on the files that it leads to.
#[verifier::external_body]
pub(crate) fn on_search_path(program: &str) -> (found: bool) {
    which::which(program).is_ok()
}

/// What to run in place of the worker, given whether the worker's program
/// was found: nothing where it was, the plain tool where it was not.
pub fn fallback_command(worker_found: bool, env_keys: &Vec<String>, args: &Vec<String>) -> (r: Option<
    Invocation,
>)
    ensures
        worker_found ==> r is None,
        !worker_found ==> (r matches Some(inv) && inv@ == fallback_invocation(
            env_keys.deep_view(),
            args.deep_view(),
        )),
{
    if worker_found {
        None
    } else {
        let program = command_prefix(env_keys).concat("rubocop");
        let inv = Invocation { program, args: copy_texts(args), env: Vec::new() };
        assert(inv@.env =~= Seq::empty());
        Some(inv)
    }
}

/// The launcher's exit code after the plain tool has run: the tool's own,
/// or 0 where it ended without one.
pub fn fallback_exit_code(code: Option<i32>) -> (exit: i32)
    ensures
        exit == match code {
            Some(c) => c,
            None => 0,
        },
{
    match code {
        Some(c) => c,
        None => 0,
    }
}

/// What to run so that the session has a worker, given whether its token
/// file is there: nothing where it is, the worker's start where it is not.
pub fn worker_start(token_present: bool, session: &Session, env_keys: &Vec<String>) -> (r: Option<
    Invocation,
>)
    ensures
        token_present ==> r is None,
        !token_present ==> (r matches Some(inv) && inv@ == worker_invocation(
            env_keys.deep_view(),
            *session,
        )),
{
    if token_present {
        None
    } else {
        let program = command_prefix(env_keys).concat("rubocop-daemon");
        let mut args: Vec<String> = Vec::new();
        args.push(String::from_str("start"));
        let inv = Invocation { program, args, env: session.worker_environment() };
        assert(inv@.args =~= seq!["start"@]);
        Some(inv)
    }
}

/// The project root to work with: the one that was found, or the starting
/// directory itself where none was.
pub fn root_or_start(found: Option<String>, start: &str) -> (root: String)
    ensures
        root@ == match found {
            Some(r) => r@,
            None => start@,
        },
{
    match found {
        Some(r) => r,
        None => String::from_str(start),
    }
}

/// A copy of `texts`, text by text.
pub fn copy_texts(texts: &Vec<String>) -> (copy: Vec<String>)
    ensures
        copy.deep_view() == texts.deep_view(),
{
    let mut copy: Vec<String> = Vec::new();
    let mut i: usize = 0;
    while i < texts.len()
        invariant
            i <= texts.len(),
            copy.len() == i,
            forall|j: int| 0 <= j < i ==> copy[j]@ == texts[j]@,
        decreases texts.len() - i,
    {
        copy.push(texts[i].clone());
        i += 1;
    }
    assert(copy.deep_view() =~= texts.deep_view());
    copy
}

} // verus!
