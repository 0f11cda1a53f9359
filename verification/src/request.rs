//! The request that the launcher sends to the worker.

use vstd::prelude::*;
use vstd::string::*;
use crate::decimal::{integer_of, parse_bounded};
use crate::text::{contains_text, join, joined};

verus! {

/// The request for running `argv` in the project at `root`: one line with
/// the token, the root, the word `exec` and the arguments, each separated
/// from the next by a single space, then the payload as it is.
pub open spec fn frame(
    token: Seq<char>,
    root: Seq<char>,
    argv: Seq<Seq<char>>,
    payload: Seq<char>,
) -> Seq<char> {
    token + seq![' '] + root + seq![' ', 'e', 'x', 'e', 'c', ' '] + joined(argv, seq![' ']) + seq![
        '\n',
    ] + payload
}

/// Builds the request frame.
///
/// The payload closes the frame unchanged, whatever it holds.
pub fn request_frame(token: &str, root: &str, argv: &Vec<String>, payload: &str) -> (f: String)
    ensures
        f@ == frame(token@, root@, argv.deep_view(), payload@),
        f@.len() >= payload@.len(),
        f@.subrange(f@.len() - payload@.len(), f@.len() as int) == payload@,
{
    proof {
        reveal_strlit(" ");
        reveal_strlit(" exec ");
        reveal_strlit("\n");
    }
    assert(" "@ =~= seq![' ']);
    assert(" exec "@ =~= seq![' ', 'e', 'x', 'e', 'c', ' ']);
    assert("\n"@ =~= seq!['\n']);
    let arguments = join(argv, " ");
    let mut f = String::from_str(token);
    f.append(" ");
    f.append(root);
    f.append(" exec ");
    f.append(arguments.as_str());
    f.append("\n");
    let ghost head = f@;
    f.append(payload);
    assert(f@.subrange(head.len() as int, f@.len() as int) =~= payload@);
    f
}

/// The port written in `content`: the integer it denotes, provided that it
/// is written without a minus sign and fits in 16 bits.
pub open spec fn port_of(content: Seq<char>) -> Option<u16> {
    match integer_of(content) {
        Some(v) => if content[0] != '-' && v <= u16::MAX {
            Some(v as u16)
        } else {
            None
        },
        None => None,
    }
}

/// Parses the content of a port file.
///
/// Succeeds exactly on digits, with or without a `+` in front, that denote
/// a 16-bit port number; surrounding white space is not accepted.
pub fn parse_port(content: &str) -> (r: Option<u16>)
    ensures
        r == port_of(content@),
{
    let n: usize = content.unicode_len();
    if n == 0 {
        return None;
    }
    let first = content.get_char(0);
    if first == '-' {
        None
    } else if first == '+' {
        match parse_bounded(content.substring_char(1, n), 65535) {
            Some(m) => Some(m as u16),
            None => None,
        }
    } else {
        match parse_bounded(content, 65535) {
            Some(m) => Some(m as u16),
            None => None,
        }
    }
}

/// The arguments that are passed on to the worker: the command line
/// without the launcher's own name in front.
pub open spec fn forwarded(args: Seq<Seq<char>>) -> Seq<Seq<char>> {
    if args.len() > 0 {
        args.subrange(1, args.len() as int)
    } else {
        args
    }
}

/// Takes the launcher's own name off the command line.
pub fn forwarded_args(args: &Vec<String>) -> (argv: Vec<String>)
    ensures
        argv.deep_view() == forwarded(args.deep_view()),
{
    let mut argv: Vec<String> = Vec::new();
    let mut i: usize = 1;
    while i < args.len()
        invariant
            1 <= i,
            i <= args.len() || args.len() == 0,
            args.len() > 0 ==> argv.len() == i - 1,
            args.len() == 0 ==> argv.len() == 0,
            forall|j: int| 0 <= j < argv.len() ==> argv[j]@ == args[j + 1]@,
        decreases args.len() - i,
    {
        argv.push(args[i].clone());
        i += 1;
    }
    assert(argv.deep_view() =~= forwarded(args.deep_view()));
    argv
}

/// Where the payload of a request comes from.
#[derive(PartialEq, Eq, Debug)]
pub enum PayloadSource {
    /// The content that the environment supplies in place of the input stream.
    Override(String),
    /// The launcher's own input stream, read to its end.
    InputStream,
    /// There is no payload.
    Empty,
}

/// The arguments ask for the input stream to be forwarded: one of them is
/// `--stdin` or `-s`.
pub open spec fn wants_stdin(argv: Seq<Seq<char>>) -> bool {
    argv.contains("--stdin"@) || argv.contains("-s"@)
}

/// Chooses the payload's source: the override where one is set, else the
/// input stream where the arguments ask for it, else nothing.
pub fn payload_source(override_content: Option<&str>, argv: &Vec<String>) -> (source:
    PayloadSource)
    ensures
        match override_content {
            Some(content) => (source matches PayloadSource::Override(c) && c@ == content@),
            None => if wants_stdin(argv.deep_view()) {
                source is InputStream
            } else {
                source is Empty
            },
        },
{
    match override_content {
        Some(content) => PayloadSource::Override(String::from_str(content)),
        None => {
            if contains_text(argv, "--stdin") || contains_text(argv, "-s") {
                PayloadSource::InputStream
            } else {
                PayloadSource::Empty
            }
        },
    }
}

impl PayloadSource {
    /// Whether the input stream has to be read.
    pub fn reads_input(&self) -> (b: bool)
        ensures
            b == (*self is InputStream),
    {
        match self {
            PayloadSource::InputStream => true,
            _ => false,
        }
    }
}

/// The payload of the request: the override, or the whole of `input` where
/// the input stream is the source, or the empty text.
pub fn stdin_content(source: PayloadSource, input: String) -> (payload: String)
    ensures
        match source {
            PayloadSource::Override(content) => payload == content,
            PayloadSource::InputStream => payload == input,
            PayloadSource::Empty => payload@ == Seq::<char>::empty(),
        },
{
    match source {
        PayloadSource::Override(content) => content,
        PayloadSource::InputStream => input,
        PayloadSource::Empty => String::new(),
    }
}

} // verus!
