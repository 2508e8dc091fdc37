//! The command line: what the first argument asks for, and what the
//! program answers when it does not run a session.

use vstd::prelude::*;
use vstd::string::*;

verus! {

/// What follows the name and version in the usage help.
pub const USAGE: &'static str =
    "\nTap keys to calculate beats per minute (BPM)\n\nOPTIONS:\n  -h, --help: Print usage help\n  -V, --version: Print version information";

/// What a first argument asks for.
#[derive(Clone, Copy, Debug, PartialEq, Eq, Structural)]
pub enum Request {
    /// `-h` or `--help`.
    Help,
    /// `-V` or `--version`.
    Version,
    /// Anything else.
    Unknown,
}

/// Where an answer is written.
#[derive(Clone, Copy, Debug, PartialEq, Eq, Structural)]
pub enum Stream {
    Output,
    Error,
}

/// The answer to a first argument: a text without its line end, the
/// stream it goes to, and the exit status of the process.
#[derive(Debug, PartialEq, Eq)]
pub struct Answer {
    pub text: String,
    pub stream: Stream,
    pub code: u8,
}

/// What a first argument asks for.
pub open spec fn request_of(arg: Seq<char>) -> Request {
    if arg == "-h"@ || arg == "--help"@ {
        Request::Help
    } else if arg == "-V"@ || arg == "--version"@ {
        Request::Version
    } else {
        Request::Unknown
    }
}

/// The line that names the program and its version.
pub open spec fn version_line(name: Seq<char>, version: Seq<char>) -> Seq<char> {
    name + " v"@ + version
}

/// The usage help: the version line, then what the program does and the
/// options it knows.
pub open spec fn help_text(name: Seq<char>, version: Seq<char>) -> Seq<char> {
    version_line(name, version) + USAGE@
}

/// The complaint about an argument that is no known option.
pub open spec fn unknown_option(arg: Seq<char>) -> Seq<char> {
    "error: unknown option "@ + arg
}

/// The line that reports why a session failed.
pub open spec fn failure_line(cause: Seq<char>) -> Seq<char> {
    "error: "@ + cause
}

/// The text of the answer to a first argument.
pub open spec fn answer_text(arg: Seq<char>, name: Seq<char>, version: Seq<char>) -> Seq<char> {
    match request_of(arg) {
        Request::Help => help_text(name, version),
        Request::Version => version_line(name, version),
        Request::Unknown => unknown_option(arg),
    }
}

/// The stream of the answer to a request: only a complaint goes to the
/// error stream.
pub open spec fn answer_stream(request: Request) -> Stream {
    if request is Unknown {
        Stream::Error
    } else {
        Stream::Output
    }
}

/// The exit status after the answer to a request: 1 after a complaint,
/// else 0.
pub open spec fn answer_code(request: Request) -> u8 {
    if request is Unknown {
        1
    } else {
        0
    }
}

/// Whether `part` stands somewhere in `text`, letter for letter.
pub open spec fn holds(text: Seq<char>, part: Seq<char>) -> bool {
    exists|at: int| 0 <= at <= text.len() - part.len() && #[trigger] text.subrange(
        at,
        at + part.len(),
    ) == part
}

/// What every answer is like.
///
/// An argument that is no known option is answered with status 1 and a
/// text on the error stream that holds the argument as it was given. The
/// two forms of the help option are answered with status 0 and a text
/// that holds the name and the version of the program. The two forms of
/// the version option are answered with status 0 and exactly the name, a
/// blank, the letter `v` and the version.
pub proof fn law_answers(arg: Seq<char>, name: Seq<char>, version: Seq<char>)
    ensures
        arg == "-h"@ || arg == "--help"@ ==> {
            &&& request_of(arg) == Request::Help
            &&& answer_code(request_of(arg)) == 0
            &&& holds(answer_text(arg, name, version), name)
            &&& holds(answer_text(arg, name, version), version)
        },
        arg == "-V"@ || arg == "--version"@ ==> {
            &&& request_of(arg) == Request::Version
            &&& answer_code(request_of(arg)) == 0
            &&& answer_text(arg, name, version) == name + " v"@ + version
        },
        arg != "-h"@ && arg != "--help"@ && arg != "-V"@ && arg != "--version"@ ==> {
            &&& request_of(arg) == Request::Unknown
            &&& answer_code(request_of(arg)) == 1
            &&& answer_stream(request_of(arg)) == Stream::Error
            &&& holds(answer_text(arg, name, version), arg)
        },
{
    reveal_strlit("-h");
    reveal_strlit("--help");
    reveal_strlit("-V");
    reveal_strlit("--version");
    assert("-h"@[1] == 'h' && "-V"@[1] == 'V');
    let lead = name + " v"@;
    lemma_holds_at(help_text(name, version), name, 0);
    lemma_holds_at(help_text(name, version), version, lead.len() as int);
    lemma_holds_at(unknown_option(arg), arg, "error: unknown option "@.len() as int);
}

/// A text holds what stands in it at some place.
pub proof fn lemma_holds_at(text: Seq<char>, part: Seq<char>, at: int)
    requires
        0 <= at,
        at + part.len() <= text.len(),
        text.subrange(at, at + part.len()) =~= part,
    ensures
        holds(text, part),
{
}

/// Tells what a first argument asks for.
pub fn request(arg: &str) -> (request: Request)
    ensures
        request == request_of(arg@),
{
    let given = String::from_str(arg);
    if given == String::from_str("-h") || given == String::from_str("--help") {
        Request::Help
    } else if given == String::from_str("-V") || given == String::from_str("--version") {
        Request::Version
    } else {
        Request::Unknown
    }
}

/// Answers a first argument, for a program of the given name and version.
pub fn answer(arg: &str, name: &str, version: &str) -> (answer: Answer)
    ensures
        answer.text@ == answer_text(arg@, name@, version@),
        answer.stream == answer_stream(request_of(arg@)),
        answer.code == answer_code(request_of(arg@)),
{
    match request(arg) {
        Request::Help => {
            let mut text = String::from_str(name);
            text.append(" v");
            text.append(version);
            text.append(USAGE);
            Answer { text, stream: Stream::Output, code: 0 }
        },
        Request::Version => {
            let mut text = String::from_str(name);
            text.append(" v");
            text.append(version);
            Answer { text, stream: Stream::Output, code: 0 }
        },
        Request::Unknown => {
            let mut text = String::from_str("error: unknown option ");
            text.append(arg);
            Answer { text, stream: Stream::Error, code: 1 }
        },
    }
}

/// The line that reports why a session failed, without its line end.
pub fn failure(cause: &str) -> (line: String)
    ensures
        line@ == failure_line(cause@),
{
    let mut line = String::from_str("error: ");
    line.append(cause);
    line
}

} // verus!
