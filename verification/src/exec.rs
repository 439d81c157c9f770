//! Running an outside command: how its command line is put together, what
//! the caller does while it waits, and how the run is reported. The process
//! itself is the caller's.

use vstd::prelude::*;

use std::collections::BTreeMap;
use std::time::Duration;
use vstd::string::StrSliceExecFns;

use crate::seqs::texts;

verus! {

/// Name of the `nrv.exec` module.
pub fn module_name() -> (name: &'static str)
    ensures
        name@ == "exec"@,
{
    "exec"
}

/// A command to run.
#[derive(Debug, Clone)]
pub struct CommandOptions {
    pub program: String,
    pub args: Vec<String>,
    pub cwd: Option<String>,
    pub env: BTreeMap<String, String>,
    pub timeout: Option<Duration>,
    /// Hand program and arguments to the shell as one command line.
    pub use_shell: bool,
}

impl CommandOptions {
    /// A command without arguments, environment or timeout, run directly.
    pub fn new(program: &str) -> (options: Self)
        ensures
            options.program@ == program@,
            options.args@.len() == 0,
            options.cwd is None,
            options.env@.len() == 0,
            options.timeout is None,
            !options.use_shell,
    {
        Self {
            program: program.to_owned(),
            args: Vec::new(),
            cwd: None,
            env: BTreeMap::new(),
            timeout: None,
            use_shell: false,
        }
    }
}

/// How a command ended.
#[derive(Debug, Clone, PartialEq, Eq)]
pub struct ExecOutcome {
    pub status: Option<i32>,
    pub stdout: String,
    pub stderr: String,
    pub duration_ms: u128,
}

/// Why a command could not be run to its end.
#[derive(Debug)]
pub enum ExecError {
    /// A step failed; `source` is the cause as the system worded it.
    Io { operation: &'static str, source: String },
    StreamJoin { stream: &'static str },
    Timeout { duration: Duration, stdout: String, stderr: String },
}

/// Whether `char::is_whitespace` holds of `c`: the character has the
/// Unicode property `White_Space`.
pub uninterp spec fn char_is_whitespace(c: char) -> bool;

/// `char::is_whitespace`.
#[verifier::external_body]
fn is_whitespace(c: char) -> (white: bool)
    ensures
        white == char_is_whitespace(c),
{
    c.is_whitespace()
}

/// `String::from_iter`: the string made of `chars`, in order.
#[verifier::external_body]
fn string_of(chars: &Vec<char>) -> (text: String)
    ensures
        text@ == chars@,
{
    String::from_iter(chars.iter())
}

/// The command interpreter a command line is written for.
#[derive(Debug, Clone, Copy, PartialEq, Eq, Structural)]
pub enum Shell {
    /// `sh -c`, quoting with single quotes.
    Posix,
    /// `cmd /C`, quoting with double quotes.
    Windows,
}

/// A character that the shell would not take literally outside quotes.
pub open spec fn is_special(shell: Shell, c: char) -> bool {
    char_is_whitespace(c) || match shell {
        Shell::Posix => c == '\'' || c == '"' || c == '$' || c == '`' || c == '\\',
        Shell::Windows => c == '"' || c == '^' || c == '&' || c == '|' || c == '<' || c == '>',
    }
}

/// A part is quoted where it holds a special character; for a POSIX shell
/// also where it is empty.
pub open spec fn must_quote(shell: Shell, part: Seq<char>) -> bool {
    ||| shell is Posix && part.len() == 0
    ||| exists|i: int| 0 <= i < part.len() && is_special(shell, #[trigger] part[i])
}

/// The character that opens and closes quoted text.
pub open spec fn quote_mark(shell: Shell) -> char {
    match shell {
        Shell::Posix => '\'',
        Shell::Windows => '"',
    }
}

/// What stands for a quote mark inside quoted text: for a POSIX shell
/// `'\''`, which closes the quoted text, adds a literal quote and opens
/// quoted text again; for the Windows shell `\"`.
pub open spec fn quote_escape(shell: Shell) -> Seq<char> {
    match shell {
        Shell::Posix => seq!['\'', '\\', '\'', '\''],
        Shell::Windows => seq!['\\', '"'],
    }
}

/// The part with each quote mark replaced by its escape.
pub open spec fn escaped(shell: Shell, part: Seq<char>) -> Seq<char>
    decreases part.len(),
{
    if part.len() == 0 {
        Seq::empty()
    } else if part.last() == quote_mark(shell) {
        escaped(shell, part.drop_last()) + quote_escape(shell)
    } else {
        escaped(shell, part.drop_last()).push(part.last())
    }
}

/// The part as the shell takes it: itself, or escaped between quote marks
/// where it must be quoted.
pub open spec fn quoted(shell: Shell, part: Seq<char>) -> Seq<char> {
    if must_quote(shell, part) {
        seq![quote_mark(shell)] + escaped(shell, part) + seq![quote_mark(shell)]
    } else {
        part
    }
}

/// The parts, each as the shell takes it, with one space between
/// neighbours.
pub open spec fn joined(shell: Shell, parts: Seq<Seq<char>>) -> Seq<char>
    decreases parts.len(),
{
    if parts.len() == 0 {
        Seq::empty()
    } else if parts.len() == 1 {
        quoted(shell, parts[0])
    } else {
        joined(shell, parts.drop_last()) + seq![' '] + quoted(shell, parts.last())
    }
}

/// Whether the character is special to the shell.
fn special(shell: Shell, c: char) -> (special: bool)
    ensures
        special == is_special(shell, c),
{
    is_whitespace(c) || match shell {
        Shell::Posix => c == '\'' || c == '"' || c == '$' || c == '`' || c == '\\',
        Shell::Windows => c == '"' || c == '^' || c == '&' || c == '|' || c == '<' || c == '>',
    }
}

/// Whether the part has to be quoted.
fn needs_quoting(shell: Shell, part: &str) -> (needed: bool)
    ensures
        needed == must_quote(shell, part@),
{
    let len = part.unicode_len();
    let mut i: usize = 0;
    while i < len
        invariant
            i <= len,
            len == part@.len(),
            forall|k: int| 0 <= k < i ==> !is_special(shell, #[trigger] part@[k]),
        decreases len - i,
    {
        if special(shell, part.get_char(i)) {
            return true;
        }
        i += 1;
    }
    match shell {
        Shell::Posix => len == 0,
        Shell::Windows => false,
    }
}

/// Appends what stands for a quote mark inside quoted text.
fn push_escape(shell: Shell, line: &mut Vec<char>)
    ensures
        final(line)@ == old(line)@ + quote_escape(shell),
{
    match shell {
        Shell::Posix => {
            line.push('\'');
            line.push('\\');
            line.push('\'');
            line.push('\'');
        },
        Shell::Windows => {
            line.push('\\');
            line.push('"');
        },
    }
}

/// Appends the part to `line` as the shell takes it.
fn push_quoted(shell: Shell, line: &mut Vec<char>, part: &str)
    ensures
        final(line)@ == old(line)@ + quoted(shell, part@),
{
    let quote = needs_quoting(shell, part);
    let mark = match shell {
        Shell::Posix => '\'',
        Shell::Windows => '"',
    };
    let len = part.unicode_len();
    if quote {
        line.push(mark);
    }
    let ghost opened = line@;
    let mut i: usize = 0;
    while i < len
        invariant
            i <= len,
            len == part@.len(),
            mark == quote_mark(shell),
            quote == must_quote(shell, part@),
            quote ==> line@ == opened + escaped(shell, part@.take(i as int)),
            !quote ==> line@ == opened + part@.take(i as int),
        decreases len - i,
    {
        let c = part.get_char(i);
        proof {
            assert(part@.take(i + 1).drop_last() == part@.take(i as int));
        }
        if quote && c == mark {
            push_escape(shell, line);
        } else {
            line.push(c);
        }
        i += 1;
    }
    assert(part@.take(len as int) == part@);
    if quote {
        line.push(mark);
    }
}

/// The command line that hands `parts` to the shell.
fn join_for(shell: Shell, parts: &[String]) -> (line: String)
    ensures
        line@ == joined(shell, texts(parts@)),
{
    let ghost all = texts(parts@);
    let mut line: Vec<char> = Vec::new();
    let mut i: usize = 0;
    while i < parts.len()
        invariant
            i <= parts@.len(),
            all == texts(parts@),
            line@ == joined(shell, all.take(i as int)),
        decreases parts@.len() - i,
    {
        proof {
            assert(all.take(i + 1).drop_last() == all.take(i as int));
        }
        if i > 0 {
            line.push(' ');
        }
        push_quoted(shell, &mut line, parts[i].as_str());
        i += 1;
    }
    assert(all.take(parts@.len() as int) == all);
    string_of(&line)
}

/// The command line that hands `parts` to a POSIX shell: each part that is
/// empty or holds whitespace, a quote, `$`, a backquote or a backslash is
/// put between single quotes, with each single quote in it written as
/// `'\''`; the parts are joined by single spaces.
pub fn command_line_join(parts: &[String]) -> (line: String)
    ensures
        line@ == joined(Shell::Posix, texts(parts@)),
{
    join_for(Shell::Posix, parts)
}

/// The command line that hands `parts` to the Windows shell: each part that
/// holds whitespace or one of `"`, `^`, `&`, `|`, `<`, `>` is put between
/// double quotes, with each double quote in it written as `\"`; the parts
/// are joined by single spaces.
pub fn command_line_join_windows(parts: &[String]) -> (line: String)
    ensures
        line@ == joined(Shell::Windows, texts(parts@)),
{
    join_for(Shell::Windows, parts)
}

/// What is started for a command: a program and its arguments.
#[derive(Debug, Clone, PartialEq, Eq)]
pub struct Invocation {
    pub program: String,
    pub args: Vec<String>,
}

/// A program and its arguments, as texts.
pub struct InvocationView {
    pub program: Seq<char>,
    pub args: Seq<Seq<char>>,
}

impl View for Invocation {
    type V = InvocationView;

    open spec fn view(&self) -> InvocationView {
        InvocationView { program: self.program@, args: texts(self.args@) }
    }
}

/// The program that stands for the shell, and the flag that makes it run
/// one command line.
pub open spec fn shell_program(shell: Shell) -> (Seq<char>, Seq<char>) {
    match shell {
        Shell::Posix => ("sh"@, "-c"@),
        Shell::Windows => ("cmd"@, "/C"@),
    }
}

/// What is started for the program `program` with `args`: the program
/// itself, or the shell with the command line of program and arguments.
pub open spec fn invocation(
    shell: Shell,
    program: Seq<char>,
    args: Seq<Seq<char>>,
    use_shell: bool,
) -> InvocationView {
    if use_shell {
        InvocationView {
            program: shell_program(shell).0,
            args: seq![shell_program(shell).1, joined(shell, seq![program] + args)],
        }
    } else {
        InvocationView { program, args }
    }
}

/// Appends copies of `args` to `parts`.
fn push_copies(parts: &mut Vec<String>, args: &Vec<String>)
    ensures
        texts(final(parts)@) == texts(old(parts)@) + texts(args@),
{
    let ghost before = texts(parts@);
    let mut i: usize = 0;
    while i < args.len()
        invariant
            i <= args@.len(),
            texts(parts@) == before + texts(args@).take(i as int),
        decreases args@.len() - i,
    {
        let ghost so_far = texts(parts@);
        parts.push(args[i].clone());
        assert(texts(parts@) =~= so_far.push(args@[i as int]@));
        i += 1;
    }
}

/// Decides what is started for `options` where `shell` is the shell at
/// hand.
fn build_for(shell: Shell, options: &CommandOptions) -> (started: Invocation)
    ensures
        started@ == invocation(shell, options.program@, texts(options.args@), options.use_shell),
{
    if options.use_shell {
        let mut parts: Vec<String> = Vec::new();
        parts.push(options.program.clone());
        assert(texts(parts@) =~= seq![options.program@]);
        push_copies(&mut parts, &options.args);
        let line = join_for(shell, parts.as_slice());
        let (program, flag) = match shell {
            Shell::Posix => ("sh", "-c"),
            Shell::Windows => ("cmd", "/C"),
        };
        let mut args: Vec<String> = Vec::new();
        args.push(flag.to_owned());
        args.push(line);
        let started = Invocation { program: program.to_owned(), args };
        assert(started@.args =~= seq![
            shell_program(shell).1,
            joined(shell, seq![options.program@] + texts(options.args@)),
        ]);
        started
    } else {
        let mut args: Vec<String> = Vec::new();
        push_copies(&mut args, &options.args);
        Invocation { program: options.program.clone(), args }
    }
}

/// Decides what is started for `options` on a system with a POSIX shell:
/// the program with its arguments, or `sh -c` with their command line.
pub fn build_command(options: &CommandOptions) -> (started: Invocation)
    ensures
        started@ == invocation(
            Shell::Posix,
            options.program@,
            texts(options.args@),
            options.use_shell,
        ),
{
    build_for(Shell::Posix, options)
}

/// Decides what is started for `options` on Windows: the program with its
/// arguments, or `cmd /C` with their command line.
pub fn build_command_windows(options: &CommandOptions) -> (started: Invocation)
    ensures
        started@ == invocation(
            Shell::Windows,
            options.program@,
            texts(options.args@),
            options.use_shell,
        ),
{
    build_for(Shell::Windows, options)
}

/// What the caller does after it has asked whether the command has ended.
#[derive(Debug, Clone, Copy, PartialEq, Eq, Structural)]
pub enum WaitStep {
    /// The command has ended: collect its output.
    Collect,
    /// The timeout has passed: kill the command, wait for it to end, and
    /// report the timeout.
    Kill,
    /// Ask again after this many milliseconds.
    Sleep { millis: u64 },
}

/// The step after a poll: a command that has ended is collected; one that
/// still runs is killed once a given timeout has passed; otherwise the
/// caller sleeps ten milliseconds and asks again.
pub fn wait_step(exited: bool, timeout_passed: bool) -> (step: WaitStep)
    ensures
        step == if exited {
            WaitStep::Collect
        } else if timeout_passed {
            WaitStep::Kill
        } else {
            WaitStep::Sleep { millis: 10 }
        },
{
    if exited {
        WaitStep::Collect
    } else if timeout_passed {
        WaitStep::Kill
    } else {
        WaitStep::Sleep { millis: 10 }
    }
}

/// Reports a command that has ended and whose output was collected: a
/// timeout where it was killed for one, its outcome otherwise.
pub fn conclude(
    timed_out: Option<Duration>,
    status: Option<i32>,
    stdout: String,
    stderr: String,
    duration_ms: u128,
) -> (report: Result<ExecOutcome, ExecError>)
    ensures
        match timed_out {
            Some(duration) => report is Err && report->Err_0 == (ExecError::Timeout {
                duration,
                stdout,
                stderr,
            }),
            None => report == Ok::<ExecOutcome, ExecError>(
                ExecOutcome { status, stdout, stderr, duration_ms },
            ),
        },
{
    match timed_out {
        Some(duration) => Err(ExecError::Timeout { duration, stdout, stderr }),
        None => Ok(ExecOutcome { status, stdout, stderr, duration_ms }),
    }
}

} // verus!
