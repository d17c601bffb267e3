//! Shell commands: how a command line becomes the process to start, and which process a CTRL C
//! reaches.

use vstd::prelude::*;

use crate::text::is_blank;
use crate::transport::IoError;

verus! {

/// Shell errors.
#[derive(Clone, Debug, PartialEq, Eq)]
pub enum ShellError {
    /// Empty command.
    EmptyCommand,
    /// Malformed input.
    MalformedInput,
    /// Error while creating the child process that executes a command.
    CreateChild {
        /// The program that could not be started.
        cmd: String,
        /// The reason.
        err: IoError,
    },
    /// Error while killing the child process.
    KillChild(IoError),
    /// CTRL C was received while no command is executed.
    NoCommand,
}

impl ShellError {
    /// The text that a host is shown for this error.
    pub open spec fn text(self) -> Seq<char> {
        match self {
            ShellError::EmptyCommand => "Empty command."@,
            ShellError::MalformedInput => "Malformed input."@,
            ShellError::CreateChild { cmd, err } =>
                "Error while creating child process to execute command "@ + cmd@,
            ShellError::KillChild(_) => "Error while killing child process."@,
            ShellError::NoCommand => "CTRL C without executing any command."@,
        }
    }

    /// Describes the error.
    pub fn message(&self) -> (r: String)
        ensures
            r@ == self.text(),
    {
        match self {
            ShellError::EmptyCommand => "Empty command.".to_owned(),
            ShellError::MalformedInput => "Malformed input.".to_owned(),
            ShellError::CreateChild { cmd, err: _ } => {
                "Error while creating child process to execute command ".to_owned().concat(
                    cmd.as_str(),
                )
            },
            ShellError::KillChild(_) => "Error while killing child process.".to_owned(),
            ShellError::NoCommand => "CTRL C without executing any command.".to_owned(),
        }
    }
}

/// A program and its arguments.
#[derive(Clone, Debug, PartialEq, Eq)]
pub struct CommandLine {
    /// The program to start.
    pub program: String,
    /// Its arguments, in order.
    pub args: Vec<String>,
}

/// The texts of a list of strings.
pub open spec fn texts(words: Seq<String>) -> Seq<Seq<char>> {
    Seq::new(words.len(), |i: int| words[i]@)
}

impl View for CommandLine {
    type V = Seq<Seq<char>>;

    /// The words of the command line: the program, then its arguments.
    open spec fn view(&self) -> Seq<Seq<char>> {
        seq![self.program@] + texts(self.args@)
    }
}

/// The words that `shellwords::split` finds in a command, or `None` where it finds a quote
/// without its counterpart.
pub uninterp spec fn shell_words(input: Seq<char>) -> Option<Seq<Seq<char>>>;

/// The error of `shellwords::split`.
#[verifier::external_type_specification]
#[verifier::external_body]
pub struct ExMismatchedQuotes(shellwords::MismatchedQuotes);

/// Calls `shellwords::split`, which splits a command into words as the Bourne shell does. The
/// result depends on the command alone and is named by `shell_words`. A command that holds
/// nothing but white space has no words: every word that the function looks for starts with
/// another character.
#[verifier::external_body]
fn split_words(input: &str) -> (r: Result<Vec<String>, shellwords::MismatchedQuotes>)
    ensures
        r matches Ok(words) ==> shell_words(input@) == Some(texts(words@)),
        r is Err ==> shell_words(input@) is None,
        r is Ok || !is_blank(input@),
        r matches Ok(words) ==> is_blank(input@) ==> words@.len() == 0,
{
    shellwords::split(input)
}

impl CommandLine {
    /// The command line made of `words`: the first one is the program.
    pub fn from_words(words: Vec<String>) -> (r: Result<CommandLine, ShellError>)
        ensures
            match r {
                Ok(line) => words@.len() > 0 && line.program == words@[0] && line.args@
                    == words@.skip(1),
                Err(err) => words@.len() == 0 && err == ShellError::EmptyCommand,
            },
            r matches Ok(line) ==> line@ == texts(words@),
            r matches Ok(line) ==> line.program@ == texts(words@)[0] && texts(line.args@) == texts(
                words@,
            ).skip(1),
    {
        if words.len() == 0 {
            return Err(ShellError::EmptyCommand);
        }
        let mut args = words;
        let program = args.remove(0);
        let line = CommandLine { program, args };
        assert(line.args@ =~= words@.skip(1));
        assert(line@ =~= texts(words@));
        assert(texts(line.args@) =~= texts(words@).skip(1));
        Ok(line)
    }
}

/// What a command comes to, given the words that it splits into.
pub open spec fn command_line(words: Option<Seq<Seq<char>>>) -> Result<Seq<Seq<char>>, ShellError> {
    match words {
        None => Err(ShellError::MalformedInput),
        Some(words) => if words.len() == 0 {
            Err(ShellError::EmptyCommand)
        } else {
            Ok(words)
        },
    }
}

/// Runs the commands of a host, one at a time; `C` stands for a running process.
pub struct CommandHandler<C> {
    /// The process that executes the current command.
    pub child: Option<C>,
}

impl<C> Default for CommandHandler<C> {
    fn default() -> (r: Self)
        ensures
            r.child is None,
    {
        CommandHandler { child: None }
    }
}

impl<C> CommandHandler<C> {
    /// Reads a command: the process that executes it is started from the result, and handed to
    /// [`CommandHandler::spawned`].
    pub fn execute(&self, cmd: String) -> (r: Result<CommandLine, ShellError>)
        ensures
            match r {
                Ok(line) => command_line(shell_words(cmd@)) == Ok::<Seq<Seq<char>>, ShellError>(
                    line@,
                ),
                Err(err) => command_line(shell_words(cmd@)) == Err::<Seq<Seq<char>>, ShellError>(
                    err,
                ),
            },
            is_blank(cmd@) ==> r == Err::<CommandLine, ShellError>(ShellError::EmptyCommand),
            match shell_words(cmd@) {
                Some(words) => if words.len() > 0 {
                    r matches Ok(line) && line.program@ == words[0] && texts(line.args@)
                        == words.skip(1)
                } else {
                    r == Err::<CommandLine, ShellError>(ShellError::EmptyCommand)
                },
                None => r == Err::<CommandLine, ShellError>(ShellError::MalformedInput),
            },
    {
        match split_words(cmd.as_str()) {
            Ok(words) => CommandLine::from_words(words),
            Err(_) => Err(ShellError::MalformedInput),
        }
    }

    /// Takes the outcome of starting `program`: the process becomes the current one. Where it
    /// could not be started, the current process stays what it was.
    pub fn spawned(&mut self, program: String, spawned: Result<C, IoError>) -> (r: Result<
        (),
        ShellError,
    >)
        ensures
            match spawned {
                Ok(child) => r is Ok && final(self).child == Some(child),
                Err(err) => r == Err::<(), ShellError>(ShellError::CreateChild { cmd: program, err })
                    && final(self).child == old(self).child,
            },
    {
        match spawned {
            Ok(child) => {
                self.child = Some(child);
                Ok(())
            },
            Err(err) => Err(ShellError::CreateChild { cmd: program, err }),
        }
    }

    /// Forgets the current process, so that a later CTRL C does not reach it.
    pub fn empty(&mut self)
        ensures
            final(self).child is None,
    {
        self.child = None;
    }

    /// Takes the process that a CTRL C has to kill, which is then no longer the current one.
    pub fn ctrl_c(&mut self) -> (r: Result<C, ShellError>)
        ensures
            final(self).child is None,
            match old(self).child {
                Some(child) => r == Ok::<C, ShellError>(child),
                None => r == Err::<C, ShellError>(ShellError::NoCommand),
            },
    {
        match self.child.take() {
            Some(child) => Ok(child),
            None => Err(ShellError::NoCommand),
        }
    }
}

/// The outcome of a CTRL C, once the process that it took was killed.
pub fn killed(result: Result<(), IoError>) -> (r: Result<(), ShellError>)
    ensures
        match result {
            Ok(()) => r is Ok,
            Err(err) => r == Err::<(), ShellError>(ShellError::KillChild(err)),
        },
{
    match result {
        Ok(()) => Ok(()),
        Err(err) => Err(ShellError::KillChild(err)),
    }
}

/// The texts of a list of strings are those of its elements, in order and in number.
pub proof fn law_texts(words: Seq<String>, i: int)
    requires
        0 <= i < words.len(),
    ensures
        texts(words).len() == words.len(),
        texts(words)[i] == words[i]@,
        texts(Seq::empty()).len() == 0,
{
}

/// A command line is all of the words that it was made of, in order and in number: the first one
/// is the program and the others are its arguments.
pub proof fn law_command_line_holds_every_word(line: CommandLine)
    ensures
        line@.len() == line.args@.len() + 1,
        line@[0] == line.program@,
        line@.skip(1) == texts(line.args@),
        forall|i: int| 0 <= i < line.args@.len() ==> line@[i + 1] == #[trigger] line.args@[i]@,
{
    assert(line@.skip(1) =~= texts(line.args@));
}

/// No word of a command is lost, changed or added: a command that splits into words is made of
/// exactly these, unless there are none. A command without words is empty, and one that does not
/// split is malformed.
pub proof fn law_command_line_is_made_of_the_words(words: Seq<Seq<char>>, err: ShellError)
    ensures
        command_line(Some(words)) is Ok <==> words.len() > 0,
        command_line(Some(words)) matches Ok(line) ==> line.len() == words.len() && forall|i: int|
            0 <= i < words.len() ==> #[trigger] line[i] == words[i],
        command_line(Some(words)) == Err::<Seq<Seq<char>>, ShellError>(err) <==> words.len() == 0
            && err == ShellError::EmptyCommand,
        command_line(None) == Err::<Seq<Seq<char>>, ShellError>(ShellError::MalformedInput),
{
}

/// The text for a program that cannot be started ends with the whole name of the program, and the
/// other texts are always the same.
pub proof fn law_shell_error_texts(cmd: String, err: IoError)
    ensures
        (ShellError::CreateChild { cmd, err }).text()
            == "Error while creating child process to execute command "@ + cmd@,
        ShellError::KillChild(err).text() == "Error while killing child process."@,
        ShellError::EmptyCommand.text() == "Empty command."@,
        ShellError::MalformedInput.text() == "Malformed input."@,
        ShellError::NoCommand.text() == "CTRL C without executing any command."@,
{
}

} // verus!
