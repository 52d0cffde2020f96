//! The command to run, and the program and arguments that start it.

use crate::filter::texts;
use vstd::prelude::*;
use vstd::string::*;

verus! {

/// The family of the system that the command runs on.
#[derive(Clone, Copy, Debug, PartialEq, Eq, Structural)]
pub enum Platform {
    /// A system with a POSIX shell.
    Unix,
    /// Windows, where `cmd` runs a command line.
    Windows,
}

/// Why a command cannot be run at all.
#[derive(Clone, Copy, Debug, PartialEq, Eq, Structural)]
pub enum ConfigError {
    /// The command line is empty, or the argument list names no program.
    EmptyCommand,
}

/// A command, settled once at startup.
#[derive(Clone, Debug, PartialEq, Eq)]
pub enum CommandSpec {
    /// A line for the user's shell.
    ShellLine(String),
    /// A program and its arguments, run without a shell.
    Argv(String, Vec<String>),
}

/// What is handed to the system to start a process.
#[derive(Clone, Debug, PartialEq, Eq)]
pub struct Invocation {
    /// The program to start.
    pub program: String,
    /// Its arguments, without the program's name.
    pub args: Vec<String>,
}

/// The line that the shell is given: on Unix the startup command, a semicolon
/// and the command; on Windows the command alone.
pub open spec fn shell_line_text(rc_command: Seq<char>, command: Seq<char>, platform: Platform) -> Seq<
    char,
> {
    match platform {
        Platform::Unix => rc_command + "; "@ + command,
        Platform::Windows => command,
    }
}

/// The program that runs a command.
pub open spec fn program_text(spec: CommandSpec, shell: Seq<char>, platform: Platform) -> Seq<char> {
    match spec {
        CommandSpec::ShellLine(_) => match platform {
            Platform::Unix => shell,
            Platform::Windows => "cmd"@,
        },
        CommandSpec::Argv(program, _) => program@,
    }
}

/// The arguments that the program of [`program_text`] is given. A shell line
/// runs in a login shell on Unix and under `cmd /C` on Windows.
pub open spec fn args_text(
    spec: CommandSpec,
    rc_command: Seq<char>,
    platform: Platform,
) -> Seq<Seq<char>> {
    match spec {
        CommandSpec::ShellLine(line) => match platform {
            Platform::Unix => seq!["-l"@, "-c"@, shell_line_text(rc_command, line@, platform)],
            Platform::Windows => seq!["/C"@, shell_line_text(rc_command, line@, platform)],
        },
        CommandSpec::Argv(_, args) => texts(args@),
    }
}

/// Computes [`shell_line_text`].
pub fn shell_command(rc_command: &str, command: &str, platform: Platform) -> (line: String)
    ensures
        line@ == shell_line_text(rc_command@, command@, platform),
{
    match platform {
        Platform::Unix => {
            let mut line = String::from_str(rc_command);
            line.append("; ");
            line.append(command);
            line
        },
        Platform::Windows => String::from_str(command),
    }
}

impl CommandSpec {
    /// A command given as one line for the shell. The empty line is refused.
    pub fn shell_line(command: &str) -> (spec: Result<CommandSpec, ConfigError>)
        ensures
            command@.len() == 0 <==> spec == Err::<CommandSpec, ConfigError>(
                ConfigError::EmptyCommand,
            ),
            command@.len() > 0 <==> spec is Ok,
            spec matches Ok(s) ==> s matches CommandSpec::ShellLine(line) && line@ == command@,
    {
        if command.is_empty() {
            Err(ConfigError::EmptyCommand)
        } else {
            Ok(CommandSpec::ShellLine(String::from_str(command)))
        }
    }

    /// A command given as a program followed by its arguments. A list that is
    /// empty, or whose first word is, is refused.
    pub fn argv(words: Vec<String>) -> (spec: Result<CommandSpec, ConfigError>)
        ensures
            (words@.len() == 0 || words@[0]@.len() == 0) <==> spec == Err::<
                CommandSpec,
                ConfigError,
            >(ConfigError::EmptyCommand),
            (words@.len() > 0 && words@[0]@.len() > 0) <==> spec is Ok,
            spec matches Ok(s) ==> s matches CommandSpec::Argv(program, args) && program@
                == words@[0]@ && texts(args@) == texts(words@).drop_first(),
    {
        let mut words = words;
        if words.len() == 0 {
            return Err(ConfigError::EmptyCommand);
        }
        if words[0].as_str().is_empty() {
            return Err(ConfigError::EmptyCommand);
        }
        let ghost all = words@;
        let program = words.remove(0);
        proof {
            assert(texts(words@) =~= texts(all).drop_first());
        }
        Ok(CommandSpec::Argv(program, words))
    }

    /// The program and arguments that start this command, given the user's
    /// shell and its startup command.
    pub fn invocation(&self, shell: &str, rc_command: &str, platform: Platform) -> (inv: Invocation)
        ensures
            inv.program@ == program_text(*self, shell@, platform),
            texts(inv.args@) == args_text(*self, rc_command@, platform),
    {
        match self {
            CommandSpec::ShellLine(line) => {
                let full = shell_command(rc_command, line.as_str(), platform);
                let mut args: Vec<String> = Vec::new();
                match platform {
                    Platform::Unix => {
                        args.push(String::from_str("-l"));
                        args.push(String::from_str("-c"));
                        args.push(full);
                        proof {
                            assert(texts(args@) =~= args_text(*self, rc_command@, platform));
                        }
                        Invocation { program: String::from_str(shell), args }
                    },
                    Platform::Windows => {
                        args.push(String::from_str("/C"));
                        args.push(full);
                        proof {
                            assert(texts(args@) =~= args_text(*self, rc_command@, platform));
                        }
                        Invocation { program: String::from_str("cmd"), args }
                    },
                }
            },
            CommandSpec::Argv(program, given) => {
                let mut args: Vec<String> = Vec::new();
                let mut i: usize = 0;
                while i < given.len()
                    invariant
                        i <= given@.len(),
                        args@.len() == i,
                        forall|j: int| 0 <= j < i ==> args@[j]@ == given@[j]@,
                    decreases given@.len() - i,
                {
                    args.push(given[i].clone());
                    i += 1;
                }
                proof {
                    assert(texts(args@) =~= texts(given@));
                }
                Invocation { program: program.clone(), args }
            },
        }
    }
}

} // verus!
