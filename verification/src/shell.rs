//! The user's shell, and the command that sources its startup file.

use crate::filter::text_of;
use std::path::Path;
use vstd::prelude::*;
use vstd::string::*;

verus! {

/// The final component of the path `path`: what `std::path::Path::file_name`
/// returns for that path, in the path syntax of the platform that the library
/// is built for, read as text. `None` where the path names no file, as the
/// root and a path that ends in `..` do.
pub uninterp spec fn path_file_name(path: Seq<char>) -> Option<Seq<char>>;

/// The shell that is used where the user names none.
pub open spec fn default_shell() -> Seq<char> {
    "/bin/sh"@
}

/// The command that does nothing and succeeds.
pub open spec fn no_rc() -> Seq<char> {
    "true"@
}

/// The command that sources the startup file of zsh, where there is one.
pub open spec fn zsh_rc() -> Seq<char> {
    "source ~/.zshrc 2>/dev/null || true"@
}

/// The command that sources the startup file of bash, where there is one.
pub open spec fn bash_rc() -> Seq<char> {
    "source ~/.bashrc 2>/dev/null || source ~/.bash_profile 2>/dev/null || true"@
}

/// The startup command for the shell whose program is called `name`. A shell
/// without a name counts as `sh`, which has no startup command of its own.
pub open spec fn rc_command_of(name: Option<Seq<char>>) -> Seq<char> {
    let name = match name {
        Some(n) => n,
        None => "sh"@,
    };
    if name == "zsh"@ {
        zsh_rc()
    } else if name == "bash"@ {
        bash_rc()
    } else {
        no_rc()
    }
}

/// Calls `std::path::Path::file_name` on `path` and reads the result as text.
/// The contract claims only that the result is a function of the path's text,
/// the one that [`path_file_name`] names. Nothing is proved of it.
#[verifier::external_body]
fn file_name_of(path: &str) -> (name: Option<&str>)
    ensures
        text_of(name) == path_file_name(path@),
{
    Path::new(path).file_name()?.to_str()
}

/// The startup command for the shell whose program is called `name`.
pub fn rc_command_for(name: Option<&str>) -> (rc: String)
    ensures
        rc@ == rc_command_of(text_of(name)),
{
    proof {
        reveal_strlit("sh");
        reveal_strlit("zsh");
        reveal_strlit("bash");
    }
    let name = match name {
        Some(n) => String::from_str(n),
        None => String::from_str("sh"),
    };
    if name == String::from_str("zsh") {
        String::from_str("source ~/.zshrc 2>/dev/null || true")
    } else if name == String::from_str("bash") {
        String::from_str(
            "source ~/.bashrc 2>/dev/null || source ~/.bash_profile 2>/dev/null || true",
        )
    } else {
        String::from_str("true")
    }
}

/// The shell to run commands in and the command that sources its startup file,
/// from the value of the `SHELL` variable: the named shell with the startup
/// command that goes with its program name, or `/bin/sh` with none where the
/// variable is not set.
pub fn get_user_shell(shell_var: Option<&str>) -> (profile: (String, String))
    ensures
        match shell_var {
            Some(shell) => profile.0@ == shell@ && profile.1@ == rc_command_of(
                path_file_name(shell@),
            ),
            None => profile.0@ == default_shell() && profile.1@ == no_rc(),
        },
{
    match shell_var {
        Some(shell) => {
            let rc_command = rc_command_for(file_name_of(shell));
            (String::from_str(shell), rc_command)
        },
        None => (String::from_str("/bin/sh"), String::from_str("true")),
    }
}

} // verus!
