use vstd::prelude::*;
use vstd::string::*;

verus! {

/// The fixed start of the listing command; the caller's text follows it.
pub const LIST_PREFIX: &'static str = "ls ";

/// The shell that runs the command text.
pub const SHELL: &'static str = "sh";

/// The shell's flag that makes it run its next argument as a command line.
pub const SHELL_COMMAND_FLAG: &'static str = "-c";

/// What precedes the exit status once the shell ran.
pub const RAN_PREFIX: &'static str = "Command ran, status: ";

/// What precedes the launch error when the shell could not be started.
pub const FAILED_PREFIX: &'static str = "Failed to run command: ";

/// The command line handed to the shell: the prefix and then the caller's
/// text exactly as given, with no quoting or escaping of any character.
pub fn command_text(user_input: &str) -> (r: String)
    ensures
        r@ == LIST_PREFIX@ + user_input@,
{
    let mut cmd = String::from_str(LIST_PREFIX);
    cmd.append(user_input);
    cmd
}

/// The line reported after a launch attempt: the status text when the shell
/// ran, the error text when it could not be started.
pub fn launch_report(outcome: Result<&str, &str>) -> (r: String)
    ensures
        match outcome {
            Ok(status) => r@ == RAN_PREFIX@ + status@,
            Err(error) => r@ == FAILED_PREFIX@ + error@,
        },
{
    match outcome {
        Ok(status) => {
            let mut line = String::from_str(RAN_PREFIX);
            line.append(status);
            line
        },
        Err(error) => {
            let mut line = String::from_str(FAILED_PREFIX);
            line.append(error);
            line
        },
    }
}

} // verus!
