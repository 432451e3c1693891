//! The command line: which command to run, and on which owner.

use vstd::prelude::*;

verus! {

/// A command that takes the owner (an organisation or enterprise) to act on.
#[derive(Clone, Copy, Debug, PartialEq, Eq, Structural)]
pub enum Verb {
    Run,
    Plan,
}

/// A parsed command line.
#[derive(Clone, Debug, PartialEq, Eq)]
pub enum Command {
    Clean,
    Run(String),
    Plan(String),
}

/// Why a command line is refused.
#[derive(Clone, Debug, PartialEq, Eq)]
pub enum CliError {
    /// No command was given.
    NoCommand,
    /// The command needs an owner and none was given.
    NoParameter(Verb),
    /// The command is not one of `clean`, `run` and `plan`.
    InvalidCommand(String),
}

fn same_text(s: &String, w: &str) -> (b: bool)
    ensures
        b == (s@ == w@),
{
    let t = String::from_str(w);
    *s == t
}

/// Parses the arguments, program name first: a command, then for `run` and
/// `plan` the owner to act on. Further arguments are ignored.
pub fn parse_command(args: &Vec<String>) -> (r: Result<Command, CliError>)
    ensures
        args@.len() < 2 ==> r == Err::<Command, CliError>(CliError::NoCommand),
        args@.len() >= 2 && args@[1]@ == "clean"@ ==> r == Ok::<Command, CliError>(Command::Clean),
        args@.len() == 2 && args@[1]@ == "run"@ ==> r == Err::<Command, CliError>(
            CliError::NoParameter(Verb::Run),
        ),
        args@.len() == 2 && args@[1]@ == "plan"@ ==> r == Err::<Command, CliError>(
            CliError::NoParameter(Verb::Plan),
        ),
        args@.len() >= 3 && args@[1]@ == "run"@ ==> r is Ok && r->Ok_0 is Run && r->Ok_0->Run_0@
            == args@[2]@,
        args@.len() >= 3 && args@[1]@ == "plan"@ ==> r is Ok && r->Ok_0 is Plan
            && r->Ok_0->Plan_0@ == args@[2]@,
        args@.len() >= 2 && args@[1]@ != "clean"@ && args@[1]@ != "run"@ && args@[1]@ != "plan"@
            ==> r is Err && r->Err_0 is InvalidCommand && r->Err_0->InvalidCommand_0@ == args@[1]@,
{
    if args.len() < 2 {
        return Err(CliError::NoCommand);
    }
    let c = &args[1];
    proof {
        reveal_strlit("clean");
        reveal_strlit("run");
        reveal_strlit("plan");
        assert("clean"@.len() == 5 && "run"@.len() == 3 && "plan"@.len() == 4);
        assert("run"@[0] != "plan"@[0]);
    }
    if same_text(c, "clean") {
        Ok(Command::Clean)
    } else if same_text(c, "run") {
        if args.len() < 3 {
            Err(CliError::NoParameter(Verb::Run))
        } else {
            Ok(Command::Run(args[2].clone()))
        }
    } else if same_text(c, "plan") {
        if args.len() < 3 {
            Err(CliError::NoParameter(Verb::Plan))
        } else {
            Ok(Command::Plan(args[2].clone()))
        }
    } else {
        Err(CliError::InvalidCommand(c.clone()))
    }
}

impl CliError {
    /// The human-readable message for this error.
    pub open spec fn spec_message(&self) -> Seq<char> {
        match self {
            CliError::NoCommand => "No command provided"@,
            CliError::NoParameter(Verb::Run) => "No parameter provided for 'run'"@,
            CliError::NoParameter(Verb::Plan) => "No parameter provided for 'plan'"@,
            CliError::InvalidCommand(c) => "Invalid command: "@ + c@,
        }
    }

    /// The human-readable message for this error.
    pub fn message(&self) -> (m: String)
        ensures
            m@ == self.spec_message(),
    {
        match self {
            CliError::NoCommand => String::from_str("No command provided"),
            CliError::NoParameter(Verb::Run) => String::from_str("No parameter provided for 'run'"),
            CliError::NoParameter(Verb::Plan) => String::from_str(
                "No parameter provided for 'plan'",
            ),
            CliError::InvalidCommand(c) => String::from_str("Invalid command: ").concat(c.as_str()),
        }
    }

    /// The line written to the output sink: `error=` and the message.
    pub fn output_line(&self) -> (l: String)
        ensures
            l@ == "error="@ + self.spec_message(),
    {
        let m = self.message();
        String::from_str("error=").concat(m.as_str())
    }
}

} // verus!
