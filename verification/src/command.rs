//! A tool to run: its name and its arguments.

use crate::error::BuildError;
use crate::text::{join, joined};
use vstd::prelude::*;

verus! {

/// One call of an outside program.
#[derive(Debug, Clone, PartialEq, Eq)]
pub struct Command {
    /// The program's name, looked up as the system does.
    pub program: String,
    /// Its arguments, in order.
    pub args: Vec<String>,
}

/// A `Command` with its texts as character sequences.
pub struct CommandView {
    pub program: Seq<char>,
    pub args: Seq<Seq<char>>,
}

impl View for Command {
    type V = CommandView;

    open spec fn view(&self) -> CommandView {
        CommandView { program: self.program@, args: self.args.deep_view() }
    }
}

/// The command as one line: the program, a blank, and the arguments with a blank
/// between each two.
pub open spec fn command_line_text(c: CommandView) -> Seq<char> {
    c.program + " "@ + joined(c.args, " "@)
}

impl Command {
    /// The command as one line: the program, a blank, and the arguments with a
    /// blank between each two.
    pub fn command_line(&self) -> (out: String)
        ensures
            out@ == command_line_text(self@),
    {
        let args = join(&self.args, " ");
        self.program.clone().concat(" ").concat(args.as_str())
    }

    /// The line that says that this command is about to run.
    pub fn announcement(&self) -> (out: String)
        ensures
            out@ == "Running: "@ + command_line_text(self@),
    {
        let line = self.command_line();
        String::from_str("Running: ").concat(line.as_str())
    }

    /// The error for a run of this command that ended with a failure status.
    pub fn failure(&self) -> (e: BuildError)
        ensures
            e@ == crate::error::BuildErrorView::CommandFailed(command_line_text(self@)),
    {
        BuildError::CommandFailed(self.command_line())
    }
}

} // verus!
