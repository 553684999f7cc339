//! External tools: what is handed to one, what comes back from one, and how
//! an exit is judged. All five tools of the system go through [`check_exit`].

use vstd::prelude::*;
use vstd::string::*;

verus! {

/// One call of an external program.
#[derive(Debug, PartialEq, Eq)]
pub struct ToolCommand {
    /// The program to start
    pub program: String,
    /// Its arguments, in order
    pub args: Vec<String>,
}

/// What a [`ToolCommand`] holds, as mathematical values.
pub struct ToolCommandView {
    pub program: Seq<char>,
    pub args: Seq<Seq<char>>,
}

impl View for ToolCommand {
    type V = ToolCommandView;

    open spec fn view(&self) -> ToolCommandView {
        ToolCommandView { program: self.program@, args: self.args.deep_view() }
    }
}

/// What is known of an external program once it has ended.
#[derive(Debug, PartialEq, Eq)]
pub struct ToolOutput {
    /// The exit code; `None` where the program ended without one
    pub exit_code: Option<i32>,
    /// What the program wrote to its error stream
    pub stderr: String,
}

/// What a [`ToolOutput`] holds, as mathematical values.
pub struct ToolOutputView {
    pub exit_code: Option<i32>,
    pub stderr: Seq<char>,
}

impl View for ToolOutput {
    type V = ToolOutputView;

    open spec fn view(&self) -> ToolOutputView {
        ToolOutputView { exit_code: self.exit_code, stderr: self.stderr@ }
    }
}

/// An external program that ended in failure.
#[derive(Debug, PartialEq, Eq)]
pub struct ToolFailure {
    /// The tool's name
    pub tool: String,
    /// Its exit code, -1 where it ended without one
    pub exit_code: i32,
    /// What it wrote to its error stream
    pub stderr_excerpt: String,
}

/// What a [`ToolFailure`] holds, as mathematical values.
pub struct ToolFailureView {
    pub tool: Seq<char>,
    pub exit_code: i32,
    pub stderr_excerpt: Seq<char>,
}

impl View for ToolFailure {
    type V = ToolFailureView;

    open spec fn view(&self) -> ToolFailureView {
        ToolFailureView {
            tool: self.tool@,
            exit_code: self.exit_code,
            stderr_excerpt: self.stderr_excerpt@,
        }
    }
}

impl ToolOutputView {
    /// The program ended with exit code 0.
    pub open spec fn succeeded(self) -> bool {
        self.exit_code == Some(0i32)
    }

    /// The failure that this output amounts to for the tool named `tool`.
    pub open spec fn failure(self, tool: Seq<char>) -> ToolFailureView {
        ToolFailureView {
            tool,
            exit_code: match self.exit_code {
                Some(code) => code,
                None => -1i32,
            },
            stderr_excerpt: self.stderr,
        }
    }
}

impl ToolOutput {
    /// Whether the program ended with exit code 0.
    pub fn succeeded(&self) -> (ok: bool)
        ensures
            ok == self@.succeeded(),
    {
        match self.exit_code {
            Some(code) => code == 0,
            None => false,
        }
    }
}

/// Judges how the tool named `tool` ended: success is exit code 0 and
/// nothing else; every other ending is a failure that carries the tool's
/// name, its exit code and its error stream.
pub fn check_exit(tool: &str, output: &ToolOutput) -> (verdict: Result<(), ToolFailure>)
    ensures
        output@.succeeded() ==> verdict is Ok,
        !output@.succeeded() ==> verdict is Err && verdict->Err_0@ == output@.failure(tool@),
{
    if output.succeeded() {
        Ok(())
    } else {
        let exit_code = match output.exit_code {
            Some(code) => code,
            None => -1,
        };
        Err(
            ToolFailure {
                tool: String::from_str(tool),
                exit_code,
                stderr_excerpt: output.stderr.clone(),
            },
        )
    }
}

} // verus!
