//! Commands to run, and what running one gave.
//!
//! The library decides what to run and reads the result; its caller starts
//! the process and waits for it.

use vstd::prelude::*;

verus! {

/// One environment variable set for a child process only.
#[derive(Debug, PartialEq, Eq)]
pub struct EnvVar {
    pub name: String,
    pub value: String,
}

/// The mathematical value of an `EnvVar`.
pub struct EnvVarView {
    pub name: Seq<char>,
    pub value: Seq<char>,
}

impl View for EnvVar {
    type V = EnvVarView;

    open spec fn view(&self) -> EnvVarView {
        EnvVarView { name: self.name@, value: self.value@ }
    }
}

impl DeepView for EnvVar {
    type V = EnvVarView;

    open spec fn deep_view(&self) -> EnvVarView {
        self@
    }
}

/// A command: the program, its arguments, the variables added to its
/// environment, and the directory to run it in (`None`: the current one).
#[derive(Debug, PartialEq, Eq)]
pub struct Invocation {
    pub program: String,
    pub args: Vec<String>,
    pub env: Vec<EnvVar>,
    pub dir: Option<String>,
}

/// The mathematical value of an `Invocation`.
pub struct InvocationView {
    pub program: Seq<char>,
    pub args: Seq<Seq<char>>,
    pub env: Seq<EnvVarView>,
    pub dir: Option<Seq<char>>,
}

impl View for Invocation {
    type V = InvocationView;

    open spec fn view(&self) -> InvocationView {
        InvocationView {
            program: self.program@,
            args: self.args.deep_view(),
            env: self.env.deep_view(),
            dir: self.dir.deep_view(),
        }
    }
}

impl DeepView for Invocation {
    type V = InvocationView;

    open spec fn deep_view(&self) -> InvocationView {
        self@
    }
}

/// What running a command gave.
#[derive(Debug, PartialEq, Eq)]
pub enum RunOutcome {
    /// The process could not be started; holds the system's message.
    NotStarted(String),
    /// The process was started and lost while waiting for it; holds the
    /// system's message.
    Lost(String),
    /// The process ran to its end.
    Exited {
        /// Whether it reported success.
        success: bool,
        /// Its exit code, unless a signal ended it.
        code: Option<i32>,
        /// What it wrote to its standard output, where that was captured.
        stdout: String,
        /// What it wrote to its standard error, where that was captured.
        stderr: String,
    },
}

/// The mathematical value of a `RunOutcome`.
pub enum RunOutcomeView {
    NotStarted(Seq<char>),
    Lost(Seq<char>),
    Exited { success: bool, code: Option<i32>, stdout: Seq<char>, stderr: Seq<char> },
}

impl View for RunOutcome {
    type V = RunOutcomeView;

    open spec fn view(&self) -> RunOutcomeView {
        match self {
            RunOutcome::NotStarted(m) => RunOutcomeView::NotStarted(m@),
            RunOutcome::Lost(m) => RunOutcomeView::Lost(m@),
            RunOutcome::Exited { success, code, stdout, stderr } => RunOutcomeView::Exited {
                success: *success,
                code: *code,
                stdout: stdout@,
                stderr: stderr@,
            },
        }
    }
}

/// A variable with the given name and value.
pub fn env_var(name: &str, value: String) -> (r: EnvVar)
    ensures
        r@ == (EnvVarView { name: name@, value: value@ }),
{
    EnvVar { name: String::from_str(name), value }
}

} // verus!
