//! Running the tests of a contract with the system's test runner.

use crate::error::{result_view, Error, ErrorView};
use crate::process::{EnvVar, EnvVarView, Invocation, InvocationView, RunOutcome, RunOutcomeView};
use crate::text::{followed_by, option_view, push_signed, signed_decimal};
use vstd::prelude::*;

verus! {

/// The arguments of the test runner: the verb, `--release` for a release
/// build, and the filter as it was given.
pub open spec fn test_args(filter: Option<Seq<char>>, release: bool) -> Seq<Seq<char>> {
    let head = if release {
        seq!["test"@, "--release"@]
    } else {
        seq!["test"@]
    };
    match filter {
        Some(f) => head.push(f),
        None => head,
    }
}

/// The command that runs the tests.
pub open spec fn test_invocation(filter: Option<Seq<char>>, release: bool) -> InvocationView {
    InvocationView {
        program: "cargo"@,
        args: test_args(filter, release),
        env: Seq::empty(),
        dir: None,
    }
}

/// The command that runs the tests whose names hold `filter`, or all.
pub fn test_command(filter: Option<&str>, release: bool) -> (r: Invocation)
    ensures
        r@ == test_invocation(option_view(filter), release),
{
    let mut args: Vec<String> = Vec::new();
    args.push(String::from_str("test"));
    if release {
        args.push(String::from_str("--release"));
    }
    if let Some(f) = filter {
        args.push(String::from_str(f));
    }
    let env: Vec<EnvVar> = Vec::new();
    proof {
        assert(args.deep_view() == test_args(option_view(filter), release));
        assert(env.deep_view() == Seq::<EnvVarView>::empty());
    }
    Invocation { program: String::from_str("cargo"), args, env, dir: None }
}

/// How an exit code is shown: `Some(<code>)`, or `None` where a signal
/// ended the process.
pub open spec fn code_text(code: Option<i32>) -> Seq<char> {
    match code {
        Some(c) => "Some("@ + signed_decimal(c as int) + ")"@,
        None => "None"@,
    }
}

/// What a test run ends in: success only where the runner ran to its end
/// and reported success.
pub open spec fn test_result(outcome: RunOutcomeView) -> Result<(), ErrorView> {
    match outcome {
        RunOutcomeView::NotStarted(m) => Err(
            ErrorView::TestFailed("Failed to execute cargo test: "@ + m),
        ),
        RunOutcomeView::Lost(m) => Err(ErrorView::TestFailed("Failed to wait for tests: "@ + m)),
        RunOutcomeView::Exited { success, code, stdout, stderr } => if success {
            Ok(())
        } else {
            Err(ErrorView::TestFailed("Tests failed with exit code: "@ + code_text(code)))
        },
    }
}

/// Reads the outcome of the test command.
pub fn test_report(outcome: &RunOutcome) -> (r: Result<(), Error>)
    ensures
        result_view(r) == test_result(outcome@),
{
    match outcome {
        RunOutcome::NotStarted(m) => Err(
            Error::TestFailed(followed_by("Failed to execute cargo test: ", m.as_str())),
        ),
        RunOutcome::Lost(m) => Err(
            Error::TestFailed(followed_by("Failed to wait for tests: ", m.as_str())),
        ),
        RunOutcome::Exited { success, code, stdout: _, stderr: _ } => {
            if *success {
                Ok(())
            } else {
                let shown = match code {
                    Some(c) => {
                        let mut t = String::from_str("Some(");
                        push_signed(&mut t, *c);
                        t.append(")");
                        t
                    },
                    None => String::from_str("None"),
                };
                Err(Error::TestFailed(followed_by("Tests failed with exit code: ", shown.as_str())))
            }
        },
    }
}

} // verus!
