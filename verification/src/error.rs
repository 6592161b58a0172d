//! The failures that the commands report.

use vstd::prelude::*;

verus! {

/// A failure of a command, with the text that tells its cause.
#[derive(Debug, PartialEq, Eq)]
pub enum Error {
    /// Reading or writing the file system failed; holds the system's message.
    Io(String),
    /// The project directory is there already; holds the project's name.
    ProjectExists(String),
    /// No template has this name.
    InvalidTemplate(String),
    /// The build could not be started, failed, left no binary, or the
    /// binary did not pass a check.
    BuildFailed(String),
    /// The test runner could not be started or reported a failure.
    TestFailed(String),
    /// The configuration text is malformed.
    Config(String),
    /// Any other misuse, such as a missing manifest.
    Other(String),
}

/// The mathematical value of an `Error`: its kind and its text.
pub enum ErrorView {
    Io(Seq<char>),
    ProjectExists(Seq<char>),
    InvalidTemplate(Seq<char>),
    BuildFailed(Seq<char>),
    TestFailed(Seq<char>),
    Config(Seq<char>),
    Other(Seq<char>),
}

impl View for Error {
    type V = ErrorView;

    open spec fn view(&self) -> ErrorView {
        match self {
            Error::Io(m) => ErrorView::Io(m@),
            Error::ProjectExists(m) => ErrorView::ProjectExists(m@),
            Error::InvalidTemplate(m) => ErrorView::InvalidTemplate(m@),
            Error::BuildFailed(m) => ErrorView::BuildFailed(m@),
            Error::TestFailed(m) => ErrorView::TestFailed(m@),
            Error::Config(m) => ErrorView::Config(m@),
            Error::Other(m) => ErrorView::Other(m@),
        }
    }
}

impl ErrorView {
    /// The one-line description shown to the user.
    pub open spec fn message(self) -> Seq<char> {
        match self {
            ErrorView::Io(m) => "IO error: "@ + m,
            ErrorView::ProjectExists(m) => "Project '"@ + m + "' already exists"@,
            ErrorView::InvalidTemplate(m) => "Invalid template: "@ + m,
            ErrorView::BuildFailed(m) => "Build failed: "@ + m,
            ErrorView::TestFailed(m) => "Tests failed: "@ + m,
            ErrorView::Config(m) => "Configuration error: "@ + m,
            ErrorView::Other(m) => m,
        }
    }
}

impl Error {
    /// The one-line description shown to the user.
    pub fn message(&self) -> (r: String)
        ensures
            r@ == self@.message(),
    {
        match self {
            Error::Io(m) => prefixed("IO error: ", m.as_str()),
            Error::ProjectExists(m) => {
                let mut r = prefixed("Project '", m.as_str());
                r.append("' already exists");
                r
            },
            Error::InvalidTemplate(m) => prefixed("Invalid template: ", m.as_str()),
            Error::BuildFailed(m) => prefixed("Build failed: ", m.as_str()),
            Error::TestFailed(m) => prefixed("Tests failed: ", m.as_str()),
            Error::Config(m) => prefixed("Configuration error: ", m.as_str()),
            Error::Other(m) => m.clone(),
        }
    }
}

fn prefixed(prefix: &str, text: &str) -> (r: String)
    ensures
        r@ == prefix@ + text@,
{
    let mut r = String::from_str(prefix);
    r.append(text);
    r
}

/// The mathematical value of a result whose failure is an `Error`.
pub open spec fn result_view<T: View>(r: Result<T, Error>) -> Result<T::V, ErrorView> {
    match r {
        Ok(t) => Ok(t@),
        Err(e) => Err(e@),
    }
}

} // verus!
