//! Errors that end a run, each with the exit status it is reported under.
use vstd::prelude::*;

verus! {

/// An error that ends a run: a status for the process and a line of text.
pub trait Error {
    /// The exit status of the error.
    spec fn exit_code(&self) -> i32;

    /// The text that reports the error.
    spec fn text(&self) -> Seq<char>;

    fn status(&self) -> (r: i32)
        ensures
            r == self.exit_code(),
    ;

    fn message(&self) -> (r: String)
        ensures
            r@ == self.text(),
    ;
}

/// How a run ends on an error: the status to exit with and the line to
/// print.
pub struct Exit {
    pub status: i32,
    pub message: String,
}

/// Turns the outcome of a step into either its value or the way the run
/// ends.
pub trait SysErrorHandler<T>: Sized {
    /// Whether `r` is what the outcome `self` comes to.
    spec fn handled(self, r: Result<T, Exit>) -> bool;

    fn handle_system_error(self) -> (r: Result<T, Exit>)
        ensures
            Self::handled(self, r),
    ;
}

impl<T, E: Error> SysErrorHandler<T> for Result<T, E> {
    open spec fn handled(self, r: Result<T, Exit>) -> bool {
        match self {
            Ok(t) => r == Ok::<T, Exit>(t),
            Err(e) => r matches Err(x) && x.status == e.exit_code() && x.message@ == e.text(),
        }
    }

    fn handle_system_error(self) -> (r: Result<T, Exit>) {
        match self {
            Ok(t) => Ok(t),
            Err(e) => Err(Exit { status: e.status(), message: e.message() }),
        }
    }
}

/// The working directory is outside any repository.
#[derive(Debug, Copy, Clone)]
pub struct NotGitRepo;

impl Error for NotGitRepo {
    open spec fn exit_code(&self) -> i32 {
        32
    }

    open spec fn text(&self) -> Seq<char> {
        "current directory is not in a repository"@
    }

    fn status(&self) -> (r: i32) {
        32
    }

    fn message(&self) -> (r: String) {
        String::from_str("current directory is not in a repository")
    }
}

} // verus!
