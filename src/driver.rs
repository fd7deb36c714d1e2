//! The provider adapters, as a closed set of kinds.
use vstd::prelude::*;

use crate::errors::Error;
use crate::github::{Github, GithubError};

verus! {

/// The adapter selected for the repository's provider.
pub enum Driver {
    Github(Github),
}

/// Why an adapter failed.
#[derive(Debug)]
pub enum DriverError {
    Github(GithubError),
}

impl Error for DriverError {
    open spec fn exit_code(&self) -> i32 {
        match self {
            DriverError::Github(inner) => inner.exit_code(),
        }
    }

    open spec fn text(&self) -> Seq<char> {
        match self {
            DriverError::Github(inner) => inner.text(),
        }
    }

    fn status(&self) -> (r: i32) {
        match self {
            DriverError::Github(inner) => inner.status(),
        }
    }

    fn message(&self) -> (r: String) {
        match self {
            DriverError::Github(inner) => inner.message(),
        }
    }
}

} // verus!
