//! Opens pull requests on the hosting provider behind a local repository.
//!
//! The library resolves which provider backs the repository, which branches
//! and remotes a request goes between, checks them against the repository,
//! and builds the request that a provider adapter sends.

pub mod config;
pub mod cred;
pub mod detect;
pub mod driver;
pub mod errors;
pub mod github;
pub mod repo;
pub mod tidal;

pub use detect::find_driver;
pub use driver::{Driver, DriverError};
pub use errors::{Error, Exit, NotGitRepo, SysErrorHandler};
pub use github::cli::GithubCli;
pub use github::req::{CreatePullRequest, CreatePullRequestResponse};
pub use github::{Github, GithubError, HttpFailure, PullRequest};
pub use repo::{ConfigEntry, Env, PushUrl, Remote, Repo};
pub use tidal::{Common, Desc, Ref, Req, ReqError};
