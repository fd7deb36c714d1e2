//! The merge request descriptor and the values that shape it.
use vstd::prelude::*;

use crate::config::{opt_view, resolve, resolved};
use crate::repo::{config_text, has_branch, has_remote, str_eq, Env, Repo};

verus! {

/// Explicit branch and remote choices given on the command line.
pub struct Common {
    /// The branch to merge from.
    pub from_branch: Option<String>,
    /// The branch to merge to.
    pub to_branch: Option<String>,
    /// The remote to merge from.
    pub from_remote: Option<String>,
    /// The remote to merge to.
    pub to_remote: Option<String>,
}

/// Where the description of a request comes from.
#[derive(Debug, Clone)]
pub enum Desc {
    /// The text itself.
    Inline(String),
    /// Standard input.
    Stdin,
    /// A file, by its path.
    File(String),
}

/// Whether `d` is the source that the description argument `s` names: `-`
/// is standard input, a leading `@` names a file, anything else is the text
/// itself.
pub open spec fn names_desc(s: Seq<char>, d: Desc) -> bool {
    let is_stdin = s == "-"@;
    let is_file = s.len() > 0 && s[0] == '@';
    match d {
        Desc::Stdin => is_stdin,
        Desc::File(p) => !is_stdin && is_file && p@ == s.drop_first(),
        Desc::Inline(t) => !is_stdin && !is_file && t@ == s,
    }
}

/// A copy of an optional string.
pub fn copy_opt(o: &Option<String>) -> (r: Option<String>)
    ensures
        r == *o,
{
    match o {
        Some(s) => Some(s.clone()),
        None => None,
    }
}

impl Desc {
    /// Reads a description argument.
    pub fn parse(s: &str) -> (r: Desc)
        ensures
            names_desc(s@, r),
    {
        if str_eq(s, "-") {
            return Desc::Stdin;
        }
        let n = s.unicode_len();
        if n > 0 && s.get_char(0) == '@' {
            Desc::File(String::from_str(s.substring_char(1, n)))
        } else {
            Desc::Inline(String::from_str(s))
        }
    }

    /// A copy equal to this one.
    pub fn duplicate(&self) -> (r: Desc)
        ensures
            r == *self,
    {
        match self {
            Desc::Inline(s) => Desc::Inline(s.clone()),
            Desc::Stdin => Desc::Stdin,
            Desc::File(p) => Desc::File(p.clone()),
        }
    }
}

impl std::str::FromStr for Desc {
    type Err = String;

    fn from_str(s: &str) -> (r: Result<Desc, String>)
        ensures
            r matches Ok(d) && names_desc(s@, d),
    {
        Ok(Desc::parse(s))
    }
}

/// One side of a request: a branch on a remote.
pub struct Ref {
    pub branch: String,
    pub remote: String,
}

/// A merge request descriptor: merge `from` into `to`.
pub struct Req {
    pub from: Ref,
    pub to: Ref,
}

/// Why a descriptor could not be built or was refused.
#[derive(Debug, Clone, Copy, PartialEq, Eq, Structural)]
pub enum ReqError {
    /// A remote of the descriptor is not configured.
    InvalidRemote,
    /// A branch of the descriptor is not a local branch.
    InvalidBranch,
    /// Both sides name the same branch on the same remote.
    SameRef,
    /// No branch is checked out to merge from.
    DetachedHead,
}

/// The value of a field after an optional override: the override where
/// one is given, else the value as it was.
pub open spec fn overridden(o: Option<String>, s: Seq<char>) -> Seq<char> {
    match o {
        Some(v) => v@,
        None => s,
    }
}

/// Whether both sides name the same branch on the same remote.
pub open spec fn same_ref(q: Req) -> bool {
    q.from.branch@ == q.to.branch@ && q.from.remote@ == q.to.remote@
}

/// Whether both branches of the descriptor are local branches.
pub open spec fn branches_exist(q: Req, repo: Repo) -> bool {
    has_branch(repo, q.from.branch@) && has_branch(repo, q.to.branch@)
}

/// Whether both remotes of the descriptor are configured.
pub open spec fn remotes_exist(q: Req, repo: Repo) -> bool {
    has_remote(repo, q.from.remote@) && has_remote(repo, q.to.remote@)
}

/// The branch that the version-control backend names by default.
pub open spec fn default_branch() -> Seq<char> {
    "main"@
}

/// Relies on `gix::init::DEFAULT_BRANCH_NAME`: the backend's default branch
/// name, `main`.
#[verifier::external_body]
fn default_branch_name() -> (r: String)
    ensures
        r@ == default_branch(),
{
    gix::init::DEFAULT_BRANCH_NAME.to_string()
}

/// The remote to merge to: environment, then the `to-remote` key, then
/// `origin`.
pub open spec fn to_remote_of(repo: Repo, env: Env) -> Seq<char> {
    resolved(None, opt_view(env.to_remote), config_text(repo, "to-remote"@), "origin"@)
}

/// The remote to merge from: the same environment variable as the remote to
/// merge to, then the `from-remote` key, then `origin`.
pub open spec fn from_remote_of(repo: Repo, env: Env) -> Seq<char> {
    resolved(None, opt_view(env.to_remote), config_text(repo, "from-remote"@), "origin"@)
}

/// The branch to merge to: environment, then the `to-branch` key, then the
/// backend's default branch.
pub open spec fn to_branch_of(repo: Repo, env: Env) -> Seq<char> {
    resolved(None, opt_view(env.to_branch), config_text(repo, "to-branch"@), default_branch())
}

/// The branch to merge from: the environment variable and key of the branch
/// to merge to, then the checked-out branch; `None` when all are absent.
pub open spec fn from_branch_of(repo: Repo, env: Env) -> Option<Seq<char>> {
    match env.to_branch {
        Some(b) => Some(b@),
        None => match config_text(repo, "to-branch"@) {
            Some(c) => Some(c),
            None => opt_view(repo.head),
        },
    }
}

/// In each value of a descriptor the environment wins over the repository
/// configuration, which wins over the fallback (`origin` for remotes, the
/// default branch to merge to, the checked-out branch to merge from).
pub proof fn lemma_descriptor_precedence(repo: Repo, env: Env)
    ensures
        env.to_remote matches Some(e) ==> to_remote_of(repo, env) == e@ && from_remote_of(repo, env)
            == e@,
        env.to_remote is None ==> to_remote_of(repo, env) == match config_text(repo, "to-remote"@) {
            Some(c) => c,
            None => "origin"@,
        },
        env.to_remote is None ==> from_remote_of(repo, env) == match config_text(
            repo,
            "from-remote"@,
        ) {
            Some(c) => c,
            None => "origin"@,
        },
        env.to_branch matches Some(e) ==> to_branch_of(repo, env) == e@ && from_branch_of(repo, env)
            == Some(e@),
        env.to_branch is None ==> to_branch_of(repo, env) == match config_text(repo, "to-branch"@) {
            Some(c) => c,
            None => default_branch(),
        },
        env.to_branch is None ==> from_branch_of(repo, env) == match config_text(
            repo,
            "to-branch"@,
        ) {
            Some(c) => Some(c),
            None => opt_view(repo.head),
        },
{
}

/// The remote to merge to, resolved without explicit choices.
pub fn build_to_remote(repo: &Repo, env: &Env) -> (r: String)
    ensures
        r@ == to_remote_of(*repo, *env),
{
    resolve(None, copy_opt(&env.to_remote), repo.config_string(None, "to-remote"), String::from_str("origin"))
}

/// The remote to merge from, resolved without explicit choices.
pub fn build_from_remote(repo: &Repo, env: &Env) -> (r: String)
    ensures
        r@ == from_remote_of(*repo, *env),
{
    resolve(None, copy_opt(&env.to_remote), repo.config_string(None, "from-remote"), String::from_str("origin"))
}

/// The branch to merge to, resolved without explicit choices.
pub fn build_to_branch(repo: &Repo, env: &Env) -> (r: String)
    ensures
        r@ == to_branch_of(*repo, *env),
{
    resolve(None, copy_opt(&env.to_branch), repo.config_string(None, "to-branch"), default_branch_name())
}

/// The branch to merge from, resolved without explicit choices; it fails
/// when none of its sources gives one.
pub fn build_from_branch(repo: &Repo, env: &Env) -> (r: Result<String, ReqError>)
    ensures
        match from_branch_of(*repo, *env) {
            Some(b) => r matches Ok(s) && s@ == b,
            None => r == Err::<String, ReqError>(ReqError::DetachedHead),
        },
{
    if let Some(e) = &env.to_branch {
        return Ok(e.clone());
    }
    if let Some(c) = repo.config_string(None, "to-branch") {
        return Ok(c);
    }
    match &repo.head {
        Some(h) => Ok(h.clone()),
        None => Err(ReqError::DetachedHead),
    }
}

fn build_to(repo: &Repo, env: &Env) -> (r: Result<Ref, ReqError>)
    ensures
        has_remote(*repo, to_remote_of(*repo, *env)) ==> (r matches Ok(t) && t.remote@
            == to_remote_of(*repo, *env) && t.branch@ == to_branch_of(*repo, *env)),
        !has_remote(*repo, to_remote_of(*repo, *env)) ==> r == Err::<Ref, ReqError>(
            ReqError::InvalidRemote,
        ),
{
    let remote = build_to_remote(repo, env);
    if repo.find_remote(remote.as_str()).is_none() {
        return Err(ReqError::InvalidRemote);
    }
    let branch = build_to_branch(repo, env);
    Ok(Ref { branch, remote })
}

fn build_from(repo: &Repo, env: &Env) -> (r: Result<Ref, ReqError>)
    ensures
        match from_branch_of(*repo, *env) {
            Some(b) => r matches Ok(f) && f.branch@ == b && f.remote@ == from_remote_of(*repo, *env),
            None => r == Err::<Ref, ReqError>(ReqError::DetachedHead),
        },
{
    let remote = build_from_remote(repo, env);
    let branch = build_from_branch(repo, env)?;
    Ok(Ref { branch, remote })
}

impl Req {
    /// Resolves a descriptor from the repository and the environment. The
    /// branch to merge from must resolve, and the remote to merge to must be
    /// configured.
    pub fn build(repo: &Repo, env: &Env) -> (r: Result<Req, ReqError>)
        ensures
            from_branch_of(*repo, *env) is None ==> r == Err::<Req, ReqError>(
                ReqError::DetachedHead,
            ),
            from_branch_of(*repo, *env) is Some && !has_remote(*repo, to_remote_of(*repo, *env))
                ==> r == Err::<Req, ReqError>(ReqError::InvalidRemote),
            from_branch_of(*repo, *env) is Some && has_remote(*repo, to_remote_of(*repo, *env))
                ==> (r matches Ok(q) && Some(q.from.branch@) == from_branch_of(*repo, *env)
                && q.from.remote@ == from_remote_of(*repo, *env) && q.to.branch@ == to_branch_of(
                *repo,
                *env,
            ) && q.to.remote@ == to_remote_of(*repo, *env)),
    {
        let from = build_from(repo, env)?;
        let to = build_to(repo, env)?;
        Ok(Req { from, to })
    }

    /// Checks the descriptor against the repository. Identical sides are
    /// refused first, whether or not they exist; then both branches must be
    /// local branches, then both remotes must be configured. An accepted
    /// descriptor is handed back unchanged.
    pub fn validate(self, repo: &Repo) -> (r: Result<Req, ReqError>)
        ensures
            same_ref(self) ==> r == Err::<Req, ReqError>(ReqError::SameRef),
            !same_ref(self) && !branches_exist(self, *repo) ==> r == Err::<Req, ReqError>(
                ReqError::InvalidBranch,
            ),
            !same_ref(self) && branches_exist(self, *repo) && !remotes_exist(self, *repo) ==> r
                == Err::<Req, ReqError>(ReqError::InvalidRemote),
            !same_ref(self) && branches_exist(self, *repo) && remotes_exist(self, *repo) ==> r
                == Ok::<Req, ReqError>(self),
    {
        if self.from.branch == self.to.branch && self.from.remote == self.to.remote {
            return Err(ReqError::SameRef);
        }
        let from_branch = repo.branch_exists(self.from.branch.as_str());
        let to_branch = repo.branch_exists(self.to.branch.as_str());
        let from_remote = repo.find_remote(self.from.remote.as_str()).is_some();
        let to_remote = repo.find_remote(self.to.remote.as_str()).is_some();
        if !from_branch || !to_branch {
            return Err(ReqError::InvalidBranch);
        }
        if !from_remote || !to_remote {
            return Err(ReqError::InvalidRemote);
        }
        Ok(self)
    }

    /// Applies the explicit choices of `opts`; each field without one keeps
    /// its value.
    pub fn overwrite(&mut self, opts: &Common)
        ensures
            final(self).from.branch@ == overridden(opts.from_branch, old(self).from.branch@),
            final(self).from.remote@ == overridden(opts.from_remote, old(self).from.remote@),
            final(self).to.branch@ == overridden(opts.to_branch, old(self).to.branch@),
            final(self).to.remote@ == overridden(opts.to_remote, old(self).to.remote@),
    {
        if let Some(b) = &opts.from_branch {
            self.from.branch = b.clone();
        }
        if let Some(r) = &opts.from_remote {
            self.from.remote = r.clone();
        }
        if let Some(b) = &opts.to_branch {
            self.to.branch = b.clone();
        }
        if let Some(r) = &opts.to_remote {
            self.to.remote = r.clone();
        }
    }
}

} // verus!

verus! {

impl crate::errors::Error for ReqError {
    open spec fn exit_code(&self) -> i32 {
        1
    }

    open spec fn text(&self) -> Seq<char> {
        match self {
            ReqError::InvalidRemote => "invalid remote reference"@,
            ReqError::InvalidBranch => "invalid branch reference"@,
            ReqError::SameRef => "can't pull request the same branch of the same repository"@,
            ReqError::DetachedHead => "no branch is checked out"@,
        }
    }

    fn status(&self) -> (r: i32) {
        1
    }

    fn message(&self) -> (r: String) {
        match self {
            ReqError::InvalidRemote => String::from_str("invalid remote reference"),
            ReqError::InvalidBranch => String::from_str("invalid branch reference"),
            ReqError::SameRef => String::from_str(
                "can't pull request the same branch of the same repository",
            ),
            ReqError::DetachedHead => String::from_str("no branch is checked out"),
        }
    }
}

} // verus!
