//! The adapter for GitHub's pull request API.
use vstd::prelude::*;

use crate::errors::Error;
use crate::repo::{first_named, has_remote, str_eq, Repo};
use crate::tidal::{Desc, Req};
use self::cli::GithubCli;
use self::req::CreatePullRequest;

pub mod cli;
pub mod req;

verus! {

/// Creates pull requests through GitHub's REST API.
pub struct Github {
    /// The host of the API.
    pub base: String,
}

/// A response of the API that was not a success, or a failed transport.
#[derive(Debug)]
pub struct HttpFailure {
    /// The HTTP status, where a response came.
    pub status: Option<u16>,
    /// What the transport or the response said.
    pub message: String,
}

/// Why the adapter could not create a pull request.
#[derive(Debug)]
pub enum GithubError {
    /// The description could not be read from its source.
    FailedDescription(Desc),
    /// The call failed on the way or with a status of its own.
    Http(HttpFailure),
    /// The API refused the caller.
    Forbidden,
    /// The API found the request invalid.
    Validation,
    /// No credential was found for the API host.
    NoToken,
    /// The created pull request could not be opened in a browser.
    FailedToOpen,
    /// A remote of the request has no push URL with an owner and a repository.
    RemoteUrl,
}

impl GithubError {
    /// Classifies a failed call: status 403 is `Forbidden`, 422 is
    /// `Validation`, anything else is kept as `Http`.
    pub fn from_failure(f: HttpFailure) -> (r: GithubError)
        ensures
            f.status == Some(403u16) ==> r is Forbidden,
            f.status == Some(422u16) ==> r is Validation,
            f.status != Some(403u16) && f.status != Some(422u16) ==> r == GithubError::Http(f),
    {
        match f.status {
            Some(403) => GithubError::Forbidden,
            Some(422) => GithubError::Validation,
            _ => GithubError::Http(f),
        }
    }
}

impl Error for GithubError {
    open spec fn exit_code(&self) -> i32 {
        2
    }

    open spec fn text(&self) -> Seq<char> {
        match self {
            GithubError::Forbidden => "not permitted to create pull request"@,
            GithubError::Validation => "pull request failed validation"@,
            GithubError::FailedDescription(_) => "failed to read description"@,
            GithubError::NoToken => "no token found"@,
            GithubError::Http(f) => "http error: "@ + f.message@,
            GithubError::FailedToOpen => "failed to open pull request in browser"@,
            GithubError::RemoteUrl => "remote has no owner and repository in its push url"@,
        }
    }

    fn status(&self) -> (r: i32) {
        2
    }

    fn message(&self) -> (r: String) {
        match self {
            GithubError::Forbidden => String::from_str("not permitted to create pull request"),
            GithubError::Validation => String::from_str("pull request failed validation"),
            GithubError::FailedDescription(_) => String::from_str("failed to read description"),
            GithubError::NoToken => String::from_str("no token found"),
            GithubError::Http(f) => String::from_str("http error: ").concat(f.message.as_str()),
            GithubError::FailedToOpen => String::from_str("failed to open pull request in browser"),
            GithubError::RemoteUrl => String::from_str(
                "remote has no owner and repository in its push url",
            ),
        }
    }
}

/// The pieces of a path between slashes, empty ones included.
pub open spec fn split_slash(p: Seq<char>) -> Seq<Seq<char>>
    decreases p.len(),
{
    if p.len() == 0 {
        seq![Seq::<char>::empty()]
    } else {
        let rest = split_slash(p.drop_last());
        if p.last() == '/' {
            rest.push(Seq::<char>::empty())
        } else {
            rest.update(rest.len() - 1, rest.last().push(p.last()))
        }
    }
}

/// Whether a piece of a path names a component: it is neither empty nor `.`.
pub open spec fn is_component(c: Seq<char>) -> bool {
    c.len() > 0 && c != "."@
}

/// The pieces that name components, in order.
pub open spec fn components_of(segs: Seq<Seq<char>>) -> Seq<Seq<char>>
    decreases segs.len(),
{
    if segs.len() == 0 {
        Seq::<Seq<char>>::empty()
    } else if is_component(segs.last()) {
        components_of(segs.drop_last()).push(segs.last())
    } else {
        components_of(segs.drop_last())
    }
}

/// The components of a path.
pub open spec fn path_components(p: Seq<char>) -> Seq<Seq<char>> {
    components_of(split_slash(p))
}

/// The owner and the repository that a URL path ends in: its last two
/// components, neither of them `..`.
pub open spec fn path_parts(p: Seq<char>) -> Option<(Seq<char>, Seq<char>)> {
    let c = path_components(p);
    if c.len() >= 2 && c[c.len() - 1] != ".."@ && c[c.len() - 2] != ".."@ {
        Some((c[c.len() - 2], c[c.len() - 1]))
    } else {
        None
    }
}

/// The components of a path.
pub fn components(path: &str) -> (r: Vec<String>)
    ensures
        r@.len() == path_components(path@).len(),
        forall|k: int| 0 <= k < r@.len() ==> #[trigger] r@[k]@ == path_components(path@)[k],
{
    let n = path.unicode_len();
    let mut comps: Vec<String> = Vec::new();
    let ghost mut done: Seq<Seq<char>> = Seq::empty();
    let mut start: usize = 0;
    let mut i: usize = 0;
    proof {
        assert(path@.take(0) =~= Seq::<char>::empty());
        assert(path@.subrange(0, 0) =~= Seq::<char>::empty());
        assert(done.push(Seq::<char>::empty()) =~= seq![Seq::<char>::empty()]);
    }
    while i < n
        invariant
            n == path@.len(),
            start <= i <= n,
            split_slash(path@.take(i as int)) == done.push(path@.subrange(start as int, i as int)),
            comps@.len() == components_of(done).len(),
            forall|k: int| 0 <= k < comps@.len() ==> #[trigger] comps@[k]@ == components_of(done)[k],
        decreases n - i,
    {
        let c = path.get_char(i);
        assert(path@.take(i + 1).drop_last() == path@.take(i as int));
        assert(path@.take(i + 1).last() == c);
        if c == '/' {
            let seg = path.substring_char(start, i);
            let ghost old_done = done;
            proof {
                done = done.push(seg@);
                assert(done.drop_last() == old_done);
            }
            if seg.unicode_len() > 0 && !str_eq(seg, ".") {
                comps.push(String::from_str(seg));
            }
            start = i + 1;
            assert(path@.subrange(start as int, (i + 1) as int) =~= Seq::<char>::empty());
        } else {
            assert(path@.subrange(start as int, i as int).push(c) =~= path@.subrange(
                start as int,
                (i + 1) as int,
            ));
        }
        i += 1;
    }
    let seg = path.substring_char(start, n);
    let ghost last_done = done;
    proof {
        done = done.push(seg@);
        assert(done.drop_last() == last_done);
        assert(path@.take(n as int) =~= path@);
    }
    if seg.unicode_len() > 0 && !str_eq(seg, ".") {
        comps.push(String::from_str(seg));
    }
    comps
}

/// The owner and repository names at the end of a URL path.
pub fn path_owner_repo(path: &str) -> (r: Option<(String, String)>)
    ensures
        match path_parts(path@) {
            Some((o, n)) => r matches Some((a, b)) && a@ == o && b@ == n,
            None => r is None,
        },
{
    let comps = components(path);
    let k = comps.len();
    if k < 2 {
        return None;
    }
    let name = comps[k - 1].clone();
    let owner = comps[k - 2].clone();
    if str_eq(name.as_str(), "..") || str_eq(owner.as_str(), "..") {
        return None;
    }
    Some((owner, name))
}

/// The owner and repository that the push URL of the named remote ends in;
/// `None` where the repository has no such remote, the remote has no push
/// URL, or its path does not end in two components.
pub open spec fn remote_parts(repo: Repo, name: Seq<char>) -> Option<(Seq<char>, Seq<char>)> {
    if has_remote(repo, name) {
        let i = choose|i: int| first_named(repo, name, i);
        match repo.remotes@[i].push_url {
            Some(u) => path_parts(u.path@),
            None => None,
        }
    } else {
        None
    }
}

/// The owner of optional parts.
pub open spec fn owner_part(p: Option<(Seq<char>, Seq<char>)>) -> Seq<char> {
    match p {
        Some((o, _)) => o,
        None => Seq::<char>::empty(),
    }
}

/// The repository of optional parts.
pub open spec fn repo_part(p: Option<(Seq<char>, Seq<char>)>) -> Seq<char> {
    match p {
        Some((_, n)) => n,
        None => Seq::<char>::empty(),
    }
}

/// The owner and repository that a remote pushes to.
pub fn repo_parts(repo: &Repo, remote: &str) -> (r: Result<(String, String), GithubError>)
    ensures
        match remote_parts(*repo, remote@) {
            Some((o, n)) => r matches Ok((a, b)) && a@ == o && b@ == n,
            None => r matches Err(GithubError::RemoteUrl),
        },
{
    let i = match repo.find_remote(remote) {
        Some(i) => i,
        None => return Err(GithubError::RemoteUrl),
    };
    proof {
        let c = choose|k: int| first_named(*repo, remote@, k);
        assert(c == i as int) by {
            if c < i {
                assert(repo.remotes@[c].name@ != remote@);
            } else if c > i {
                assert(repo.remotes@[i as int].name@ != remote@);
            }
        }
    }
    match &repo.remotes[i].push_url {
        Some(u) => match path_owner_repo(u.path.as_str()) {
            Some(parts) => Ok(parts),
            None => Err(GithubError::RemoteUrl),
        },
        None => Err(GithubError::RemoteUrl),
    }
}

/// The identifier that the command line gives: the title where there is
/// one, else the linked issue.
pub fn get_id(cli: &GithubCli) -> (r: req::Id)
    requires
        cli.id.title is Some || cli.id.issue is Some,
    ensures
        match cli.id.title {
            Some(t) => r matches req::Id::Title(x) && x@ == t@,
            None => r == req::Id::Issue(cli.id.issue->0),
        },
{
    if let Some(title) = &cli.id.title {
        req::Id::Title(title.clone())
    } else {
        match cli.id.issue {
            Some(issue) => req::Id::Issue(issue),
            None => req::Id::Issue(0),
        }
    }
}

/// The text of the description: empty without one, the text itself for an
/// inline one, and what was read from standard input or the file otherwise
/// (`None` where reading failed).
pub open spec fn body_of(d: Option<Desc>, loaded: Option<String>) -> Option<Seq<char>> {
    match d {
        None => Some(Seq::<char>::empty()),
        Some(Desc::Inline(s)) => Some(s@),
        Some(_) => match loaded {
            Some(t) => Some(t@),
            None => None,
        },
    }
}

/// The body of the pull request. `loaded` is what was read from the source
/// that the description names, where it is standard input or a file.
pub fn get_body(cli: &GithubCli, loaded: Option<String>) -> (r: Result<String, GithubError>)
    ensures
        match body_of(cli.description, loaded) {
            Some(b) => r matches Ok(s) && s@ == b,
            None => r matches Err(GithubError::FailedDescription(d)) && cli.description == Some(d),
        },
{
    match &cli.description {
        None => Ok(String::new()),
        Some(Desc::Inline(s)) => Ok(s.clone()),
        Some(desc) => match loaded {
            Some(t) => Ok(t),
            None => Err(GithubError::FailedDescription(desc.duplicate())),
        },
    }
}

/// The address of the create-pull-request endpoint for a repository.
pub open spec fn endpoint(base: Seq<char>, owner: Seq<char>, name: Seq<char>) -> Seq<char> {
    "https://"@ + base + "/repos/"@ + owner + "/"@ + name + "/pulls"@
}

/// A pull request ready to be sent: where to, and what.
pub struct PullRequest {
    /// The address of the endpoint.
    pub url: String,
    pub payload: CreatePullRequest,
}

impl Github {
    /// Builds the pull request for a validated descriptor. The description is
    /// read first; then the destination remote gives the repository name that
    /// heads the `head` reference, and the source remote gives the repository
    /// that the request is sent to.
    pub fn create_pull_request(&self, repo: &Repo, req: Req, cli: &GithubCli, loaded: Option<
        String,
    >) -> (r: Result<PullRequest, GithubError>)
        requires
            cli.id.title is Some || cli.id.issue is Some,
        ensures
            body_of(cli.description, loaded) is None ==> (r matches Err(
                GithubError::FailedDescription(d),
            ) && cli.description == Some(d)),
            body_of(cli.description, loaded) is Some && (remote_parts(*repo, req.to.remote@) is None
                || remote_parts(*repo, req.from.remote@) is None) ==> (r matches Err(
                GithubError::RemoteUrl,
            )),
            body_of(cli.description, loaded) is Some && remote_parts(*repo, req.to.remote@) is Some
                && remote_parts(*repo, req.from.remote@) is Some ==> (r matches Ok(pr)
                && pr.url@ == endpoint(
                self.base@,
                owner_part(remote_parts(*repo, req.from.remote@)),
                repo_part(remote_parts(*repo, req.from.remote@)),
            ) && pr.payload.head@ == repo_part(remote_parts(*repo, req.to.remote@)) + ":"@
                + req.from.branch@ && pr.payload.base@ == req.to.branch@ && Some(pr.payload.body@)
                == body_of(cli.description, loaded) && pr.payload.draft == cli.draft
                && pr.payload.maintainer_can_modify == cli.fixup && pr.payload.head_repo is None
                && match cli.id.title {
                Some(t) => pr.payload.id matches req::Id::Title(x) && x@ == t@,
                None => pr.payload.id == req::Id::Issue(cli.id.issue->0),
            }),
    {
        let id = get_id(cli);
        let body = match get_body(cli, loaded) {
            Ok(b) => b,
            Err(e) => return Err(e),
        };
        let (_, our) = match repo_parts(repo, req.to.remote.as_str()) {
            Ok(p) => p,
            Err(e) => return Err(e),
        };
        let (owner, owner_repo) = match repo_parts(repo, req.from.remote.as_str()) {
            Ok(p) => p,
            Err(e) => return Err(e),
        };
        let head = our.concat(":").concat(req.from.branch.as_str());
        let url = String::from_str("https://").concat(self.base.as_str()).concat("/repos/").concat(
            owner.as_str(),
        ).concat("/").concat(owner_repo.as_str()).concat("/pulls");
        let payload = CreatePullRequest {
            id,
            head,
            head_repo: None,
            base: req.to.branch,
            body,
            draft: cli.draft,
            maintainer_can_modify: cli.fixup,
        };
        Ok(PullRequest { url, payload })
    }
}

} // verus!
