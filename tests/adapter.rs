use tidal::cred::token_file_name;
use tidal::github::cli::{GithubCli, Id as CliId};
use tidal::github::req::Id;
use tidal::github::{components, get_body, get_id, path_owner_repo, repo_parts};
use tidal::repo::{Env, PushUrl, Remote, Repo};
use tidal::{find_driver, Common, Desc, Driver, Error, Exit, GithubError, HttpFailure, NotGitRepo, Req, SysErrorHandler};

fn s(x: &str) -> String {
    x.to_string()
}

fn cli(title: Option<&str>, issue: Option<u64>, description: Option<Desc>) -> GithubCli {
    GithubCli {
        id: CliId { title: title.map(s), issue },
        description,
        open: false,
        draft: true,
        fixup: false,
        common: Common { from_branch: None, to_branch: None, from_remote: None, to_remote: None },
    }
}

fn one_remote_repo(path: &str) -> Repo {
    Repo {
        remotes: vec![Remote { name: s("origin"), push_url: Some(PushUrl { host: Some(s("github.com")), path: s(path) }) }],
        branches: vec![s("main"), s("feature")],
        head: Some(s("feature")),
        config: vec![],
    }
}

#[test]
fn path_components_forms() {
    assert_eq!(components("/owner/repo.git"), vec![s("owner"), s("repo.git")]);
    assert_eq!(components("owner//./repo/"), vec![s("owner"), s("repo")]);
    assert_eq!(components(""), Vec::<String>::new());
}

#[test]
fn owner_and_repository_of_path() {
    assert_eq!(path_owner_repo("owner/repo.git"), Some((s("owner"), s("repo.git"))));
    assert_eq!(path_owner_repo("/a/b/c"), Some((s("b"), s("c"))));
    assert_eq!(path_owner_repo("/repo"), None);
    assert_eq!(path_owner_repo("a/.."), None);
}

#[test]
fn repo_parts_of_remote() {
    let r = one_remote_repo("/me/proj.git");
    assert_eq!(repo_parts(&r, "origin").ok(), Some((s("me"), s("proj.git"))));
    assert!(matches!(repo_parts(&r, "fork"), Err(GithubError::RemoteUrl)));
}

#[test]
fn identifier_title_first() {
    assert!(matches!(get_id(&cli(Some("Fix"), Some(3), None)), Id::Title(t) if t == "Fix"));
    assert!(matches!(get_id(&cli(None, Some(42), None)), Id::Issue(42)));
}

#[test]
fn body_sources() {
    assert_eq!(get_body(&cli(Some("t"), None, None), None).ok(), Some(s("")));
    assert_eq!(get_body(&cli(Some("t"), None, Some(Desc::Inline(s("inline")))), Some(s("ignored"))).ok(), Some(s("inline")));
    assert_eq!(get_body(&cli(Some("t"), None, Some(Desc::Stdin)), Some(s("piped"))).ok(), Some(s("piped")));
    let failed = get_body(&cli(Some("t"), None, Some(Desc::File(s("x.md")))), None);
    assert!(matches!(failed, Err(GithubError::FailedDescription(Desc::File(p))) if p == "x.md"));
}

#[test]
fn issue_payload_has_no_title() {
    let r = one_remote_repo("/me/proj.git");
    let gh = tidal::Github { base: s("api.github.com") };
    let q = Req { from: tidal::Ref { branch: s("feature"), remote: s("origin") }, to: tidal::Ref { branch: s("main"), remote: s("origin") } };
    let pr = gh.create_pull_request(&r, q, &cli(None, Some(42), None), None).ok().unwrap();
    assert!(matches!(pr.payload.id, Id::Issue(42)));
}

#[test]
fn end_to_end_single_github_remote() {
    let r = one_remote_repo("/me/proj.git");
    let env = Env { host: None, to_branch: None, to_remote: None };
    let driver = find_driver(&r, &env).ok().unwrap();
    let Driver::Github(gh) = driver;
    assert_eq!(gh.base, "api.github.com");
    let q = Req::build(&r, &env).ok().unwrap();
    assert_eq!((q.from.branch.as_str(), q.from.remote.as_str()), ("feature", "origin"));
    assert_eq!((q.to.branch.as_str(), q.to.remote.as_str()), ("main", "origin"));
    let q = q.validate(&r).ok().unwrap();
    let pr = gh.create_pull_request(&r, q, &cli(Some("Add feature"), None, Some(Desc::Inline(s("body")))), None).ok().unwrap();
    assert_eq!(pr.payload.head, "proj.git:feature");
    assert_eq!(pr.payload.base, "main");
    assert_eq!(pr.payload.body, "body");
    assert!(pr.payload.draft);
    assert!(!pr.payload.maintainer_can_modify);
    assert!(pr.payload.head_repo.is_none());
    assert!(matches!(pr.payload.id, Id::Title(t) if t == "Add feature"));
    assert_eq!(pr.url, "https://api.github.com/repos/me/proj.git/pulls");
}

#[test]
fn create_fails_on_description_first() {
    let r = one_remote_repo("/proj.git");
    let gh = tidal::Github { base: s("api.github.com") };
    let q = Req { from: tidal::Ref { branch: s("feature"), remote: s("origin") }, to: tidal::Ref { branch: s("main"), remote: s("origin") } };
    let res = gh.create_pull_request(&r, q, &cli(Some("t"), None, Some(Desc::Stdin)), None);
    assert!(matches!(res, Err(GithubError::FailedDescription(Desc::Stdin))));
}

#[test]
fn create_fails_on_short_remote_path() {
    let r = one_remote_repo("/proj.git");
    let gh = tidal::Github { base: s("api.github.com") };
    let q = Req { from: tidal::Ref { branch: s("feature"), remote: s("origin") }, to: tidal::Ref { branch: s("main"), remote: s("origin") } };
    let res = gh.create_pull_request(&r, q, &cli(Some("t"), None, None), None);
    assert!(matches!(res, Err(GithubError::RemoteUrl)));
}

#[test]
fn http_failure_classification() {
    assert!(matches!(GithubError::from_failure(HttpFailure { status: Some(403), message: s("no") }), GithubError::Forbidden));
    assert!(matches!(GithubError::from_failure(HttpFailure { status: Some(422), message: s("bad") }), GithubError::Validation));
    let other = GithubError::from_failure(HttpFailure { status: Some(500), message: s("boom") });
    assert!(matches!(&other, GithubError::Http(f) if f.status == Some(500) && f.message == "boom"));
    assert_eq!(other.message(), "http error: boom");
    assert!(matches!(GithubError::from_failure(HttpFailure { status: None, message: s("dns") }), GithubError::Http(_)));
}

#[test]
fn github_error_status() {
    assert_eq!(GithubError::NoToken.status(), 2);
    assert_eq!(GithubError::FailedToOpen.message(), "failed to open pull request in browser");
    assert_eq!(tidal::DriverError::Github(GithubError::Forbidden).status(), 2);
    assert_eq!(tidal::DriverError::Github(GithubError::Forbidden).message(), "not permitted to create pull request");
}

#[test]
fn handle_system_error_outcomes() {
    let ok: Result<u8, NotGitRepo> = Ok(7);
    assert!(matches!(ok.handle_system_error(), Ok(7)));
    let err: Result<u8, NotGitRepo> = Err(NotGitRepo);
    match err.handle_system_error() {
        Err(Exit { status, message }) => {
            assert_eq!(status, 32);
            assert_eq!(message, "current directory is not in a repository");
        }
        Ok(_) => panic!("expected an exit"),
    }
}

#[test]
fn credential_file_name() {
    assert_eq!(token_file_name("api.github.com"), "api.github.com.gpg");
}
