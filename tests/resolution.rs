use std::str::FromStr;
use tidal::config::resolve;
use tidal::repo::{ConfigEntry, Env, PushUrl, Remote, Repo};
use tidal::tidal::{build_from_branch, build_from_remote, build_to_branch, build_to_remote};
use tidal::{Common, Desc, Error, Ref, Req, ReqError};

fn s(x: &str) -> String {
    x.to_string()
}

fn remote(name: &str, host: &str, path: &str) -> Remote {
    Remote {
        name: s(name),
        push_url: Some(PushUrl { host: Some(s(host)), path: s(path) }),
    }
}

fn entry(key: &str, value: &str) -> ConfigEntry {
    ConfigEntry { subsection: None, key: s(key), value: value.as_bytes().to_vec() }
}

fn repo(remotes: Vec<Remote>, branches: &[&str], head: Option<&str>, config: Vec<ConfigEntry>) -> Repo {
    Repo {
        remotes,
        branches: branches.iter().map(|b| s(b)).collect(),
        head: head.map(s),
        config,
    }
}

fn no_env() -> Env {
    Env { host: None, to_branch: None, to_remote: None }
}

fn req(fb: &str, fr: &str, tb: &str, tr: &str) -> Req {
    Req {
        from: Ref { branch: s(fb), remote: s(fr) },
        to: Ref { branch: s(tb), remote: s(tr) },
    }
}

#[test]
fn resolve_explicit_wins_over_all_tiers() {
    let r = resolve(Some(s("cli")), Some(s("env")), Some(s("cfg")), s("default"));
    assert_eq!(r, "cli");
}

#[test]
fn resolve_env_wins_over_config_and_default() {
    assert_eq!(resolve(None, Some(s("env")), Some(s("cfg")), s("default")), "env");
}

#[test]
fn resolve_env_empty_value_is_kept() {
    assert_eq!(resolve(None, Some(s("")), Some(s("cfg")), s("default")), "");
}

#[test]
fn resolve_config_wins_over_default() {
    assert_eq!(resolve(None, None, Some(s("cfg")), s("default")), "cfg");
}

#[test]
fn resolve_default_last() {
    assert_eq!(resolve(None, None, None, s("origin")), "origin");
}

#[test]
fn desc_parse_forms() {
    assert!(matches!(Desc::parse("-"), Desc::Stdin));
    assert!(matches!(Desc::parse("@notes.md"), Desc::File(p) if p == "notes.md"));
    assert!(matches!(Desc::parse("fix it"), Desc::Inline(t) if t == "fix it"));
    assert!(matches!(Desc::parse(""), Desc::Inline(t) if t.is_empty()));
    assert!(matches!(Desc::parse("@"), Desc::File(p) if p.is_empty()));
    assert!(matches!(Desc::parse("--"), Desc::Inline(t) if t == "--"));
}

#[test]
fn desc_from_str_matches_parse() {
    let d: Desc = "@body.txt".parse().unwrap();
    assert!(matches!(d, Desc::File(p) if p == "body.txt"));
}

#[test]
fn overwrite_only_present_fields() {
    let mut q = req("a", "origin", "main", "origin");
    let opts = Common { from_branch: Some(s("feature")), to_branch: None, from_remote: None, to_remote: Some(s("upstream")) };
    q.overwrite(&opts);
    assert_eq!(q.from.branch, "feature");
    assert_eq!(q.from.remote, "origin");
    assert_eq!(q.to.branch, "main");
    assert_eq!(q.to.remote, "upstream");
}

fn membership_repo() -> Repo {
    repo(
        vec![remote("origin", "github.com", "/me/proj.git"), remote("fork", "github.com", "/you/proj.git")],
        &["main", "feature"],
        Some("feature"),
        vec![],
    )
}

#[test]
fn validate_accepts_existing_refs() {
    let q = membership_repo();
    let r = req("feature", "fork", "main", "origin").validate(&q);
    let q2 = r.ok().unwrap();
    assert_eq!(q2.from.branch, "feature");
    assert_eq!(q2.from.remote, "fork");
    assert_eq!(q2.to.branch, "main");
    assert_eq!(q2.to.remote, "origin");
}

#[test]
fn validate_missing_branch() {
    let q = membership_repo();
    let r = req("missing", "fork", "main", "origin").validate(&q);
    assert_eq!(r.err(), Some(ReqError::InvalidBranch));
}

#[test]
fn validate_branch_reported_before_remote() {
    let q = membership_repo();
    let r = req("missing", "nowhere", "main", "origin").validate(&q);
    assert_eq!(r.err(), Some(ReqError::InvalidBranch));
}

#[test]
fn validate_missing_remote() {
    let q = membership_repo();
    let r = req("feature", "nowhere", "main", "origin").validate(&q);
    assert_eq!(r.err(), Some(ReqError::InvalidRemote));
}

#[test]
fn validate_same_ref_existing() {
    let q = membership_repo();
    let r = req("main", "origin", "main", "origin").validate(&q);
    assert_eq!(r.err(), Some(ReqError::SameRef));
}

#[test]
fn validate_same_ref_nonexistent() {
    let q = membership_repo();
    let r = req("ghost", "nowhere", "ghost", "nowhere").validate(&q);
    assert_eq!(r.err(), Some(ReqError::SameRef));
}

#[test]
fn build_defaults() {
    let q = repo(vec![remote("origin", "github.com", "/me/proj.git")], &["main", "feature"], Some("feature"), vec![]);
    let r = Req::build(&q, &no_env()).ok().unwrap();
    assert_eq!(r.from.branch, "feature");
    assert_eq!(r.from.remote, "origin");
    assert_eq!(r.to.branch, "main");
    assert_eq!(r.to.remote, "origin");
}

#[test]
fn build_config_then_env() {
    let cfg = vec![entry("to-remote", "up"), entry("from-remote", "fork"), entry("to-branch", "dev")];
    let q = repo(
        vec![remote("origin", "h", "/a/b"), remote("up", "h", "/a/b"), remote("other", "h", "/a/b")],
        &[],
        Some("feature"),
        cfg,
    );
    let r = Req::build(&q, &no_env()).ok().unwrap();
    assert_eq!(r.to.remote, "up");
    assert_eq!(r.from.remote, "fork");
    assert_eq!(r.to.branch, "dev");
    // the branch to merge from reads the key of the branch to merge to
    assert_eq!(r.from.branch, "dev");

    let env = Env { host: None, to_branch: Some(s("release")), to_remote: Some(s("other")) };
    let r = Req::build(&q, &env).ok().unwrap();
    assert_eq!(r.to.remote, "other");
    assert_eq!(r.from.remote, "other");
    assert_eq!(r.to.branch, "release");
    assert_eq!(r.from.branch, "release");
}

#[test]
fn build_later_config_value_wins() {
    let cfg = vec![entry("to-branch", "one"), entry("to-branch", "two")];
    let q = repo(vec![remote("origin", "h", "/a/b")], &[], Some("x"), cfg);
    let r = Req::build(&q, &no_env()).ok().unwrap();
    assert_eq!(r.to.branch, "two");
}

#[test]
fn build_config_value_lossy_text() {
    let cfg = vec![ConfigEntry { subsection: None, key: s("to-branch"), value: vec![b'a', 0xff] }];
    let q = repo(vec![remote("origin", "h", "/a/b")], &[], Some("x"), cfg);
    let r = Req::build(&q, &no_env()).ok().unwrap();
    assert_eq!(r.to.branch, "a\u{fffd}");
}

#[test]
fn build_detached_head() {
    let q = repo(vec![remote("origin", "h", "/a/b")], &["main"], None, vec![]);
    assert_eq!(Req::build(&q, &no_env()).err(), Some(ReqError::DetachedHead));
}

#[test]
fn build_missing_destination_remote() {
    let q = repo(vec![remote("fork", "h", "/a/b")], &["main"], Some("main"), vec![]);
    assert_eq!(Req::build(&q, &no_env()).err(), Some(ReqError::InvalidRemote));
}

#[test]
fn req_error_status_and_messages() {
    assert_eq!(ReqError::SameRef.status(), 1);
    assert_eq!(ReqError::InvalidBranch.message(), "invalid branch reference");
    assert_eq!(ReqError::InvalidRemote.message(), "invalid remote reference");
    assert_eq!(ReqError::SameRef.message(), "can't pull request the same branch of the same repository");
}

fn all_tiers_repo() -> Repo {
    let cfg = vec![entry("to-remote", "cfg-to"), entry("from-remote", "cfg-from"), entry("to-branch", "cfg-branch")];
    repo(vec![remote("origin", "h", "/a/b")], &["main"], Some("head-branch"), cfg)
}

#[test]
fn helpers_environment_wins_with_all_tiers() {
    let q = all_tiers_repo();
    let env = Env { host: None, to_branch: Some(s("env-branch")), to_remote: Some(s("env-remote")) };
    assert_eq!(build_to_remote(&q, &env), "env-remote");
    assert_eq!(build_from_remote(&q, &env), "env-remote");
    assert_eq!(build_to_branch(&q, &env), "env-branch");
    assert_eq!(build_from_branch(&q, &env).ok(), Some(s("env-branch")));
}

#[test]
fn helpers_config_wins_over_fallbacks() {
    let q = all_tiers_repo();
    assert_eq!(build_to_remote(&q, &no_env()), "cfg-to");
    assert_eq!(build_from_remote(&q, &no_env()), "cfg-from");
    assert_eq!(build_to_branch(&q, &no_env()), "cfg-branch");
    assert_eq!(build_from_branch(&q, &no_env()).ok(), Some(s("cfg-branch")));
}

#[test]
fn helpers_fallbacks() {
    let q = repo(vec![remote("origin", "h", "/a/b")], &["main"], Some("head-branch"), vec![]);
    assert_eq!(build_to_remote(&q, &no_env()), "origin");
    assert_eq!(build_from_remote(&q, &no_env()), "origin");
    assert_eq!(build_to_branch(&q, &no_env()), "main");
    assert_eq!(build_from_branch(&q, &no_env()).ok(), Some(s("head-branch")));
    let detached = repo(vec![], &[], None, vec![]);
    assert_eq!(build_from_branch(&detached, &no_env()).err(), Some(ReqError::DetachedHead));
}

#[test]
fn desc_from_str_forms() {
    assert!(matches!(Desc::from_str("-"), Ok(Desc::Stdin)));
    assert!(matches!(Desc::from_str("@notes.md"), Ok(Desc::File(p)) if p == "notes.md"));
    assert!(matches!(Desc::from_str("hello"), Ok(Desc::Inline(t)) if t == "hello"));
}
