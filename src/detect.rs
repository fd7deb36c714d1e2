//! Which provider backs the repository, found from its remotes.
use vstd::prelude::*;
use vstd::utf8::{decode_utf8, valid_utf8};

use crate::config::opt_view;
use crate::driver::Driver;
use crate::errors::Error;
use crate::github::Github;
use crate::repo::{last_value, str_eq, utf8_strict, Env, Remote, Repo};
use crate::tidal::copy_opt;

verus! {

/// Why no provider could be selected.
#[derive(Debug)]
pub enum DriverError {
    /// The repository has no remotes.
    NoRemotes,
    /// No remote pushes to the pinned host.
    InvalidPin,
    /// The remotes do not push to one single host.
    DivergingRemotes,
    /// Neither the configuration nor the known hosts name a provider.
    NoDriverFound,
    /// The configuration names a provider kind that does not exist.
    UnknownDriver(Vec<u8>),
    /// The configured API host is not UTF-8.
    MalformedHost(Vec<u8>),
}

/// The host of a remote's push URL, if it has one.
pub open spec fn push_host(r: Remote) -> Option<Seq<char>> {
    match r.push_url {
        Some(u) => opt_view(u.host),
        None => None,
    }
}

/// Whether some remote pushes to host `h`.
pub open spec fn has_host(rs: Seq<Remote>, h: Seq<char>) -> bool {
    exists|i: int| 0 <= i < rs.len() && #[trigger] push_host(rs[i]) == Some(h)
}

/// Whether `h` is the one host that the remotes push to: some remote pushes
/// to it and every remote with a host pushes to it.
pub open spec fn sole_host(rs: Seq<Remote>, h: Seq<char>) -> bool {
    &&& has_host(rs, h)
    &&& forall|i: int| 0 <= i < rs.len() && (#[trigger] push_host(rs[i])) is Some ==> push_host(rs[i]) == Some(h)
}

/// The host that discovery settles on. Without remotes there is none; a
/// pinned host stands if some remote pushes to it; otherwise all remotes
/// with a host must agree on one.
pub open spec fn discovered(rs: Seq<Remote>, pin: Option<Seq<char>>) -> Result<Seq<char>, DriverError> {
    if rs.len() == 0 {
        Err(DriverError::NoRemotes)
    } else {
        match pin {
            Some(p) => if has_host(rs, p) {
                Ok(p)
            } else {
                Err(DriverError::InvalidPin)
            },
            None => if exists|h: Seq<char>| sole_host(rs, h) {
                Ok(choose|h: Seq<char>| sole_host(rs, h))
            } else {
                Err(DriverError::DivergingRemotes)
            },
        }
    }
}

/// The view of a result that carries a string.
pub open spec fn text_result(r: Result<String, DriverError>) -> Result<Seq<char>, DriverError> {
    match r {
        Ok(s) => Ok(s@),
        Err(e) => Err(e),
    }
}

/// Finds the host that the remotes push to, or the pinned one.
pub fn discover_host(remotes: &Vec<Remote>, pin: Option<String>) -> (r: Result<String, DriverError>)
    ensures
        text_result(r) == discovered(remotes@, opt_view(pin)),
{
    if remotes.len() == 0 {
        return Err(DriverError::NoRemotes);
    }
    if let Some(pinned) = pin {
        let mut i: usize = 0;
        while i < remotes.len()
            invariant
                i <= remotes@.len(),
                opt_view(pin) == Some(pinned@),
                forall|j: int| 0 <= j < i ==> push_host(#[trigger] remotes@[j]) != Some(pinned@),
            decreases remotes@.len() - i,
        {
            if let Some(u) = &remotes[i].push_url {
                if let Some(h) = &u.host {
                    if *h == pinned {
                        assert(push_host(remotes@[i as int]) == Some(pinned@));
                        assert(has_host(remotes@, pinned@));
                        return Ok(pinned);
                    }
                }
            }
            i += 1;
        }
        assert(!has_host(remotes@, pinned@));
        Err(DriverError::InvalidPin)
    } else {
        let mut first: Option<String> = None;
        let mut diverge = false;
        let ghost mut witness: int = 0;
        let mut i: usize = 0;
        while i < remotes.len()
            invariant
                i <= remotes@.len(),
                pin is None,
                first is None ==> forall|j: int| 0 <= j < i ==> push_host(#[trigger] remotes@[j]) is None,
                first is None ==> !diverge,
                first is Some ==> 0 <= witness < i && push_host(remotes@[witness]) == Some(first->0@),
                first is Some && !diverge ==> forall|j: int|
                    0 <= j < i && (#[trigger] push_host(remotes@[j])) is Some ==> push_host(remotes@[j])
                        == Some(first->0@),
                first is Some && diverge ==> exists|j: int|
                    0 <= j < i && (#[trigger] push_host(remotes@[j])) is Some && push_host(remotes@[j])
                        != Some(first->0@),
            decreases remotes@.len() - i,
        {
            if let Some(u) = &remotes[i].push_url {
                if let Some(h) = &u.host {
                    match &first {
                        None => {
                            first = Some(h.clone());
                            proof {
                                witness = i as int;
                            }
                        },
                        Some(f) => {
                            if !(*f == *h) {
                                diverge = true;
                                assert(push_host(remotes@[i as int]) != Some(f@));
                            }
                        },
                    }
                }
            }
            i += 1;
        }
        match first {
            Some(f) => {
                if diverge {
                    assert forall|h: Seq<char>| !sole_host(remotes@, h) by {
                        if sole_host(remotes@, h) {
                            assert(push_host(remotes@[witness]) == Some(h));
                        }
                    }
                    Err(DriverError::DivergingRemotes)
                } else {
                    assert(sole_host(remotes@, f@));
                    let ghost c = choose|h: Seq<char>| sole_host(remotes@, h);
                    assert(push_host(remotes@[witness]) == Some(c));
                    Ok(f)
                }
            },
            None => {
                assert forall|h: Seq<char>| !sole_host(remotes@, h) by {
                    if sole_host(remotes@, h) {
                        let j = choose|j: int| 0 <= j < remotes@.len() && #[trigger] push_host(remotes@[j]) == Some(h);
                        assert(push_host(remotes@[j]) is None);
                    }
                }
                Err(DriverError::DivergingRemotes)
            },
        }
    }
}

/// The name of the GitHub provider kind, as bytes.
pub open spec fn github_kind() -> Seq<u8> {
    seq![103u8, 105u8, 116u8, 104u8, 117u8, 98u8]
}

/// The view of optional bytes.
pub open spec fn opt_bytes(o: Option<&[u8]>) -> Option<Seq<u8>> {
    match o {
        Some(b) => Some(b@),
        None => None,
    }
}

/// Whether `r` is the adapter that a configured kind `ty` makes for `host`,
/// with an optional API host override: an override that is not UTF-8 is
/// refused first; then `github` makes the GitHub adapter on the override or
/// on `host`, and any other kind is unknown.
pub open spec fn driver_built(
    ty: Seq<u8>,
    host: Seq<char>,
    ovr: Option<Seq<u8>>,
    r: Result<Driver, DriverError>,
) -> bool {
    match ovr {
        Some(o) if !valid_utf8(o) => r matches Err(DriverError::MalformedHost(b)) && b@ == o,
        _ => if ty == github_kind() {
            r matches Ok(Driver::Github(g)) && g.base@ == match ovr {
                Some(o) => decode_utf8(o),
                None => host,
            }
        } else {
            r matches Err(DriverError::UnknownDriver(t)) && t@ == ty
        },
    }
}

/// Makes the adapter of a configured kind for a host.
pub fn build_driver(ty: &[u8], host: &str, host_override: Option<&[u8]>) -> (r: Result<
    Driver,
    DriverError,
>)
    ensures
        driver_built(ty@, host@, opt_bytes(host_override), r),
{
    let base = match host_override {
        Some(o) => match utf8_strict(o) {
            Some(s) => s,
            None => return Err(DriverError::MalformedHost(vstd::slice::slice_to_vec(o))),
        },
        None => String::from_str(host),
    };
    if ty.len() == 6 && ty[0] == 103u8 && ty[1] == 105u8 && ty[2] == 116u8 && ty[3] == 104u8
        && ty[4] == 117u8 && ty[5] == 98u8 {
        assert(ty@ =~= github_kind());
        Ok(Driver::Github(Github { base }))
    } else {
        assert(ty@ != github_kind()) by {
            if ty@ == github_kind() {
                assert(ty@[0] == 103u8 && ty@[1] == 105u8 && ty@[2] == 116u8);
                assert(ty@[3] == 104u8 && ty@[4] == 117u8 && ty@[5] == 98u8);
            }
        }
        Err(DriverError::UnknownDriver(vstd::slice::slice_to_vec(ty)))
    }
}

/// The API host of a well-known provider host.
pub open spec fn default_base(host: Seq<char>) -> Option<Seq<char>> {
    if host == "github.com"@ {
        Some("api.github.com"@)
    } else {
        None
    }
}

/// The adapter for a well-known host, if the host is one.
pub fn build_default_deriver(host: &str) -> (r: Option<Driver>)
    ensures
        match default_base(host@) {
            Some(b) => r matches Some(Driver::Github(g)) && g.base@ == b,
            None => r is None,
        },
{
    if str_eq(host, "github.com") {
        Some(Driver::Github(Github { base: String::from_str("api.github.com") }))
    } else {
        None
    }
}

/// Whether `r` is the adapter selected for `host`: the kind configured for
/// the host, with its API host override, wins over the well-known hosts.
pub open spec fn detected(repo: Repo, host: Seq<char>, r: Result<Driver, DriverError>) -> bool {
    match last_value(repo.config@, Some(host), "driver"@) {
        Some(ty) => driver_built(ty, host, last_value(repo.config@, Some(host), "host"@), r),
        None => match default_base(host) {
            Some(b) => r matches Ok(Driver::Github(g)) && g.base@ == b,
            None => r matches Err(DriverError::NoDriverFound),
        },
    }
}

/// Selects the adapter for a discovered host.
pub fn detect_driver(repo: &Repo, host: &str) -> (r: Result<Driver, DriverError>)
    ensures
        detected(*repo, host@, r),
{
    if let Some(ty) = repo.config_bytes(Some(host), "driver") {
        let host_override = repo.config_bytes(Some(host), "host");
        return match &host_override {
            Some(o) => build_driver(ty.as_slice(), host, Some(o.as_slice())),
            None => build_driver(ty.as_slice(), host, None),
        };
    }
    if let Some(driver) = build_default_deriver(host) {
        return Ok(driver);
    }
    Err(DriverError::NoDriverFound)
}

/// Finds the adapter for the repository: discovers its host, then selects
/// the adapter for that host.
pub fn find_driver(repo: &Repo, env: &Env) -> (r: Result<Driver, DriverError>)
    ensures
        match discovered(repo.remotes@, opt_view(env.host)) {
            Ok(h) => detected(*repo, h, r),
            Err(e) => r matches Err(x) && x == e,
        },
{
    match discover_host(&repo.remotes, copy_opt(&env.host)) {
        Ok(host) => detect_driver(repo, host.as_str()),
        Err(e) => Err(e),
    }
}

impl Error for DriverError {
    open spec fn exit_code(&self) -> i32 {
        5
    }

    open spec fn text(&self) -> Seq<char> {
        match self {
            DriverError::NoRemotes => "no remotes are configured"@,
            DriverError::InvalidPin => "pinned host is not in remotes"@,
            DriverError::DivergingRemotes => "all remotes do not have the same host"@,
            DriverError::NoDriverFound => "failed to find driver"@,
            DriverError::UnknownDriver(name) => "unknown driver: "@ + crate::repo::lossy_utf8(name@),
            DriverError::MalformedHost(host) => "malformed host "@ + crate::repo::lossy_utf8(host@),
        }
    }

    fn status(&self) -> (r: i32) {
        5
    }

    fn message(&self) -> (r: String) {
        match self {
            DriverError::NoRemotes => String::from_str("no remotes are configured"),
            DriverError::InvalidPin => String::from_str("pinned host is not in remotes"),
            DriverError::DivergingRemotes => String::from_str("all remotes do not have the same host"),
            DriverError::NoDriverFound => String::from_str("failed to find driver"),
            DriverError::UnknownDriver(name) => String::from_str("unknown driver: ").concat(
                crate::repo::utf8_lossy(name.as_slice()).as_str(),
            ),
            DriverError::MalformedHost(host) => String::from_str("malformed host ").concat(
                crate::repo::utf8_lossy(host.as_slice()).as_str(),
            ),
        }
    }
}

/// Two remotes that push to one host give that host; two that push to
/// different hosts diverge.
pub proof fn lemma_two_remotes(rs: Seq<Remote>, a: Seq<char>, b: Seq<char>)
    requires
        rs.len() == 2,
        push_host(rs[0]) == Some(a),
        push_host(rs[1]) == Some(b),
    ensures
        a == b ==> discovered(rs, None) == Ok::<Seq<char>, DriverError>(a),
        a != b ==> discovered(rs, None) == Err::<Seq<char>, DriverError>(DriverError::DivergingRemotes),
{
    if a == b {
        assert(sole_host(rs, a));
        let c = choose|h: Seq<char>| sole_host(rs, h);
        assert(push_host(rs[0]) == Some(c));
    } else {
        assert forall|h: Seq<char>| !sole_host(rs, h) by {
            if sole_host(rs, h) {
                assert(push_host(rs[0]) == Some(h));
                assert(push_host(rs[1]) == Some(h));
            }
        }
    }
}

/// A repository without remotes has no host, pinned or not.
pub proof fn lemma_no_remotes(rs: Seq<Remote>, pin: Option<Seq<char>>)
    requires
        rs.len() == 0,
    ensures
        discovered(rs, pin) == Err::<Seq<char>, DriverError>(DriverError::NoRemotes),
{
}

/// A pinned host stands exactly when some remote pushes to it.
pub proof fn lemma_pinned(rs: Seq<Remote>, a: Seq<char>, b: Seq<char>, pin: Seq<char>)
    requires
        rs.len() == 2,
        push_host(rs[0]) == Some(a),
        push_host(rs[1]) == Some(b),
    ensures
        pin == a || pin == b ==> discovered(rs, Some(pin)) == Ok::<Seq<char>, DriverError>(pin),
        pin != a && pin != b ==> discovered(rs, Some(pin)) == Err::<Seq<char>, DriverError>(
            DriverError::InvalidPin,
        ),
{
    if pin == a {
        assert(push_host(rs[0]) == Some(pin));
    } else if pin == b {
        assert(push_host(rs[1]) == Some(pin));
    } else {
        assert forall|i: int| 0 <= i < rs.len() implies push_host(rs[i]) != Some(pin) by {
            assert(i == 0 || i == 1);
        }
    }
}

} // verus!
