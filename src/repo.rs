//! What the library reads of a repository, held as plain values.
//!
//! The caller fills a `Repo` from the version-control backend once per run;
//! the library never writes to it.
use vstd::prelude::*;
use vstd::utf8::{decode_utf8, valid_utf8};

verus! {

/// The push URL of a remote, as far as the library reads it.
pub struct PushUrl {
    /// The network authority, when the URL has one.
    pub host: Option<String>,
    /// The path part of the URL.
    pub path: String,
}

/// A configured remote.
pub struct Remote {
    pub name: String,
    /// `None` where the remote has no URL to push to.
    pub push_url: Option<PushUrl>,
}

/// One value of the repository configuration in the `tidal` section, in file
/// order. Keys are held in lower case, as the backend compares them.
pub struct ConfigEntry {
    pub subsection: Option<String>,
    pub key: String,
    pub value: Vec<u8>,
}

/// A read-only snapshot of a repository.
pub struct Repo {
    /// The configured remotes.
    pub remotes: Vec<Remote>,
    /// The short names of the local branches.
    pub branches: Vec<String>,
    /// The short name of the checked-out branch; `None` when detached.
    pub head: Option<String>,
    /// The entries of the tool's configuration section.
    pub config: Vec<ConfigEntry>,
}

/// The values that the process environment gives the library.
pub struct Env {
    /// The pinned provider host.
    pub host: Option<String>,
    /// The branch override, read for both sides of a request.
    pub to_branch: Option<String>,
    /// The remote override, read for both sides of a request.
    pub to_remote: Option<String>,
}

/// Whether an entry stands under the given subsection and key.
pub open spec fn entry_matches(e: ConfigEntry, sub: Option<Seq<char>>, key: Seq<char>) -> bool {
    &&& e.key@ == key
    &&& match (e.subsection, sub) {
        (None, None) => true,
        (Some(s), Some(t)) => s@ == t,
        _ => false,
    }
}

/// The value that the last matching entry holds: a later value overrides an
/// earlier one.
pub open spec fn last_value(entries: Seq<ConfigEntry>, sub: Option<Seq<char>>, key: Seq<char>) -> Option<
    Seq<u8>,
>
    decreases entries.len(),
{
    if entries.len() == 0 {
        None
    } else if entry_matches(entries.last(), sub, key) {
        Some(entries.last().value@)
    } else {
        last_value(entries.drop_last(), sub, key)
    }
}

/// What `String::from_utf8_lossy` makes of some bytes.
pub uninterp spec fn lossy_utf8(b: Seq<u8>) -> Seq<char>;

/// Relies on `String::from_utf8_lossy`: the result depends on the bytes
/// alone, and valid UTF-8 is decoded as it is.
#[verifier::external_body]
pub(crate) fn utf8_lossy(b: &[u8]) -> (r: String)
    ensures
        r@ == lossy_utf8(b@),
        valid_utf8(b@) ==> r@ == decode_utf8(b@),
{
    String::from_utf8_lossy(b).into_owned()
}

/// Relies on `std::str::from_utf8`: it succeeds exactly on valid UTF-8, and
/// then holds the characters that the bytes encode.
#[verifier::external_body]
pub(crate) fn utf8_strict(b: &[u8]) -> (r: Option<String>)
    ensures
        r is Some <==> valid_utf8(b@),
        r matches Some(s) ==> s@ == decode_utf8(b@),
{
    match std::str::from_utf8(b) {
        Ok(s) => Some(s.to_string()),
        Err(_) => None,
    }
}

/// Whether two string views are equal, in exec code.
pub fn str_eq(a: &str, b: &str) -> (r: bool)
    ensures
        r == (a@ == b@),
{
    let sa = String::from_str(a);
    let sb = String::from_str(b);
    sa == sb
}

/// Whether an entry stands under the given subsection and key, in exec code.
fn entry_is(e: &ConfigEntry, sub: Option<&str>, key: &str) -> (r: bool)
    ensures
        r == entry_matches(*e, opt_str_view(sub), key@),
{
    if !str_eq(e.key.as_str(), key) {
        return false;
    }
    match (&e.subsection, sub) {
        (None, None) => true,
        (Some(s), Some(t)) => str_eq(s.as_str(), t),
        _ => false,
    }
}

/// The view of an optional string slice.
pub open spec fn opt_str_view(o: Option<&str>) -> Option<Seq<char>> {
    match o {
        Some(s) => Some(s@),
        None => None,
    }
}

/// Whether the repository has a remote of the given name.
pub open spec fn has_remote(repo: Repo, name: Seq<char>) -> bool {
    exists|i: int| 0 <= i < repo.remotes@.len() && #[trigger] repo.remotes@[i].name@ == name
}

/// Whether the repository has a local branch of the given short name.
pub open spec fn has_branch(repo: Repo, name: Seq<char>) -> bool {
    exists|i: int| 0 <= i < repo.branches@.len() && #[trigger] repo.branches@[i]@ == name
}

/// The configuration value under the section's own keys, read as text.
pub open spec fn config_text(repo: Repo, key: Seq<char>) -> Option<Seq<char>> {
    match last_value(repo.config@, None, key) {
        Some(v) => Some(lossy_utf8(v)),
        None => None,
    }
}

/// Whether `i` is the position of the first remote of the given name.
pub open spec fn first_named(repo: Repo, name: Seq<char>, i: int) -> bool {
    &&& 0 <= i < repo.remotes@.len()
    &&& repo.remotes@[i].name@ == name
    &&& forall|j: int| 0 <= j < i ==> #[trigger] repo.remotes@[j].name@ != name
}

impl Repo {
    /// The position of the remote of the given name, if there is one.
    pub fn find_remote(&self, name: &str) -> (r: Option<usize>)
        ensures
            match r {
                Some(i) => first_named(*self, name@, i as int),
                None => !has_remote(*self, name@),
            },
    {
        let mut i: usize = 0;
        while i < self.remotes.len()
            invariant
                i <= self.remotes@.len(),
                forall|j: int| 0 <= j < i ==> self.remotes@[j].name@ != name@,
            decreases self.remotes@.len() - i,
        {
            if str_eq(self.remotes[i].name.as_str(), name) {
                return Some(i);
            }
            i += 1;
        }
        None
    }

    /// Whether the repository has a local branch of the given short name.
    pub fn branch_exists(&self, name: &str) -> (r: bool)
        ensures
            r == has_branch(*self, name@),
    {
        let mut i: usize = 0;
        while i < self.branches.len()
            invariant
                i <= self.branches@.len(),
                forall|j: int| 0 <= j < i ==> self.branches@[j]@ != name@,
            decreases self.branches@.len() - i,
        {
            if str_eq(self.branches[i].as_str(), name) {
                return true;
            }
            i += 1;
        }
        false
    }

    /// The configuration value under a subsection and key, as bytes.
    pub fn config_bytes(&self, sub: Option<&str>, key: &str) -> (r: Option<Vec<u8>>)
        ensures
            match r {
                Some(v) => last_value(self.config@, opt_str_view(sub), key@) == Some(v@),
                None => last_value(self.config@, opt_str_view(sub), key@) is None,
            },
    {
        let mut found: Option<Vec<u8>> = None;
        let mut i: usize = 0;
        while i < self.config.len()
            invariant
                i <= self.config@.len(),
                match found {
                    Some(v) => last_value(self.config@.take(i as int), opt_str_view(sub), key@)
                        == Some(v@),
                    None => last_value(self.config@.take(i as int), opt_str_view(sub), key@) is None,
                },
            decreases self.config@.len() - i,
        {
            assert(self.config@.take(i + 1).drop_last() == self.config@.take(i as int));
            if entry_is(&self.config[i], sub, key) {
                found = Some(self.config[i].value.clone());
            }
            i += 1;
        }
        assert(self.config@.take(i as int) == self.config@);
        found
    }

    /// The configuration value under a subsection and key, read as text.
    pub fn config_string(&self, sub: Option<&str>, key: &str) -> (r: Option<String>)
        ensures
            match r {
                Some(s) => last_value(self.config@, opt_str_view(sub), key@) matches Some(v)
                    && s@ == lossy_utf8(v),
                None => last_value(self.config@, opt_str_view(sub), key@) is None,
            },
    {
        match self.config_bytes(sub, key) {
            Some(v) => Some(utf8_lossy(v.as_slice())),
            None => None,
        }
    }
}

} // verus!
