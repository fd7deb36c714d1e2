//! The body of a create-pull-request call and of its answer.
use vstd::prelude::*;

verus! {

/// The request that creates a pull request.
pub struct CreatePullRequest {
    pub id: Id,
    /// The branch to merge from, as `owner:branch`.
    pub head: String,
    /// The repository of the head branch, when it differs; never sent.
    pub head_repo: Option<String>,
    /// The branch to merge to.
    pub base: String,
    pub body: String,
    pub draft: bool,
    pub maintainer_can_modify: bool,
}

/// The identifier of a request: it carries either a `title` field or an
/// `issue` field, never both.
#[derive(Debug, Clone)]
pub enum Id {
    Title(String),
    Issue(u64),
}

/// The part of the answer that the adapter reads.
pub struct CreatePullRequestResponse {
    /// Where the created pull request lives.
    pub url: String,
}

/// The field names that a request carries in its JSON body.
pub open spec fn payload_keys(p: CreatePullRequest) -> Set<Seq<char>> {
    set!["head"@, "base"@, "body"@, "draft"@, "maintainer_can_modify"@].insert(
        match p.id {
            Id::Title(_) => "title"@,
            Id::Issue(_) => "issue"@,
        },
    )
}

/// A request names its identifier by exactly one of `title` and `issue`.
pub proof fn lemma_identifier_exclusive(p: CreatePullRequest)
    ensures
        p.id is Issue ==> payload_keys(p).contains("issue"@) && !payload_keys(p).contains("title"@),
        p.id is Title ==> payload_keys(p).contains("title"@) && !payload_keys(p).contains("issue"@),
{
    reveal_strlit("title");
    reveal_strlit("issue");
    reveal_strlit("head");
    reveal_strlit("base");
    reveal_strlit("body");
    reveal_strlit("draft");
    reveal_strlit("maintainer_can_modify");
    assert("title"@[0] != "issue"@[0]);
    assert("title"@[0] != "head"@[0]);
    assert("issue"@[0] != "head"@[0]);
    assert("title"@[0] != "base"@[0]);
    assert("issue"@[0] != "base"@[0]);
    assert("title"@[0] != "body"@[0]);
    assert("issue"@[0] != "body"@[0]);
    assert("title"@[0] != "draft"@[0]);
    assert("issue"@[0] != "draft"@[0]);
    assert("title"@[0] != "maintainer_can_modify"@[0]);
    assert("issue"@[0] != "maintainer_can_modify"@[0]);
}

} // verus!
