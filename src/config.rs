//! Resolution of a single setting through its chain of sources.
use vstd::prelude::*;

verus! {

/// The value that the chain of sources gives: the first one present, in the
/// order explicit value, environment, repository configuration, default.
pub open spec fn resolved(
    explicit: Option<Seq<char>>,
    env: Option<Seq<char>>,
    config: Option<Seq<char>>,
    default: Seq<char>,
) -> Seq<char> {
    match explicit {
        Some(e) => e,
        None => match env {
            Some(v) => v,
            None => match config {
                Some(c) => c,
                None => default,
            },
        },
    }
}

/// The view of an optional string.
pub open spec fn opt_view(o: Option<String>) -> Option<Seq<char>> {
    match o {
        Some(s) => Some(s@),
        None => None,
    }
}

/// Picks the value of a setting: an explicit value wins over the environment,
/// which wins over the repository configuration, which wins over the default.
/// Each value present is taken as it is, an empty one included.
pub fn resolve(
    explicit: Option<String>,
    env: Option<String>,
    config: Option<String>,
    default: String,
) -> (r: String)
    ensures
        r@ == resolved(opt_view(explicit), opt_view(env), opt_view(config), default@),
{
    if let Some(e) = explicit {
        e
    } else if let Some(v) = env {
        v
    } else if let Some(c) = config {
        c
    } else {
        default
    }
}

/// An explicit value always decides the setting, whatever the other sources
/// hold; without one, the environment decides over configuration and default;
/// without either, configuration decides over the default.
pub proof fn lemma_resolve_precedence(
    explicit: Option<Seq<char>>,
    env: Option<Seq<char>>,
    config: Option<Seq<char>>,
    default: Seq<char>,
)
    ensures
        explicit is Some ==> resolved(explicit, env, config, default) == explicit->0,
        explicit is None && env is Some ==> resolved(explicit, env, config, default) == env->0,
        explicit is None && env is None && config is Some ==> resolved(
            explicit,
            env,
            config,
            default,
        ) == config->0,
        explicit is None && env is None && config is None ==> resolved(
            explicit,
            env,
            config,
            default,
        ) == default,
{
}

} // verus!
