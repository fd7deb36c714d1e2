//! Where the credential for a provider host is kept.
use vstd::prelude::*;

verus! {

/// The name of the encrypted secret file that holds the token for `host`,
/// under the `creds` directory of the user's configuration.
pub fn token_file_name(host: &str) -> (r: String)
    ensures
        r@ == host@ + ".gpg"@,
{
    String::from_str(host).concat(".gpg")
}

} // verus!
