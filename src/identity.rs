//! How the resolver names itself to servers and lays out its narration.

use vstd::prelude::*;

verus! {

/// The client's name, sent before its version.
pub const CLIENT_NAME: &'static str = "unshorten";

/// Where the project lives, sent after the version.
pub const PROJECT_URL: &'static str = "https://github.com/aelew/unshorten";

/// The user agent sent with every probe: `name/version (+project)`.
pub open spec fn identity_of(version: Seq<char>) -> Seq<char> {
    CLIENT_NAME@ + "/"@ + version + " (+"@ + PROJECT_URL@ + ")"@
}

/// Builds the user agent for the given version of the client.
pub fn client_identity(version: &str) -> (r: String)
    ensures
        r@ == identity_of(version@),
{
    let mut r = String::from_str(CLIENT_NAME);
    r.append("/");
    r.append(version);
    r.append(" (+");
    r.append(PROJECT_URL);
    r.append(")");
    r
}

/// How many spaces go before the line of a hop at the given depth: two, and
/// two more for each redirect already followed.
pub fn indent_width(depth: u32) -> (r: u64)
    ensures
        r == 2 + 2 * depth,
{
    2 + 2 * (depth as u64)
}

} // verus!
