//! Versions, and whether a client of one version can talk to a server of
//! another.
//!
//! A version is written as numbers with dots between them. What stands before
//! the last dot names the release line: versions of one line understand each
//! other, even where they differ after the last dot.

use vstd::prelude::*;
use crate::text::chars_of;

verus! {

/// How well two versions go together.
#[derive(Clone, Copy, Debug, PartialEq, Eq, Structural)]
pub enum Compatibility {
    /// The versions are the same.
    Fully,
    /// The versions differ, and still understand each other.
    OkOutdated,
    /// The versions do not understand each other.
    NotCompatible,
}

impl Compatibility {
    /// Whether the two sides can talk at all.
    pub open spec fn spec_is_compatible(&self) -> bool {
        *self != Compatibility::NotCompatible
    }

    /// Whether the two sides can talk at all.
    #[verifier::when_used_as_spec(spec_is_compatible)]
    pub fn is_compatible(&self) -> (compatible: bool)
        ensures
            compatible == self.spec_is_compatible(),
    {
        match self {
            Compatibility::Fully => true,
            Compatibility::OkOutdated => true,
            Compatibility::NotCompatible => false,
        }
    }
}

/// The place of the last dot among the first `end` characters of `version`,
/// or the length of `version` if there is no dot among them.
pub open spec fn last_dot(version: Seq<char>, end: nat) -> nat
    decreases end,
{
    if end == 0 {
        version.len()
    } else if version[end - 1] == '.' {
        (end - 1) as nat
    } else {
        last_dot(version, (end - 1) as nat)
    }
}

/// The release line of `version`: what stands before its last dot, or all of
/// it if it has none.
pub open spec fn release_line(version: Seq<char>) -> Seq<char> {
    version.subrange(0, last_dot(version, version.len()) as int)
}

/// How well a client of version `client` and a server of version `server` go
/// together.
pub open spec fn compatibility(client: Seq<char>, server: Seq<char>) -> Compatibility {
    if client == server {
        Compatibility::Fully
    } else if release_line(client) == release_line(server) {
        Compatibility::OkOutdated
    } else {
        Compatibility::NotCompatible
    }
}

/// Versions that are the same go together fully, and only versions of
/// different release lines do not go together at all.
pub proof fn lemma_compatibility(client: Seq<char>, server: Seq<char>)
    ensures
        compatibility(client, client) == Compatibility::Fully,
        compatibility(client, server) == Compatibility::Fully <==> client == server,
        compatibility(client, server) == Compatibility::NotCompatible <==> release_line(client)
            != release_line(server),
        compatibility(client, server) == compatibility(server, client),
{
}

/// The version of this program.
pub const VERSION: &'static str = "0.1.0";

/// The version of this program.
pub fn current() -> (version: &'static str)
    ensures
        version == VERSION,
{
    VERSION
}

/// The number of characters of `version` that make up its release line.
fn line_length(version: &Vec<char>) -> (length: usize)
    ensures
        length == last_dot(version@, version@.len()),
        length <= version@.len(),
{
    let mut end: usize = version.len();
    while end > 0 && version[end - 1] != '.'
        invariant
            end <= version@.len(),
            last_dot(version@, version@.len()) == last_dot(version@, end as nat),
        decreases end,
    {
        end -= 1;
    }
    if end == 0 {
        version.len()
    } else {
        end - 1
    }
}

/// Whether the first `length` characters of `first` and of `second` are the
/// same.
fn same_start(first: &Vec<char>, second: &Vec<char>, length: usize) -> (same: bool)
    requires
        length <= first@.len(),
        length <= second@.len(),
    ensures
        same == (first@.subrange(0, length as int) == second@.subrange(0, length as int)),
{
    let mut next: usize = 0;
    while next < length
        invariant
            next <= length,
            length <= first@.len(),
            length <= second@.len(),
            forall|i: int| 0 <= i < next ==> first@[i] == second@[i],
        decreases length - next,
    {
        if first[next] != second[next] {
            assert(first@.subrange(0, length as int)[next as int] != second@.subrange(
                0,
                length as int,
            )[next as int]);
            return false;
        }
        next += 1;
    }
    assert(first@.subrange(0, length as int) =~= second@.subrange(0, length as int));
    true
}

/// Says how well a client of `client_version` and a server of
/// `server_version` go together: fully if the versions are the same, well
/// enough if they belong to one release line, and else not at all.
pub fn check(client_version: &str, server_version: &str) -> (verdict: Compatibility)
    ensures
        verdict == compatibility(client_version@, server_version@),
{
    let client = chars_of(client_version);
    let server = chars_of(server_version);
    if client.len() == server.len() && same_start(&client, &server, client.len()) {
        assert(client@.subrange(0, client@.len() as int) =~= client@);
        assert(server@.subrange(0, server@.len() as int) =~= server@);
        return Compatibility::Fully;
    }
    proof {
        if client@ == server@ {
            assert(client@.subrange(0, client@.len() as int) =~= server@.subrange(
                0,
                client@.len() as int,
            ));
        }
    }
    let client_line = line_length(&client);
    let server_line = line_length(&server);
    if client_line == server_line && same_start(&client, &server, client_line) {
        Compatibility::OkOutdated
    } else {
        proof {
            if client_line != server_line {
                assert(release_line(client@).len() != release_line(server@).len());
            }
        }
        Compatibility::NotCompatible
    }
}

} // verus!
