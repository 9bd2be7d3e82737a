//! The authorization gate: who may call what.
//!
//! A caller presents a bearer token. Tokens belong to privilege rings; a
//! route asks for a ring, and a caller is admitted where its token's ring is
//! that ring or a more privileged one.

use crate::config::EnvConfig;
use crate::response::{make_query_response, QueryResponse, QueryResponseView};
use crate::text::{lemma_prefix_rest, str_eq, strip_prefix};
use vstd::prelude::*;
use vstd::string::*;

verus! {

/// The prefix of a bearer credential.
pub const BEARER: &'static str = "Bearer ";

/// The prefix of a bearer credential whose space is percent-encoded.
pub const BEARER_ENCODED: &'static str = "Bearer%20";

/// What a caller that is turned away is told.
pub const UNAUTHORIZED: &'static str = "Unauthorized";

/// A privilege ring. The lower its ordinal, the more it may do.
#[derive(Clone, Copy, Debug, PartialEq, Eq, Structural)]
pub enum PrivilegeRing {
    /// Root.
    Ring0,
    /// Read and write.
    Ring1,
    /// Read only.
    Ring2,
    /// Open to everyone: no credential is asked for.
    Public,
}

impl PrivilegeRing {
    /// The ring's ordinal: 0 for root, 3 for public.
    pub open spec fn spec_ordinal(self) -> nat {
        match self {
            PrivilegeRing::Ring0 => 0,
            PrivilegeRing::Ring1 => 1,
            PrivilegeRing::Ring2 => 2,
            PrivilegeRing::Public => 3,
        }
    }

    /// The ring's ordinal: 0 for root, 3 for public.
    pub fn ordinal(self) -> (r: u8)
        ensures
            r == self.spec_ordinal(),
    {
        match self {
            PrivilegeRing::Ring0 => 0,
            PrivilegeRing::Ring1 => 1,
            PrivilegeRing::Ring2 => 2,
            PrivilegeRing::Public => 3,
        }
    }
}

/// A configured secret and the ring that it opens.
#[derive(Clone, Debug, PartialEq, Eq)]
pub struct RingSecret {
    pub token: String,
    pub ring: PrivilegeRing,
}

/// The model of a [`RingSecret`].
pub struct RingSecretView {
    pub token: Seq<char>,
    pub ring: PrivilegeRing,
}

impl DeepView for RingSecret {
    type V = RingSecretView;

    open spec fn deep_view(&self) -> RingSecretView {
        RingSecretView { token: self.token@, ring: self.ring }
    }
}

/// The bearer token of a presented credential: what follows `Bearer ` or
/// `Bearer%20`. A credential that is absent or begins otherwise holds none.
pub open spec fn spec_extract_api_key(authorization: Option<Seq<char>>) -> Option<Seq<char>> {
    match authorization {
        Some(value) => if BEARER@.is_prefix_of(value) {
            Some(value.skip(BEARER@.len() as int))
        } else if BEARER_ENCODED@.is_prefix_of(value) {
            Some(value.skip(BEARER_ENCODED@.len() as int))
        } else {
            None
        },
        None => None,
    }
}

/// The more privileged of a ring found so far and another one.
pub open spec fn spec_more_privileged(found: Option<PrivilegeRing>, ring: PrivilegeRing) -> PrivilegeRing {
    match found {
        Some(best) => if best.spec_ordinal() <= ring.spec_ordinal() {
            best
        } else {
            ring
        },
        None => ring,
    }
}

/// The ring that a token resolves to: the most privileged ring among the
/// secrets that are exactly this token; `None` where no secret is.
pub open spec fn spec_resolve(secrets: Seq<RingSecretView>, token: Seq<char>) -> Option<
    PrivilegeRing,
>
    decreases secrets.len(),
{
    if secrets.len() == 0 {
        None
    } else if secrets.last().token == token {
        Some(spec_more_privileged(spec_resolve(secrets.drop_last(), token), secrets.last().ring))
    } else {
        spec_resolve(secrets.drop_last(), token)
    }
}

/// Whether a caller is admitted: always where the route is public; otherwise
/// where the credential holds a bearer token that resolves to a ring whose
/// ordinal is at most that of the required ring.
pub open spec fn spec_admits(
    authorization: Option<Seq<char>>,
    required: PrivilegeRing,
    secrets: Seq<RingSecretView>,
) -> bool {
    required == PrivilegeRing::Public || match spec_extract_api_key(authorization) {
        Some(token) => match spec_resolve(secrets, token) {
            Some(ring) => ring.spec_ordinal() <= required.spec_ordinal(),
            None => false,
        },
        None => false,
    }
}

/// What `urlencoding::decode` makes of a text: the text with its percent
/// escapes replaced, or `None` where the result is not UTF-8.
pub uninterp spec fn spec_percent_decode(input: Seq<char>) -> Option<Seq<char>>;

/// `urlencoding::decode`: the decoded text is the one that
/// [`spec_percent_decode`] names for the input.
#[verifier::external_body]
fn percent_decode(input: &str) -> (r: Option<String>)
    ensures
        r.deep_view() == spec_percent_decode(input@),
{
    urlencoding::decode(input).ok().map(|cow| cow.into_owned())
}

/// The envelope that a caller without the right credential gets.
pub open spec fn spec_unauthorized() -> QueryResponseView {
    QueryResponseView { success: false, data: None, error: Some(UNAUTHORIZED@), message: None }
}

/// The secrets of a process that is configured with one key: the key opens
/// the root ring.
pub open spec fn spec_root_only(api_key: Seq<char>) -> Seq<RingSecretView> {
    seq![RingSecretView { token: api_key, ring: PrivilegeRing::Ring0 }]
}

/// With one key configured, a token resolves to the root ring where it is
/// that key, and to no ring otherwise.
pub proof fn lemma_root_only(api_key: Seq<char>, token: Seq<char>)
    ensures
        spec_resolve(spec_root_only(api_key), token) == if token == api_key {
            Some(PrivilegeRing::Ring0)
        } else {
            None
        },
{
    let table = spec_root_only(api_key);
    assert(table.drop_last().len() == 0);
    assert(spec_resolve(table.drop_last(), token) == None::<PrivilegeRing>);
    assert(table.last().token == api_key);
}

/// Privilege carries downwards: whoever is admitted where one ring is asked
/// for is admitted wherever a less privileged ring is asked for.
pub proof fn lemma_admission_is_monotone(
    authorization: Option<Seq<char>>,
    required: PrivilegeRing,
    lesser: PrivilegeRing,
    secrets: Seq<RingSecretView>,
)
    requires
        spec_admits(authorization, required, secrets),
        required.spec_ordinal() <= lesser.spec_ordinal(),
    ensures
        spec_admits(authorization, lesser, secrets),
{
}

/// Helpers of the web boundary.
#[derive(Clone, Copy, Debug)]
pub struct WebUtils;

impl WebUtils {
    /// Takes the bearer token out of the value of an `Authorization` header.
    pub fn extract_api_key(authorization: Option<&str>) -> (r: Option<String>)
        ensures
            r.deep_view() == spec_extract_api_key(crate::response::optional_text(authorization)),
    {
        match authorization {
            Some(value) => match strip_prefix(value, BEARER) {
                Some(token) => {
                    proof {
                        lemma_prefix_rest(value@, BEARER@, token@);
                    }
                    Some(String::from_str(token))
                },
                None => match strip_prefix(value, BEARER_ENCODED) {
                    Some(token) => {
                        proof {
                            lemma_prefix_rest(value@, BEARER_ENCODED@, token@);
                        }
                        Some(String::from_str(token))
                    },
                    None => None,
                },
            },
            None => None,
        }
    }

    /// Resolves a token to its ring.
    pub fn resolve(token: &str, secrets: &Vec<RingSecret>) -> (r: Option<PrivilegeRing>)
        ensures
            r == spec_resolve(secrets.deep_view(), token@),
    {
        let mut found: Option<PrivilegeRing> = None;
        let mut i: usize = 0;
        while i < secrets.len()
            invariant
                i <= secrets.len(),
                found == spec_resolve(secrets.deep_view().take(i as int), token@),
            decreases secrets.len() - i,
        {
            let ghost after = secrets.deep_view().take(i + 1);
            assert(after.drop_last() =~= secrets.deep_view().take(i as int));
            assert(after.last() == secrets@[i as int].deep_view());
            let secret = &secrets[i];
            if str_eq(secret.token.as_str(), token) {
                found = match found {
                    Some(best) => if best.ordinal() <= secret.ring.ordinal() {
                        Some(best)
                    } else {
                        Some(secret.ring)
                    },
                    None => Some(secret.ring),
                };
            }
            i += 1;
        }
        assert(secrets.deep_view().take(secrets.len() as int) =~= secrets.deep_view());
        found
    }

    /// Decides whether a caller is admitted to a route that asks for
    /// `required`.
    pub fn admits(authorization: Option<&str>, required: PrivilegeRing, secrets: &Vec<RingSecret>)
        -> (r: bool)
        ensures
            r == spec_admits(
                crate::response::optional_text(authorization),
                required,
                secrets.deep_view(),
            ),
    {
        match required {
            PrivilegeRing::Public => true,
            _ => match Self::extract_api_key(authorization) {
                Some(token) => match Self::resolve(token.as_str(), secrets) {
                    Some(ring) => ring.ordinal() <= required.ordinal(),
                    None => false,
                },
                None => false,
            },
        }
    }

    /// Checks the presented credential against the configured key: the
    /// caller is let in where its bearer token is exactly that key, which
    /// opens the root ring. Without a configuration nobody is let in.
    pub fn check_api_key(authorization: Option<&str>, cfg: Option<&EnvConfig>) -> (r: bool)
        ensures
            r == match cfg {
                Some(c) => spec_extract_api_key(crate::response::optional_text(authorization))
                    == Some(c.api_key@),
                None => false,
            },
            r == match cfg {
                Some(c) => spec_admits(
                    crate::response::optional_text(authorization),
                    PrivilegeRing::Ring0,
                    spec_root_only(c.api_key@),
                ),
                None => false,
            },
    {
        match cfg {
            Some(c) => {
                let mut secrets: Vec<RingSecret> = Vec::new();
                secrets.push(RingSecret { token: c.api_key.clone(), ring: PrivilegeRing::Ring0 });
                assert(secrets.deep_view() =~= spec_root_only(c.api_key@));
                proof {
                    match spec_extract_api_key(crate::response::optional_text(authorization)) {
                        Some(token) => lemma_root_only(c.api_key@, token),
                        None => {},
                    }
                }
                Self::admits(authorization, PrivilegeRing::Ring0, &secrets)
            },
            None => false,
        }
    }

    /// Turns a caller without the right credential away: `None` lets the
    /// request go on, `Some` is the envelope to answer with.
    pub fn require_api_key(authorization: Option<&str>, cfg: Option<&EnvConfig>) -> (r: Option<
        QueryResponse,
    >)
        ensures
            r.deep_view() == match cfg {
                Some(c) => if spec_extract_api_key(crate::response::optional_text(authorization))
                    == Some(c.api_key@) {
                    None
                } else {
                    Some(spec_unauthorized())
                },
                None => Some(spec_unauthorized()),
            },
    {
        if Self::check_api_key(authorization, cfg) {
            None
        } else {
            Some(make_query_response(false, None, Some(UNAUTHORIZED), None))
        }
    }

    /// Replaces the percent escapes of a text.
    pub fn decode_all(input: &str) -> (r: Option<String>)
        ensures
            r.deep_view() == spec_percent_decode(input@),
    {
        percent_decode(input)
    }
}

} // verus!
