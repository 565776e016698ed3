//! The caller's identity, taken from the headers the gateway sets
//! (`X-User-Id`, `X-User-Email`, `X-User-Name`). The service must only be
//! reachable through that gateway.
use crate::ids::{parse_uuid, parsed_uuid};
use crate::text::owned;
use vstd::prelude::*;

verus! {

/// The authenticated caller.
#[derive(Clone, Debug)]
pub struct Identity {
    pub user_id: u128,
    pub email: String,
    pub username: String,
}

/// The caller, when known.
#[derive(Clone, Debug)]
pub struct MaybeIdentity(pub Option<Identity>);

/// Refusal of a request without a usable `X-User-Id` (answered 401).
#[derive(Clone, Copy, Debug)]
pub struct MissingIdentity;

impl MissingIdentity {
    pub fn status_code(&self) -> (c: u16)
        ensures
            c == 401,
    {
        401
    }

    pub open spec fn spec_message() -> Seq<char> {
        "missing or invalid X-User-Id — request did not come through the gateway"@
    }

    pub fn message(&self) -> (m: String)
        ensures
            m@ == Self::spec_message(),
    {
        owned("missing or invalid X-User-Id — request did not come through the gateway")
    }
}

/// The identity the headers describe: a user id is required and must be
/// a UUID; email and name default to empty.
pub open spec fn spec_extract(
    user_id: Option<Seq<char>>,
    email: Option<Seq<char>>,
    username: Option<Seq<char>>,
) -> Option<(u128, Seq<char>, Seq<char>)> {
    match user_id {
        Some(u) => match parsed_uuid(u) {
            Some(id) => Some(
                (
                    id,
                    match email {
                        Some(e) => e,
                        None => Seq::empty(),
                    },
                    match username {
                        Some(n) => n,
                        None => Seq::empty(),
                    },
                ),
            ),
            None => None,
        },
        None => None,
    }
}

fn or_empty(s: Option<&str>) -> (r: String)
    ensures
        r@ == match s {
            Some(t) => t@,
            None => Seq::<char>::empty(),
        },
{
    match s {
        Some(t) => owned(t),
        None => String::new(),
    }
}

/// Identity from the header values (each `None` when the header is
/// absent or not visible ASCII).
pub fn extract(user_id: Option<&str>, email: Option<&str>, username: Option<&str>) -> (r: Result<
    Identity,
    MissingIdentity,
>)
    ensures
        r is Ok <==> spec_extract(
            crate::text::opt_str_view(user_id),
            crate::text::opt_str_view(email),
            crate::text::opt_str_view(username),
        ) is Some,
        r matches Ok(id) ==> spec_extract(
            crate::text::opt_str_view(user_id),
            crate::text::opt_str_view(email),
            crate::text::opt_str_view(username),
        ) == Some((id.user_id, id.email@, id.username@)),
{
    let parsed = match user_id {
        Some(u) => parse_uuid(u),
        None => None,
    };
    match parsed {
        None => Err(MissingIdentity),
        Some(id) => Ok(
            Identity { user_id: id, email: or_empty(email), username: or_empty(username) },
        ),
    }
}

/// The optional form: a missing or invalid identity is no identity.
pub fn extract_optional(user_id: Option<&str>, email: Option<&str>, username: Option<&str>) -> (r:
    MaybeIdentity)
    ensures
        r.0 is Some <==> spec_extract(
            crate::text::opt_str_view(user_id),
            crate::text::opt_str_view(email),
            crate::text::opt_str_view(username),
        ) is Some,
        r.0 matches Some(id) ==> spec_extract(
            crate::text::opt_str_view(user_id),
            crate::text::opt_str_view(email),
            crate::text::opt_str_view(username),
        ) == Some((id.user_id, id.email@, id.username@)),
{
    match extract(user_id, email, username) {
        Ok(id) => MaybeIdentity(Some(id)),
        Err(_) => MaybeIdentity(None),
    }
}

} // verus!
