use vstd::prelude::*;
use crate::errors::network_error::NetworkErrorType;

verus! {

/// The URL of `path` on the service at `base_url`: `{base_url}/{path}`.
pub open spec fn request_url_spec(base_url: Seq<char>, path: Seq<char>) -> Seq<char> {
    base_url + seq!['/'] + path
}

pub fn request_url(base_url: &String, path: &String) -> (r: String)
    ensures
        r@ == request_url_spec(base_url@, path@),
{
    let mut r = base_url.clone();
    r.append("/");
    proof {
        reveal_strlit("/");
    }
    r.append(path.as_str());
    r
}

pub const STATUS_OK: u16 = 200;

pub const STATUS_UNAUTHORIZED: u16 = 401;

pub const STATUS_TOO_MANY_REQUESTS: u16 = 429;

/// What a client does with the HTTP status of a reply.
#[derive(Debug, Clone, Copy, PartialEq, Eq, Structural)]
pub enum StatusOutcome {
    /// Parse the body of the reply.
    ParseBody,
    /// Fail with this error.
    Fail(NetworkErrorType),
    /// A status that the client does not expect: it stops with the body.
    Unexpected,
}

/// The chat service: 200 parses, 429 means the token quota is used up.
pub fn open_ai_status_outcome(status: u16) -> (r: StatusOutcome)
    ensures
        r == (if status == STATUS_OK {
            StatusOutcome::ParseBody
        } else if status == STATUS_TOO_MANY_REQUESTS {
            StatusOutcome::Fail(NetworkErrorType::TokenQuotaReached)
        } else {
            StatusOutcome::Unexpected
        }),
{
    if status == STATUS_OK {
        StatusOutcome::ParseBody
    } else if status == STATUS_TOO_MANY_REQUESTS {
        StatusOutcome::Fail(NetworkErrorType::TokenQuotaReached)
    } else {
        StatusOutcome::Unexpected
    }
}

/// The game database: 200 parses, 401 means the access token is refused.
pub fn igdb_status_outcome(status: u16) -> (r: StatusOutcome)
    ensures
        r == (if status == STATUS_OK {
            StatusOutcome::ParseBody
        } else if status == STATUS_UNAUTHORIZED {
            StatusOutcome::Fail(NetworkErrorType::Unauthorized)
        } else {
            StatusOutcome::Unexpected
        }),
{
    if status == STATUS_OK {
        StatusOutcome::ParseBody
    } else if status == STATUS_UNAUTHORIZED {
        StatusOutcome::Fail(NetworkErrorType::Unauthorized)
    } else {
        StatusOutcome::Unexpected
    }
}

/// The image and speech generators: only 200 is expected.
pub fn generator_status_outcome(status: u16) -> (r: StatusOutcome)
    ensures
        r == (if status == STATUS_OK {
            StatusOutcome::ParseBody
        } else {
            StatusOutcome::Unexpected
        }),
{
    if status == STATUS_OK {
        StatusOutcome::ParseBody
    } else {
        StatusOutcome::Unexpected
    }
}

pub const CLIENT_ID_PARAM: &'static str = "client_id";

pub const CLIENT_SECRET_PARAM: &'static str = "client_secret";

pub const GRANT_TYPE_PARAM: &'static str = "grant_type";

pub const CLIENT_CREDENTIALS_GRANT: &'static str = "client_credentials";

/// The query of a token request to the game database's authorization
/// server: client id, client secret and the client-credentials grant.
pub fn token_request_params(client_id: String, client_secret: String) -> (r: Vec<(String, String)>)
    ensures
        r@.len() == 3,
        r@[0].0@ == CLIENT_ID_PARAM@,
        r@[0].1 == client_id,
        r@[1].0@ == CLIENT_SECRET_PARAM@,
        r@[1].1 == client_secret,
        r@[2].0@ == GRANT_TYPE_PARAM@,
        r@[2].1@ == CLIENT_CREDENTIALS_GRANT@,
{
    let mut r: Vec<(String, String)> = Vec::new();
    r.push((String::from_str(CLIENT_ID_PARAM), client_id));
    r.push((String::from_str(CLIENT_SECRET_PARAM), client_secret));
    r.push((String::from_str(GRANT_TYPE_PARAM), String::from_str(CLIENT_CREDENTIALS_GRANT)));
    r
}

} // verus!
