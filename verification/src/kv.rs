//! The compute half of the key-value liveness probe: building the
//! connection URL from host and credential parts.
//!
//! Opening the client, obtaining the connection and issuing the liveness
//! command are the embedding caller's part; a successful reply is the
//! backend's fixed acknowledgement, returned verbatim, and every failure is
//! surfaced generically as the backend's error text.
use vstd::prelude::*;

verus! {

/// The connection URL built from host and credential parts. With both
/// credentials the authority embeds `user:password@`; with only a password
/// the username segment is omitted entirely (`:password@`), matching the
/// protocol's anonymous-user-with-password convention; without a password
/// the authority is the bare host.
pub open spec fn redis_url_spec(
    host: Seq<char>,
    username: Option<Seq<char>>,
    password: Option<Seq<char>>,
) -> Seq<char> {
    if username is Some && password is Some {
        "redis://"@ + username->0 + ":"@ + password->0 + "@"@ + host + "/"@
    } else if username is None && password is Some {
        "redis://:"@ + password->0 + "@"@ + host + "/"@
    } else {
        "redis://"@ + host + "/"@
    }
}

/// Builds the key-value store connection URL from the host and the optional
/// credentials.
pub fn build_redis_url(host: &str, username: &Option<String>, password: &Option<String>) -> (u:
    String)
    ensures
        u@ == redis_url_spec(host@, username.deep_view(), password.deep_view()),
{
    match (username, password) {
        (Some(user), Some(pass)) => {
            let mut u = String::from_str("redis://");
            u.append(user.as_str());
            u.append(":");
            u.append(pass.as_str());
            u.append("@");
            u.append(host);
            u.append("/");
            u
        },
        (None, Some(pass)) => {
            let mut u = String::from_str("redis://:");
            u.append(pass.as_str());
            u.append("@");
            u.append(host);
            u.append("/");
            u
        },
        _ => {
            let mut u = String::from_str("redis://");
            u.append(host);
            u.append("/");
            u
        },
    }
}

/// Given only a password, the constructed authority omits the username
/// segment entirely rather than substituting an empty username: the URL is
/// exactly `redis://:<password>@<host>/`.
pub proof fn lemma_password_only_omits_username(host: Seq<char>, password: Seq<char>)
    ensures
        redis_url_spec(host, None, Some(password)) == "redis://:"@ + password + "@"@ + host + "/"@,
{
}

/// URL construction is deterministic and side-effect-free: identical host
/// and credential inputs always produce the identical connection string.
pub proof fn lemma_url_building_deterministic(
    host1: Seq<char>,
    username1: Option<Seq<char>>,
    password1: Option<Seq<char>>,
    host2: Seq<char>,
    username2: Option<Seq<char>>,
    password2: Option<Seq<char>>,
)
    requires
        host1 == host2,
        username1 == username2,
        password1 == password2,
    ensures
        redis_url_spec(host1, username1, password1) == redis_url_spec(host2, username2, password2),
{
}

} // verus!
