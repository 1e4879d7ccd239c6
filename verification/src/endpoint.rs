//! Where the backend listens.

use vstd::prelude::*;
use vstd::string::*;
use crate::text::{decimal, decimal_string, lemma_decimal_digits};

verus! {

/// The port the backend listens on.
pub const BACKEND_PORT: u16 = 8000;

/// The host the backend listens on.
pub const BACKEND_HOST: &'static str = "127.0.0.1";

/// `http://<host>:<port>`.
pub open spec fn base_url_of(host: Seq<char>, port: nat) -> Seq<char> {
    "http://"@ + host + ":"@ + decimal(port)
}

/// `http://<host>:<port>/health`.
pub open spec fn health_url_of(host: Seq<char>, port: nat) -> Seq<char> {
    base_url_of(host, port) + "/health"@
}

/// The base URL of a backend at `host` and `port`.
pub fn base_url(host: &str, port: u16) -> (url: String)
    ensures
        url@ == base_url_of(host@, port as nat),
{
    let mut url = "http://".to_owned();
    url.append(host);
    url.append(":");
    let numeral = decimal_string(port as u64);
    url.append(numeral.as_str());
    url
}

/// The backend's base URL and health URL, written out.
pub proof fn lemma_backend_urls()
    ensures
        base_url_of(BACKEND_HOST@, BACKEND_PORT as nat) == "http://127.0.0.1:8000"@,
        health_url_of(BACKEND_HOST@, BACKEND_PORT as nat) == "http://127.0.0.1:8000/health"@,
{
    lemma_decimal_digits(8000);
    reveal_strlit("http://");
    reveal_strlit(":");
    reveal_strlit("/health");
    reveal_strlit("127.0.0.1");
    reveal_strlit("http://127.0.0.1:8000");
    reveal_strlit("http://127.0.0.1:8000/health");
    assert(base_url_of(BACKEND_HOST@, BACKEND_PORT as nat) =~= "http://127.0.0.1:8000"@);
    assert(health_url_of(BACKEND_HOST@, BACKEND_PORT as nat) =~= "http://127.0.0.1:8000/health"@);
}

/// The URL a health request is sent to.
pub fn health_url() -> (url: String)
    ensures
        url@ == health_url_of(BACKEND_HOST@, BACKEND_PORT as nat),
        url@ == "http://127.0.0.1:8000/health"@,
{
    let mut url = base_url(BACKEND_HOST, BACKEND_PORT);
    url.append("/health");
    proof {
        lemma_backend_urls();
    }
    url
}

} // verus!
