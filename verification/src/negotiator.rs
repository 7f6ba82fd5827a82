//! Connection negotiation: from an endpoint and a bearer token to the
//! authorization parameters and the literal connection URL.

use vstd::prelude::*;
use vstd::string::*;
use crate::json::{quote, quoted};
use crate::text::{
    has_occurrence, lemma_replaced_at_first_occurrence, lemma_replaced_without_occurrence,
    occurs_at, replace_all, replaced, starts_with,
};

verus! {

/// The prefix that every authorization value carries.
pub open spec fn bearer_prefix() -> Seq<char> {
    "Bearer "@
}

/// A token with the bearer prefix put in front unless it is there already.
pub open spec fn normalized_token(token: Seq<char>) -> Seq<char> {
    if bearer_prefix().is_prefix_of(token) {
        token
    } else {
        bearer_prefix() + token
    }
}

/// The bare API host of a live-connection endpoint: the transport scheme
/// taken out, `-realtime-api` shortened to `-api`, the routing suffix taken
/// out, in that order.
pub open spec fn normalized_host(endpoint: Seq<char>) -> Seq<char> {
    replaced(
        replaced(replaced(endpoint, "wss://"@, ""@), "-realtime-api"@, "-api"@),
        "/graphql"@,
        ""@,
    )
}

/// The JSON text of the authorization object: `Authorization`, then `host`.
pub open spec fn header_text(authorization: Seq<char>, host: Seq<char>) -> Seq<char> {
    "{\"Authorization\":"@ + quoted(authorization) + ",\"host\":"@ + quoted(host) + "}"@
}

/// The connection URL: the endpoint with the encoded authorization object
/// and an encoded empty object as its two query parameters.
pub open spec fn url_text(endpoint: Seq<char>, authorization: Seq<char>, host: Seq<char>) -> Seq<
    char,
> {
    endpoint + "?header="@ + base64_text(header_text(authorization, host)) + "&payload="@
        + base64_text("{}"@)
}

/// The standard-alphabet, padded base64 encoding of a text's UTF-8 bytes, as
/// the `base64` crate's `STANDARD` engine produces it.
pub uninterp spec fn base64_text(text: Seq<char>) -> Seq<char>;

/// Calls `Engine::encode` on `base64::engine::general_purpose::STANDARD`.
/// Trusted: the outcome depends on the text alone.
#[verifier::external_body]
fn encode_base64(text: &str) -> (r: String)
    ensures
        r@ == base64_text(text@),
{
    base64::Engine::encode(&base64::engine::general_purpose::STANDARD, text)
}

/// Gives a token its bearer prefix, once.
pub fn normalize_token(token: &str) -> (r: String)
    ensures
        r@ == normalized_token(token@),
{
    if starts_with(token, "Bearer ") {
        String::from_str(token)
    } else {
        String::from_str("Bearer ").concat(token)
    }
}

/// Derives the bare API host from a live-connection endpoint.
pub fn normalize_host(endpoint: &str) -> (r: String)
    ensures
        r@ == normalized_host(endpoint@),
{
    let without_scheme = replace_all(endpoint, "wss://", "");
    let without_infix = replace_all(without_scheme.as_str(), "-realtime-api", "-api");
    replace_all(without_infix.as_str(), "/graphql", "")
}

/// The authorization material of one session.
#[derive(Debug, PartialEq, Eq)]
pub struct ConnectionParams {
    /// The bearer token, prefix included.
    pub authorization: String,
    /// The bare API host.
    pub host: String,
}

impl ConnectionParams {
    /// Normalizes the token and the endpoint's host.
    pub fn negotiate(endpoint: &str, token: &str) -> (r: ConnectionParams)
        ensures
            r.authorization@ == normalized_token(token@),
            r.host@ == normalized_host(endpoint@),
    {
        ConnectionParams { authorization: normalize_token(token), host: normalize_host(endpoint) }
    }

    /// The authorization object as JSON text.
    pub fn header_json(&self) -> (r: String)
        ensures
            r@ == header_text(self.authorization@, self.host@),
    {
        let mut out = String::from_str("{\"Authorization\":");
        let authorization = quote(self.authorization.as_str());
        out.append(authorization.as_str());
        out.append(",\"host\":");
        let host = quote(self.host.as_str());
        out.append(host.as_str());
        out.append("}");
        out
    }

    /// The literal URL to open the transport on.
    pub fn connection_url(&self, endpoint: &str) -> (r: String)
        ensures
            r@ == url_text(endpoint@, self.authorization@, self.host@),
    {
        let header = self.header_json();
        let header_base64 = encode_base64(header.as_str());
        let payload_base64 = encode_base64("{}");
        let mut out = String::from_str(endpoint);
        out.append("?header=");
        out.append(header_base64.as_str());
        out.append("&payload=");
        out.append(payload_base64.as_str());
        out
    }
}

/// Normalizing a token a second time changes nothing.
pub proof fn lemma_normalized_token_idempotent(token: Seq<char>)
    ensures
        normalized_token(normalized_token(token)) == normalized_token(token),
{
    let p = bearer_prefix();
    if !p.is_prefix_of(token) {
        assert((p + token).subrange(0, p.len() as int) =~= p);
    }
}

/// A normalized token begins with the bearer prefix, and what follows the
/// prefix of a token that had none is that token itself: the prefix stands
/// there exactly once.
pub proof fn lemma_normalized_token_single_prefix(token: Seq<char>)
    ensures
        bearer_prefix().is_prefix_of(normalized_token(token)),
        !bearer_prefix().is_prefix_of(token) ==> {
            let r = normalized_token(token);
            &&& r.len() == bearer_prefix().len() + token.len()
            &&& r.subrange(bearer_prefix().len() as int, r.len() as int) == token
            &&& !bearer_prefix().is_prefix_of(
                r.subrange(bearer_prefix().len() as int, r.len() as int),
            )
        },
{
    let p = bearer_prefix();
    if !p.is_prefix_of(token) {
        let r = p + token;
        assert(r.subrange(0, p.len() as int) =~= p);
        assert(r.subrange(p.len() as int, r.len() as int) =~= token);
    }
}

/// An endpoint of the expected shape: the transport scheme, a name, the
/// live-connection infix before `-api`, the rest of the host, and the routing
/// suffix.
pub open spec fn pattern_endpoint(name: Seq<char>, domain: Seq<char>) -> Seq<char> {
    "wss://"@ + name + "-realtime-api"@ + domain + "/graphql"@
}

/// What makes `name` and `domain` plain parts of a host: neither holds a `/`
/// or a `:`, and `-realtime-api` occurs neither in `domain` nor, in
/// `name` followed by `-realtime-api`, before the end of `name`.
pub open spec fn plain_host_parts(name: Seq<char>, domain: Seq<char>) -> bool {
    &&& !name.contains('/')
    &&& !name.contains(':')
    &&& !domain.contains('/')
    &&& !domain.contains(':')
    &&& forall|at: int|
        0 <= at < name.len() ==> !occurs_at(name + "-realtime-api"@, "-realtime-api"@, at)
    &&& !has_occurrence(domain, "-realtime-api"@)
}

/// Of an endpoint of the expected shape the normalized host is the name,
/// `-api` and the rest of the host: scheme, `-realtime` and routing suffix
/// are gone, and nothing else has changed.
pub proof fn lemma_normalized_host_of_pattern(name: Seq<char>, domain: Seq<char>)
    requires
        plain_host_parts(name, domain),
    ensures
        normalized_host(pattern_endpoint(name, domain)) == name + "-api"@ + domain,
{
    reveal_strlit("wss://");
    reveal_strlit("-realtime-api");
    reveal_strlit("-api");
    reveal_strlit("/graphql");
    reveal_strlit("");
    let scheme = "wss://"@;
    let infix = "-realtime-api"@;
    let short = "-api"@;
    let suffix = "/graphql"@;
    let nothing = ""@;
    let empty = Seq::<char>::empty();
    assert(nothing =~= empty);
    assert(forall|i: int| 0 <= i < infix.len() ==> infix[i] != '/' && infix[i] != ':');
    assert(forall|i: int| 0 <= i < suffix.len() ==> suffix[i] != ':');
    assert(forall|i: int| 0 <= i < short.len() ==> short[i] != '/');

    // The scheme goes, and occurs nowhere behind itself.
    let tail = domain + suffix;
    let rest = name + infix + tail;
    assert(pattern_endpoint(name, domain) =~= empty + scheme + rest);
    lemma_replaced_at_first_occurrence(empty, scheme, nothing, rest);
    assert forall|at: int| !occurs_at(rest, scheme, at) by {
        if occurs_at(rest, scheme, at) {
            assert(rest.subrange(at, at + scheme.len())[3] == scheme[3]);
            let c = rest[at + 3];
            assert(c == ':');
            if at + 3 < name.len() {
                assert(name.contains(name[at + 3]));
            } else if at + 3 < name.len() + infix.len() {
                assert(c == infix[at + 3 - name.len()]);
            } else if at + 3 < name.len() + infix.len() + domain.len() {
                assert(domain.contains(domain[at + 3 - name.len() - infix.len()]));
            } else {
                assert(c == suffix[at + 3 - name.len() - infix.len() - domain.len()]);
            }
        }
    }
    lemma_replaced_without_occurrence(rest, scheme, nothing);
    assert(replaced(pattern_endpoint(name, domain), scheme, nothing) =~= rest);

    // The infix is shortened where it stands, and occurs nowhere behind.
    assert forall|at: int| 0 <= at < name.len() implies !occurs_at(rest, infix, at) by {
        if occurs_at(rest, infix, at) {
            assert((name + infix).subrange(at, at + infix.len()) =~= rest.subrange(
                at,
                at + infix.len(),
            ));
            assert(occurs_at(name + infix, infix, at));
        }
    }
    lemma_replaced_at_first_occurrence(name, infix, short, tail);
    assert forall|at: int| !occurs_at(tail, infix, at) by {
        if occurs_at(tail, infix, at) {
            if at + infix.len() <= domain.len() {
                assert(domain.subrange(at, at + infix.len()) =~= tail.subrange(
                    at,
                    at + infix.len(),
                ));
                assert(occurs_at(domain, infix, at));
            } else {
                assert(at <= domain.len());
                assert(tail.subrange(at, at + infix.len())[domain.len() - at] == infix[domain.len()
                    - at]);
                assert(tail[domain.len() as int] == suffix[0]);
            }
        }
    }
    lemma_replaced_without_occurrence(tail, infix, short);
    let shortened = name + short + domain;
    assert(replaced(rest, infix, short) =~= shortened + suffix + empty);

    // The suffix goes: no `/` stands before it.
    assert forall|at: int| 0 <= at < shortened.len() implies !occurs_at(
        shortened + suffix + empty,
        suffix,
        at,
    ) by {
        if occurs_at(shortened + suffix + empty, suffix, at) {
            assert((shortened + suffix + empty).subrange(at, at + suffix.len())[0] == suffix[0]);
            let c = shortened[at];
            assert(c == '/');
            if at < name.len() {
                assert(name.contains(name[at]));
            } else if at < name.len() + short.len() {
                assert(c == short[at - name.len()]);
            } else {
                assert(domain.contains(domain[at - name.len() - short.len()]));
            }
        }
    }
    lemma_replaced_at_first_occurrence(shortened, suffix, nothing, empty);
    assert(replaced(empty, suffix, nothing) =~= empty);
    assert(shortened + nothing + empty =~= shortened);
}

} // verus!
