use vstd::prelude::*;

use base64::Engine;
use hmac::Mac;

use crate::error::ServiceBusError;
use crate::text::{
    chars_of, decimal_text, find_from, find_spec, i64_text, slice, split_from, text_of, trim,
    trim_spec,
};

verus! {

/// How long a signed token stays valid, in seconds.
pub const TOKEN_VALIDITY_SECS: u64 = 3600;

/// How requests are authorized. It has no `Debug`, so that the key never
/// reaches a log.
#[derive(Clone)]
pub enum AuthMode {
    /// Shared access signatures, signed with a named key.
    Sas { shared_access_key_name: String, shared_access_key: String },
    /// Bearer tokens from an Azure AD credential, which the caller holds.
    AzureAd,
}

/// Where a namespace is and how to authorize against it.
#[derive(Clone)]
pub struct ConnectionConfig {
    pub namespace: String,
    pub endpoint: String,
    pub auth_mode: AuthMode,
}

/// The settings a connection string has given so far: endpoint, key name
/// and key, each as last written.
pub struct ConnectionParts {
    pub endpoint: Option<Seq<char>>,
    pub key_name: Option<Seq<char>>,
    pub key: Option<Seq<char>>,
}

/// The settings after one more part: a `name=value` part (both trimmed) sets
/// `Endpoint`, `SharedAccessKeyName` or `SharedAccessKey`; anything else is
/// ignored.
pub open spec fn apply_part(st: ConnectionParts, raw: Seq<char>) -> ConnectionParts {
    let part = trim_spec(raw);
    match find_spec(part, seq!['='], 0) {
        Some(eq) => {
            let k = trim_spec(part.take(eq));
            let v = trim_spec(part.subrange(eq + 1, part.len() as int));
            if k == "Endpoint"@ {
                ConnectionParts { endpoint: Some(v), ..st }
            } else if k == "SharedAccessKeyName"@ {
                ConnectionParts { key_name: Some(v), ..st }
            } else if k == "SharedAccessKey"@ {
                ConnectionParts { key: Some(v), ..st }
            } else {
                st
            }
        },
        None => st,
    }
}

/// The settings given by the first `n` parts.
pub open spec fn parts_state(parts: Seq<Seq<char>>, n: int) -> ConnectionParts
    decreases n,
{
    if n <= 0 || n > parts.len() {
        ConnectionParts { endpoint: None, key_name: None, key: None }
    } else {
        apply_part(parts_state(parts, n - 1), parts[n - 1])
    }
}

/// The settings a connection string gives.
pub open spec fn connection_parts(s: Seq<char>) -> ConnectionParts {
    let parts = split_from(s, ';', 0);
    parts_state(parts, parts.len() as int)
}

/// Position after every `sb://` that starts at `i`.
pub open spec fn skip_scheme(s: Seq<char>, i: int) -> int
    decreases s.len() - i,
{
    if 0 <= i && i + 5 <= s.len() && s.subrange(i, i + 5) == "sb://"@ {
        skip_scheme(s, i + 5)
    } else {
        i
    }
}

/// Position before every `/` that ends at `e`, not below `lo`.
pub open spec fn drop_slashes(s: Seq<char>, lo: int, e: int) -> int
    decreases e - lo,
{
    if lo < e && e <= s.len() && s[e - 1] == '/' {
        drop_slashes(s, lo, e - 1)
    } else {
        e
    }
}

/// The namespace host of an endpoint: without `sb://` in front and `/` at
/// the end.
pub open spec fn namespace_of(endpoint: Seq<char>) -> Seq<char> {
    let lo = skip_scheme(endpoint, 0);
    endpoint.subrange(lo, drop_slashes(endpoint, lo, endpoint.len() as int))
}

pub open spec fn https_endpoint(namespace: Seq<char>) -> Seq<char> {
    "https://"@ + namespace
}

fn namespace_host(endpoint: &str) -> (r: String)
    ensures
        r@ == namespace_of(endpoint@),
{
    let s = chars_of(endpoint);
    let scheme = chars_of("sb://");
    proof {
        reveal_strlit("sb://");
    }
    let n = s.len();
    let mut lo: usize = 0;
    while n >= 5 && lo <= n - 5 && crate::text::matches_at(&s, &scheme, lo)
        invariant
            n == s@.len(),
            scheme@ == "sb://"@,
            scheme@.len() == 5,
            lo <= n,
            skip_scheme(s@, 0) == skip_scheme(s@, lo as int),
        decreases n - lo,
    {
        lo = lo + 5;
    }
    let mut hi: usize = n;
    while hi > lo && s[hi - 1] == '/'
        invariant
            lo <= hi <= n,
            n == s@.len(),
            drop_slashes(s@, lo as int, n as int) == drop_slashes(s@, lo as int, hi as int),
        decreases hi,
    {
        hi = hi - 1;
    }
    text_of(&slice(&s, lo, hi))
}

fn same(a: &Vec<char>, b: &str) -> (r: bool)
    ensures
        r == (a@ == b@),
{
    let bv = chars_of(b);
    if a.len() != bv.len() {
        return false;
    }
    let r = crate::text::matches_at(a, &bv, 0);
    assert(r ==> a@.subrange(0, bv@.len() as int) =~= a@);
    assert(a@ == b@ ==> a@.subrange(0, bv@.len() as int) =~= bv@);
    r
}

fn missing(what: &str) -> (r: ServiceBusError)
    ensures
        r is InvalidConnectionString,
{
    ServiceBusError::InvalidConnectionString(String::from_str("missing ").concat(what))
}

/// The endpoint, key name and key a connection string gives, each as last
/// written.
fn scan_parts(conn_str: &str) -> (r: (Option<Vec<char>>, Option<Vec<char>>, Option<Vec<char>>))
    ensures
        ({
            let p = connection_parts(conn_str@);
            &&& p.endpoint == match r.0 {
                Some(v) => Some(v@),
                None => None::<Seq<char>>,
            }
            &&& p.key_name == match r.1 {
                Some(v) => Some(v@),
                None => None::<Seq<char>>,
            }
            &&& p.key == match r.2 {
                Some(v) => Some(v@),
                None => None::<Seq<char>>,
            }
        }),
{
    let s = chars_of(conn_str);
    let mut semi: Vec<char> = Vec::new();
    semi.push(';');
    let mut eqs: Vec<char> = Vec::new();
    eqs.push('=');
    assert(semi@ =~= seq![';']);
    assert(eqs@ =~= seq!['=']);
    let ghost parts = split_from(s@, ';', 0);
    let mut endpoint: Option<Vec<char>> = None;
    let mut key_name: Option<Vec<char>> = None;
    let mut key: Option<Vec<char>> = None;
    let mut start: usize = 0;
    let ghost mut k: int = 0;
    let n = s.len();
    loop
        invariant_except_break
            parts.subrange(k, parts.len() as int) == split_from(s@, ';', start as int),
        invariant
            n == s@.len(),
            start <= n,
            semi@ == seq![';'],
            eqs@ == seq!['='],
            0 <= k <= parts.len(),
            parts == split_from(s@, ';', 0),
            ({
                let st = parts_state(parts, k);
                &&& st.endpoint == match endpoint {
                    Some(v) => Some(v@),
                    None => None::<Seq<char>>,
                }
                &&& st.key_name == match key_name {
                    Some(v) => Some(v@),
                    None => None::<Seq<char>>,
                }
                &&& st.key == match key {
                    Some(v) => Some(v@),
                    None => None::<Seq<char>>,
                }
            }),
        ensures
            k == parts.len(),
        decreases n - start,
    {
        let found = find_from(&s, &semi, start);
        let stop = match found {
            Some(j) => j,
            None => n,
        };
        proof {
            crate::text::lemma_find_bounds(s@, semi@, start as int);
        }
        let raw = slice(&s, start, stop);
        proof {
            assert(split_from(s@, ';', start as int)[0] == raw@);
            assert(split_from(s@, ';', start as int).len() > 0);
            assert(parts.subrange(k, parts.len() as int)[0] == parts[k]);
            assert(parts[k] == raw@);
            assert(parts_state(parts, k + 1) == apply_part(parts_state(parts, k), raw@));
        }
        let part = trim(&raw);
        let plen = part.len();
        match find_from(&part, &eqs, 0) {
            Some(eq) => {
                proof {
                    crate::text::lemma_find_bounds(part@, eqs@, 0);
                }
                let name = trim(&slice(&part, 0, eq));
                let value = trim(&slice(&part, eq + 1, part.len()));
                if same(&name, "Endpoint") {
                    endpoint = Some(value);
                } else if same(&name, "SharedAccessKeyName") {
                    key_name = Some(value);
                } else if same(&name, "SharedAccessKey") {
                    key = Some(value);
                }
            },
            None => {},
        }
        let ghost k0 = k;
        proof {
            k = k + 1;
        }
        match found {
            Some(j) => {
                assert(parts.subrange(k, parts.len() as int) == parts.subrange(k0, parts.len() as int).drop_first());
                assert(split_from(s@, ';', start as int).drop_first() == split_from(s@, ';', j + 1));
                start = j + 1;
            },
            None => {
                assert(split_from(s@, ';', start as int).len() == 1);
                assert(parts.subrange(k0, parts.len() as int).len() == 1);
                break;
            },
        }
    }
    (endpoint, key_name, key)
}

impl ConnectionConfig {
    /// Reads a connection string of the form
    /// `Endpoint=sb://<host>/;SharedAccessKeyName=<name>;SharedAccessKey=<key>`.
    /// Parts are separated by `;`, may come in any order and may be padded
    /// with white space; the key may itself contain `=`. Fails, naming the
    /// first missing part, without an endpoint, a key name or a key.
    pub fn from_connection_string(conn_str: &str) -> (r: Result<ConnectionConfig, ServiceBusError>)
        ensures
            ({
                let p = connection_parts(conn_str@);
                match r {
                    Ok(c) => p.endpoint is Some && p.key_name is Some && p.key is Some
                        && c.namespace@ == namespace_of(p.endpoint->Some_0) && c.endpoint@
                        == https_endpoint(c.namespace@) && c.auth_mode is Sas
                        && c.auth_mode->Sas_shared_access_key_name@ == p.key_name->Some_0
                        && c.auth_mode->Sas_shared_access_key@ == p.key->Some_0,
                    Err(e) => e is InvalidConnectionString && (p.endpoint is None
                        || p.key_name is None || p.key is None),
                }
            }),
    {
        let (endpoint, key_name, key) = scan_parts(conn_str);
        let endpoint = match endpoint {
            Some(v) => v,
            None => return Err(missing("Endpoint")),
        };
        let key_name = match key_name {
            Some(v) => v,
            None => return Err(missing("SharedAccessKeyName")),
        };
        let key = match key {
            Some(v) => v,
            None => return Err(missing("SharedAccessKey")),
        };
        let namespace = namespace_host(text_of(&endpoint).as_str());
        let https = String::from_str("https://").concat(namespace.as_str());
        Ok(
            ConnectionConfig {
                namespace,
                endpoint: https,
                auth_mode: AuthMode::Sas {
                    shared_access_key_name: text_of(&key_name),
                    shared_access_key: text_of(&key),
                },
            },
        )
    }

    /// A connection to `namespace` through Azure AD; the namespace may be
    /// written with `sb://` in front or `/` at the end.
    pub fn from_azure_ad(namespace: &str) -> (r: ConnectionConfig)
        ensures
            r.namespace@ == namespace_of(namespace@),
            r.endpoint@ == https_endpoint(r.namespace@),
            r.auth_mode is AzureAd,
    {
        let ns = namespace_host(namespace);
        let endpoint = String::from_str("https://").concat(ns.as_str());
        ConnectionConfig { namespace: ns, endpoint, auth_mode: AuthMode::AzureAd }
    }

    /// Whether requests carry Azure AD bearer tokens.
    pub fn is_azure_ad(&self) -> (r: bool)
        ensures
            r == (self.auth_mode is AzureAd),
    {
        match self.auth_mode {
            AuthMode::AzureAd => true,
            _ => false,
        }
    }

    /// The signed token for the namespace root, valid for an hour from
    /// `now_secs` (seconds since the Unix epoch). Azure AD connections have
    /// no such token: their bearer token comes from the credential.
    pub fn namespace_token(&self, now_secs: u64) -> (r: Result<String, ServiceBusError>)
        requires
            now_secs + TOKEN_VALIDITY_SECS <= u64::MAX,
        ensures
            match self.auth_mode {
                AuthMode::Sas { shared_access_key_name, shared_access_key } => match r {
                    Ok(t) => t@ == sas_token_spec(
                        shared_access_key_name@,
                        shared_access_key@,
                        self.endpoint@,
                        (now_secs + TOKEN_VALIDITY_SECS) as u64,
                    ),
                    Err(e) => e is Auth,
                },
                AuthMode::AzureAd => r is Err && r->Err_0 is Auth,
            },
    {
        match &self.auth_mode {
            AuthMode::Sas { shared_access_key_name, shared_access_key } => generate_sas_token(
                shared_access_key_name.as_str(),
                shared_access_key.as_str(),
                self.endpoint.as_str(),
                now_secs + TOKEN_VALIDITY_SECS,
            ),
            AuthMode::AzureAd => Err(
                ServiceBusError::Auth(String::from_str("Azure AD connections use bearer tokens")),
            ),
        }
    }

    /// The signed token for one entity, valid for an hour from `now_secs`.
    pub fn entity_token(&self, entity_path: &str, now_secs: u64) -> (r: Result<
        String,
        ServiceBusError,
    >)
        requires
            now_secs + TOKEN_VALIDITY_SECS <= u64::MAX,
        ensures
            match self.auth_mode {
                AuthMode::Sas { shared_access_key_name, shared_access_key } => match r {
                    Ok(t) => t@ == sas_token_spec(
                        shared_access_key_name@,
                        shared_access_key@,
                        self.endpoint@ + "/"@ + entity_path@,
                        (now_secs + TOKEN_VALIDITY_SECS) as u64,
                    ),
                    Err(e) => e is Auth,
                },
                AuthMode::AzureAd => r is Err && r->Err_0 is Auth,
            },
    {
        match &self.auth_mode {
            AuthMode::Sas { shared_access_key_name, shared_access_key } => {
                let uri = self.endpoint.clone().concat("/").concat(entity_path);
                generate_sas_token(
                    shared_access_key_name.as_str(),
                    shared_access_key.as_str(),
                    uri.as_str(),
                    now_secs + TOKEN_VALIDITY_SECS,
                )
            },
            AuthMode::AzureAd => Err(
                ServiceBusError::Auth(String::from_str("Azure AD connections use bearer tokens")),
            ),
        }
    }
}

/// A summary of a connection string that is safe to show: the endpoint and
/// key name it gives, never the key.
pub open spec fn preview_spec(conn_str: Seq<char>) -> Seq<char> {
    let p = connection_parts(conn_str);
    match (p.endpoint, p.key_name) {
        (Some(ep), Some(kn)) => "Endpoint="@ + ep + "; SharedAccessKeyName="@ + kn
            + "; SharedAccessKey=***"@,
        (Some(ep), None) => "Endpoint="@ + ep + "; SharedAccessKey=***"@,
        _ => "(redacted SAS connection)"@,
    }
}

/// A summary of a connection string that is safe to show.
pub fn redact_connection_string_for_preview(conn_str: &str) -> (r: String)
    ensures
        r@ == preview_spec(conn_str@),
{
    let (endpoint, key_name, _) = scan_parts(conn_str);
    match (endpoint, key_name) {
        (Some(ep), Some(kn)) => String::from_str("Endpoint=").concat(text_of(&ep).as_str()).concat(
            "; SharedAccessKeyName=",
        ).concat(text_of(&kn).as_str()).concat("; SharedAccessKey=***"),
        (Some(ep), None) => String::from_str("Endpoint=").concat(text_of(&ep).as_str()).concat(
            "; SharedAccessKey=***",
        ),
        _ => String::from_str("(redacted SAS connection)"),
    }
}

/// What `urlencoding::encode` makes of a string.
pub uninterp spec fn url_encoded(s: Seq<char>) -> Seq<char>;

/// What `str::to_lowercase` makes of a string.
pub uninterp spec fn lowercased(s: Seq<char>) -> Seq<char>;

/// The HMAC-SHA256 of the UTF-8 bytes of `msg` under the UTF-8 bytes of `key`.
pub uninterp spec fn hmac_sha256_of(key: Seq<char>, msg: Seq<char>) -> Seq<u8>;

/// The standard, padded base64 text of some bytes.
pub uninterp spec fn base64_of(bytes: Seq<u8>) -> Seq<char>;

/// Whether `c` passes through URL encoding unchanged.
pub open spec fn is_unreserved(c: char) -> bool {
    ('0' <= c && c <= '9') || ('A' <= c && c <= 'Z') || ('a' <= c && c <= 'z') || c == '-' || c
        == '.' || c == '_' || c == '~'
}

/// Relies on `urlencoding::encode`: percent-encodes every byte but ASCII
/// letters, digits and `-._~`, so a string of those alone comes back as is.
#[verifier::external_body]
fn url_encode(s: &str) -> (r: String)
    ensures
        r@ == url_encoded(s@),
        (forall|i: int| 0 <= i < s@.len() ==> is_unreserved(#[trigger] s@[i])) ==> r@ == s@,
{
    urlencoding::encode(s).into_owned()
}

/// Relies on `str::to_lowercase`.
#[verifier::external_body]
fn lowercase(s: &str) -> (r: String)
    ensures
        r@ == lowercased(s@),
{
    s.to_lowercase()
}

/// Relies on `hmac::Hmac<sha2::Sha256>`: `new_from_slice` with the key's
/// bytes, `update` with the message's bytes, `finalize`. Keying fails only
/// where the key length is refused.
#[verifier::external_body]
fn hmac_sha256(key: &str, msg: &str) -> (r: Option<Vec<u8>>)
    ensures
        r matches Some(v) ==> v@ == hmac_sha256_of(key@, msg@),
{
    match hmac::Hmac::<sha2::Sha256>::new_from_slice(key.as_bytes()) {
        Ok(mut mac) => {
            mac.update(msg.as_bytes());
            Some(mac.finalize().into_bytes().to_vec())
        },
        Err(_) => None,
    }
}

/// Relies on `base64::engine::general_purpose::STANDARD.encode`.
#[verifier::external_body]
fn base64_encode(bytes: &Vec<u8>) -> (r: String)
    ensures
        r@ == base64_of(bytes@),
{
    base64::engine::general_purpose::STANDARD.encode(bytes)
}

/// The text signed for a resource: its encoded URI, a newline, the expiry.
pub open spec fn string_to_sign(encoded_uri: Seq<char>, expiry: u64) -> Seq<char> {
    encoded_uri + seq!['\n'] + decimal_text(expiry as int)
}

/// A shared access signature token from its parts.
pub open spec fn token_text(
    encoded_uri: Seq<char>,
    encoded_signature: Seq<char>,
    expiry: u64,
    key_name: Seq<char>,
) -> Seq<char> {
    "SharedAccessSignature sr="@ + encoded_uri + "&sig="@ + encoded_signature + "&se="@
        + decimal_text(expiry as int) + "&skn="@ + key_name
}

/// The token that signs `resource_uri` with `key` until `expiry`.
pub open spec fn sas_token_spec(key_name: Seq<char>, key: Seq<char>, resource_uri: Seq<char>, expiry: u64) -> Seq<char> {
    let encoded_uri = lowercased(url_encoded(resource_uri));
    let signature = base64_of(hmac_sha256_of(key, string_to_sign(encoded_uri, expiry)));
    token_text(encoded_uri, url_encoded(signature), expiry, key_name)
}

/// Assembles a token from an encoded URI, an encoded signature, the expiry
/// and the key name.
pub fn sas_token_from_parts(
    encoded_uri: &str,
    encoded_signature: &str,
    expiry: u64,
    key_name: &str,
) -> (r: String)
    requires
        expiry <= i64::MAX,
    ensures
        r@ == token_text(encoded_uri@, encoded_signature@, expiry, key_name@),
{
    let se = i64_text(expiry as i64);
    String::from_str("SharedAccessSignature sr=").concat(encoded_uri).concat("&sig=").concat(
        encoded_signature,
    ).concat("&se=").concat(se.as_str()).concat("&skn=").concat(key_name)
}

/// Signs `resource_uri` with the shared access `key` named `key_name`, valid
/// until `expiry` (seconds since the Unix epoch).
pub fn generate_sas_token(key_name: &str, key: &str, resource_uri: &str, expiry: u64) -> (r: Result<
    String,
    ServiceBusError,
>)
    ensures
        match r {
            Ok(t) => t@ == sas_token_spec(key_name@, key@, resource_uri@, expiry),
            Err(e) => e is Auth,
        },
{
    if expiry > i64::MAX as u64 {
        return Err(ServiceBusError::Auth(String::from_str("token expiry out of range")));
    }
    let encoded_uri = lowercase(url_encode(resource_uri).as_str());
    let se = i64_text(expiry as i64);
    let to_sign = String::from_str(encoded_uri.as_str()).concat("\n").concat(se.as_str());
    proof {
        reveal_strlit("\n");
        assert("\n"@ =~= seq!['\n']);
    }
    let mac = match hmac_sha256(key, to_sign.as_str()) {
        Some(m) => m,
        None => return Err(ServiceBusError::Auth(String::from_str("HMAC key error"))),
    };
    let signature = base64_encode(&mac);
    let encoded_signature = url_encode(signature.as_str());
    Ok(sas_token_from_parts(encoded_uri.as_str(), encoded_signature.as_str(), expiry, key_name))
}

} // verus!
