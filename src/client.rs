use vstd::prelude::*;
use vstd::string::*;

use tonic::metadata::MetadataMap;

use crate::wire::{decimal, decimal_text};

verus! {

#[verifier::external_type_specification]
#[verifier::external_body]
pub struct ExMetadataMap(MetadataMap);

/// The text entries of a metadata map: each ASCII key whose first value is
/// visible ASCII text, mapped to that text.
pub uninterp spec fn text_entries(m: MetadataMap) -> Map<Seq<char>, Seq<char>>;

/// What `http::HeaderValue::from_str` accepts: no control character but tab.
pub open spec fn header_value_ok(s: Seq<char>) -> bool {
    forall|i: int|
        0 <= i < s.len() ==> ((s[i] as u32 >= 32 && s[i] as u32 != 127) || s[i] == '\t')
}

/// What `MetadataValue::to_str` reads back as text: visible ASCII and tab.
pub open spec fn visible_ascii(s: Seq<char>) -> bool {
    forall|i: int| 0 <= i < s.len() ==> ((32 <= s[i] as u32 && (s[i] as u32) < 127) || s[i] == '\t')
}

/// A lower-case ASCII metadata key that does not name a binary entry and
/// fits the header-name length limit.
pub open spec fn metadata_key_ok(k: Seq<char>) -> bool {
    &&& 0 < k.len() <= 65535
    &&& forall|i: int|
        0 <= i < k.len() ==> (('a' <= #[trigger] k[i] && k[i] <= 'z') || ('0' <= k[i] && k[i]
            <= '9') || k[i] == '-' || k[i] == '_')
    &&& !(k.len() >= 4 && k.subrange(k.len() - 4, k.len() as int) == seq!['-', 'b', 'i', 'n'])
}

/// The text entries after `v` is put under `key`: a value the header rules
/// refuse leaves them as they were, one that is not text removes the key.
pub open spec fn with_header(
    m: Map<Seq<char>, Seq<char>>,
    key: Seq<char>,
    v: Seq<char>,
) -> Map<Seq<char>, Seq<char>> {
    if !header_value_ok(v) {
        m
    } else if visible_ascii(v) {
        m.insert(key, v)
    } else {
        m.remove(key)
    }
}

/// Relies on `str::parse` into tonic's `MetadataValue<Ascii>` (which accepts
/// what `http::HeaderValue::from_str` accepts) and on `MetadataMap::insert`,
/// which replaces every value held under the key by the new one; a
/// `&'static str` key is checked by `MetadataKey::from_static`, which panics
/// on an invalid, binary or over-long key. A refused value inserts nothing.
#[verifier::external_body]
fn insert_text(meta: &mut MetadataMap, key: &'static str, value: &str) -> (ok: bool)
    requires
        metadata_key_ok(key@),
    ensures
        ok == header_value_ok(value@),
        !ok ==> *final(meta) == *old(meta),
        text_entries(*final(meta)) == with_header(text_entries(*old(meta)), key@, value@),
{
    match value.parse() {
        Ok(v) => {
            meta.insert(key, v);
            true
        },
        Err(_) => false,
    }
}

/// Relies on `MetadataMap::get` (the first ASCII value under the key) and
/// `MetadataValue::to_str`, which succeeds only on visible ASCII. The key is
/// already lower case, so the lookup's case folding leaves it as it is.
#[verifier::external_body]
fn get_text(meta: &MetadataMap, key: &str) -> (r: Option<String>)
    requires
        metadata_key_ok(key@),
    ensures
        match r {
            Some(t) => text_entries(*meta).contains_key(key@) && text_entries(*meta)[key@] == t@
                && visible_ascii(t@),
            None => !text_entries(*meta).contains_key(key@),
        },
{
    meta.get(key).and_then(|v| v.to_str().ok()).map(|s| s.to_string())
}

pub open spec fn authorization_key() -> Seq<char> {
    "authorization"@
}

pub open spec fn refresh_key() -> Seq<char> {
    "refresh_token"@
}

/// Outgoing metadata once the held token (if any) is stamped on it.
pub open spec fn stamped(
    held: Option<Seq<char>>,
    req: Map<Seq<char>, Seq<char>>,
) -> Map<Seq<char>, Seq<char>> {
    match held {
        Some(t) => with_header(req, authorization_key(), t),
        None => req,
    }
}

/// The held token once a response's metadata is absorbed.
pub open spec fn absorbed(
    held: Option<Seq<char>>,
    resp: Map<Seq<char>, Seq<char>>,
) -> Option<Seq<char>> {
    if resp.contains_key(refresh_key()) {
        Some(resp[refresh_key()])
    } else {
        held
    }
}

pub open spec fn opt_view(t: Option<String>) -> Option<Seq<char>> {
    match t {
        Some(s) => Some(s@),
        None => None,
    }
}

/// Wire status of an authentication response, as the service reports it.
#[derive(Debug, Clone, Copy, PartialEq, Eq, Structural)]
pub enum AuthStatus {
    Success,
    Unauthorized,
    Other,
}

/// Why an authentication did not succeed.
#[derive(Debug, Clone, Copy, PartialEq, Eq, Structural)]
pub enum AuthError {
    Unauthorized,
    Unknown,
}

impl AuthError {
    pub fn message(&self) -> (r: String)
        ensures
            *self == AuthError::Unauthorized ==> r@ == "Unauthorized"@,
            *self == AuthError::Unknown ==> r@ == "Unknown error"@,
    {
        match self {
            AuthError::Unauthorized => String::from_str("Unauthorized"),
            AuthError::Unknown => String::from_str("Unknown error"),
        }
    }
}

/// Address of the service: the scheme follows the secure-transport flag.
pub open spec fn endpoint(host: Seq<char>, port: nat, use_ssl: bool) -> Seq<char> {
    (if use_ssl {
        "https://"@
    } else {
        "http://"@
    }) + host + ":"@ + decimal(port)
}

pub fn endpoint_url(host: &str, port: u16, use_ssl: bool) -> (r: String)
    ensures
        r@ == endpoint(host@, port as nat, use_ssl),
{
    let mut url = if use_ssl {
        String::from_str("https://")
    } else {
        String::from_str("http://")
    };
    url.append(host);
    url.append(":");
    let digits = decimal_text(port as u128);
    url.append(digits.as_str());
    url
}

/// A client of the service: the transport handle `C` and the session token.
pub struct ArikedbClient<C> {
    pub client: C,
    pub token: Option<String>,
}

impl<C> ArikedbClient<C> {
    pub open spec fn token_view(&self) -> Option<Seq<char>> {
        opt_view(self.token)
    }

    /// A client over `client` that holds no token yet.
    pub fn new(client: C) -> (r: Self)
        ensures
            r.client == client,
            r.token_view() is None,
    {
        ArikedbClient { client, token: None }
    }

    /// Stamps the held token on outgoing metadata under `authorization`; does
    /// nothing when no token is held. Returns `false` only when a token is held
    /// that cannot travel as metadata: the call must not go out then.
    pub fn insert_meta(&self, meta: &mut MetadataMap) -> (ok: bool)
        ensures
            ok == match self.token_view() {
                Some(t) => header_value_ok(t),
                None => true,
            },
            text_entries(*final(meta)) == stamped(self.token_view(), text_entries(*old(meta))),
            self.token_view() is None ==> *final(meta) == *old(meta),
            !ok ==> *final(meta) == *old(meta),
    {
        match &self.token {
            Some(token) => {
                proof {
                    reveal_strlit("authorization");
                }
                insert_text(meta, "authorization", token.as_str())
            },
            None => true,
        }
    }

    /// Takes a rotated token from incoming metadata under `refresh_token`;
    /// keeps the held one when there is none.
    pub fn read_meta(&mut self, meta: &MetadataMap)
        ensures
            final(self).token_view() == absorbed(old(self).token_view(), text_entries(*meta)),
            text_entries(*meta).contains_key(refresh_key()) ==> visible_ascii(
                text_entries(*meta)[refresh_key()],
            ),
            final(self).client == old(self).client,
    {
        proof {
            reveal_strlit("refresh_token");
        }
        match get_text(meta, "refresh_token") {
            Some(t) => {
                self.token = Some(t);
            },
            None => {},
        }
    }

    /// Settles an authentication response: on success the body's token becomes
    /// the held token; otherwise the session is left as it was.
    pub fn finish_authenticate(&mut self, status: AuthStatus, token: String) -> (r: Result<
        (),
        AuthError,
    >)
        ensures
            final(self).client == old(self).client,
            status == AuthStatus::Success ==> r is Ok && final(self).token_view() == Some(token@),
            status == AuthStatus::Unauthorized ==> r == Err::<(), AuthError>(
                AuthError::Unauthorized,
            ) && final(self).token_view() == old(self).token_view(),
            status == AuthStatus::Other ==> r == Err::<(), AuthError>(AuthError::Unknown)
                && final(self).token_view() == old(self).token_view(),
    {
        match status {
            AuthStatus::Success => {
                self.token = Some(token);
                Ok(())
            },
            AuthStatus::Unauthorized => Err(AuthError::Unauthorized),
            AuthStatus::Other => Err(AuthError::Unknown),
        }
    }
}

/// Without a token, stamping leaves outgoing metadata as it was.
pub proof fn lemma_stamp_without_token(req: Map<Seq<char>, Seq<char>>)
    ensures
        stamped(None, req) == req,
{
}

/// A rotated token from a response is what the next call stamps. The
/// rotated value is visible ASCII whenever `read_meta` takes it.
pub proof fn lemma_rotated_token_is_stamped(
    held: Option<Seq<char>>,
    resp: Map<Seq<char>, Seq<char>>,
    req: Map<Seq<char>, Seq<char>>,
)
    requires
        resp.contains_key(refresh_key()),
        visible_ascii(resp[refresh_key()]),
    ensures
        stamped(absorbed(held, resp), req) == req.insert(
            authorization_key(),
            resp[refresh_key()],
        ),
{
}

/// After a successful authentication the token is stamped on the next call,
/// and a response that rotates no token keeps it for the call after.
pub proof fn lemma_authenticated_calls_are_stamped(
    token: Seq<char>,
    resp: Map<Seq<char>, Seq<char>>,
    req: Map<Seq<char>, Seq<char>>,
)
    requires
        visible_ascii(token),
        !resp.contains_key(refresh_key()),
    ensures
        stamped(Some(token), req) == req.insert(authorization_key(), token),
        stamped(absorbed(Some(token), resp), req) == req.insert(authorization_key(), token),
{
}

} // verus!
