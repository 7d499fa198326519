//! The token guard: a protected request goes through only if it presents
//! exactly the token that the store holds. A store without a token lets
//! nothing through; the first token is set by [`establish_token`].

use vstd::prelude::*;
use vstd::string::*;
use vstd::utf8::{decode_utf8, encode_utf8, encode_utf8_decode_utf8};
use crate::storage_config::loaded;
use crate::store::{
    bytes_equal, bytes_view, key_name, written, SettingKey, StoreContents, StoreOp, StoreWrite,
};

verus! {

/// Why a request was turned away.
#[derive(Clone, Copy, Debug, PartialEq, Eq, Structural)]
pub enum AuthError {
    /// The store holds no token: nothing is let through.
    NotConfigured,
    /// The request presented no token.
    Missing,
    /// The request presented another token than the stored one.
    Mismatch,
}

/// The guard's verdict on a request, from the stored token and the
/// presented one, each as bytes.
pub open spec fn verdict(stored: Option<Seq<u8>>, presented: Option<Seq<u8>>) -> Result<
    Seq<u8>,
    AuthError,
> {
    match stored {
        None => Err(AuthError::NotConfigured),
        Some(s) => match presented {
            None => Err(AuthError::Missing),
            Some(p) => if p == s {
                Ok(s)
            } else {
                Err(AuthError::Mismatch)
            },
        },
    }
}

/// The control endpoints.
#[derive(Clone, Copy, Debug, PartialEq, Eq, Structural)]
pub enum Endpoint {
    /// Health check.
    Index,
    /// The supervisor's version.
    Version,
    /// Ends a process.
    Kill,
    /// Replaces the token.
    TokenRest,
    /// Shows the token; for local callers.
    TokenView,
    /// Removes the token; for local callers.
    TokenClear,
}

/// Whether an endpoint is behind the guard: those that change state on
/// behalf of a remote caller are.
pub open spec fn is_gated(endpoint: Endpoint) -> bool {
    endpoint == Endpoint::Kill || endpoint == Endpoint::TokenRest
}

/// The path of an endpoint.
pub open spec fn endpoint_path(endpoint: Endpoint) -> Seq<char> {
    match endpoint {
        Endpoint::Index => "/"@,
        Endpoint::Version => "/version"@,
        Endpoint::Kill => "/kill"@,
        Endpoint::TokenRest => "/token/rest"@,
        Endpoint::TokenView => "/token/view"@,
        Endpoint::TokenClear => "/token/clear"@,
    }
}

/// Whether a request to an endpoint goes on to its handler: always for an
/// open endpoint, by the guard's verdict for a gated one.
pub open spec fn admission(
    endpoint: Endpoint,
    stored: Option<Seq<u8>>,
    presented: Option<Seq<u8>>,
) -> Result<(), AuthError> {
    if is_gated(endpoint) {
        match verdict(stored, presented) {
            Ok(_) => Ok(()),
            Err(e) => Err(e),
        }
    } else {
        Ok(())
    }
}

/// The bytes of an optional string.
pub open spec fn text_bytes(text: Option<&str>) -> Option<Seq<u8>> {
    match text {
        Some(t) => Some(encode_utf8(t@)),
        None => None,
    }
}

/// The token of a request that the guard let through.
#[derive(Debug)]
pub struct CommunicationToken {
    token: Vec<u8>,
}

impl View for CommunicationToken {
    type V = Seq<u8>;

    closed spec fn view(&self) -> Seq<u8> {
        self.token@
    }
}

/// The views of a guard's result.
pub open spec fn outcome_view(outcome: Result<CommunicationToken, AuthError>) -> Result<
    Seq<u8>,
    AuthError,
> {
    match outcome {
        Ok(t) => Ok(t@),
        Err(e) => Err(e),
    }
}

impl CommunicationToken {
    /// The key under which the token is stored.
    pub fn token_key() -> (r: String)
        ensures
            r@ == key_name(SettingKey::Token),
    {
        SettingKey::Token.name()
    }

    /// Judges a protected request: `stored` is what the store holds under
    /// the token key, `presented` what the request carried.
    pub fn authorize(stored: &Option<Vec<u8>>, presented: Option<&str>) -> (r: Result<
        CommunicationToken,
        AuthError,
    >)
        ensures
            outcome_view(r) == verdict(bytes_view(*stored), text_bytes(presented)),
    {
        match stored {
            None => Err(AuthError::NotConfigured),
            Some(s) => match presented {
                None => Err(AuthError::Missing),
                Some(p) => {
                    if bytes_equal(p.as_bytes(), s.as_slice()) {
                        Ok(CommunicationToken { token: s.clone() })
                    } else {
                        Err(AuthError::Mismatch)
                    }
                },
            },
        }
    }

    /// The token that was accepted.
    pub fn into_bytes(self) -> (r: Vec<u8>)
        ensures
            r@ == self@,
    {
        self.token
    }
}

impl Endpoint {
    /// Whether the endpoint is behind the guard.
    pub fn is_protected(&self) -> (r: bool)
        ensures
            r == is_gated(*self),
    {
        match self {
            Endpoint::Kill | Endpoint::TokenRest => true,
            _ => false,
        }
    }

    /// The path under which the endpoint is served.
    pub fn path(&self) -> (r: String)
        ensures
            r@ == endpoint_path(*self),
    {
        match self {
            Endpoint::Index => String::from_str("/"),
            Endpoint::Version => String::from_str("/version"),
            Endpoint::Kill => String::from_str("/kill"),
            Endpoint::TokenRest => String::from_str("/token/rest"),
            Endpoint::TokenView => String::from_str("/token/view"),
            Endpoint::TokenClear => String::from_str("/token/clear"),
        }
    }
}

/// Decides whether a request to `endpoint` goes on to its handler.
pub fn check_request(endpoint: Endpoint, stored: &Option<Vec<u8>>, presented: Option<&str>) -> (r: Result<
    (),
    AuthError,
>)
    ensures
        r == admission(endpoint, bytes_view(*stored), text_bytes(presented)),
{
    if endpoint.is_protected() {
        match CommunicationToken::authorize(stored, presented) {
            Ok(_) => Ok(()),
            Err(e) => Err(e),
        }
    } else {
        Ok(())
    }
}

/// The write that sets the first token, for a store that holds none.
/// Where a token is already stored nothing is written: it can only be
/// replaced by a request that presents it.
pub fn establish_token(stored: &Option<Vec<u8>>, token: &str) -> (r: Option<StoreOp>)
    ensures
        match r {
            Some(op) => stored is None && op@ == (StoreWrite::Put {
                key: SettingKey::Token,
                value: encode_utf8(token@),
            }),
            None => stored is Some,
        },
{
    match stored {
        None => Some(StoreOp::Put { key: SettingKey::Token, value: token.as_bytes_vec() }),
        Some(_) => None,
    }
}

/// A request is let through exactly when a token is stored and the request
/// presents that very token.
pub proof fn only_the_stored_token_passes(stored: Option<Seq<u8>>, presented: Option<Seq<u8>>)
    ensures
        verdict(stored, presented) is Ok <==> (stored is Some && presented == stored),
        stored is None ==> verdict(stored, presented) == Err::<Seq<u8>, AuthError>(
            AuthError::NotConfigured,
        ),
{
}

/// Tokens are compared by their bytes, and two texts have the same bytes
/// only if they are the same text: a stored token `stored` lets through
/// exactly the requests that present `stored`.
pub proof fn token_match_is_text_equality(stored: Seq<char>, presented: Seq<char>)
    ensures
        verdict(Some(encode_utf8(stored)), Some(encode_utf8(presented))) is Ok <==> presented
            == stored,
{
    encode_utf8_decode_utf8(stored);
    encode_utf8_decode_utf8(presented);
    if encode_utf8(presented) == encode_utf8(stored) {
        assert(decode_utf8(encode_utf8(presented)) == decode_utf8(encode_utf8(stored)));
    }
}

/// Once a new token has been written to the store, a request is let
/// through exactly when it presents the new token, whatever was stored
/// before.
pub proof fn rotation_replaces_accepted_token(
    store: StoreContents,
    new_token: Seq<u8>,
    presented: Option<Seq<u8>>,
)
    ensures
        ({
            let after = written(
                store,
                StoreWrite::Put { key: SettingKey::Token, value: new_token },
            );
            &&& loaded(after).token == Some(new_token)
            &&& verdict(loaded(after).token, presented) is Ok <==> presented == Some(new_token)
        }),
{
}

/// A gated endpoint's handler runs only for a request that presents the
/// stored token; an open endpoint's handler runs for every request.
pub proof fn gated_handlers_need_the_stored_token(
    endpoint: Endpoint,
    stored: Option<Seq<u8>>,
    presented: Option<Seq<u8>>,
)
    ensures
        is_gated(endpoint) ==> (admission(endpoint, stored, presented) is Ok <==> (stored is Some
            && presented == stored)),
        !is_gated(endpoint) ==> admission(endpoint, stored, presented) is Ok,
{
}

/// Once the token has been removed from the store, nothing is let through.
pub proof fn cleared_store_admits_nothing(store: StoreContents, presented: Option<Seq<u8>>)
    ensures
        verdict(
            loaded(written(store, StoreWrite::Remove { key: SettingKey::Token })).token,
            presented,
        ) == Err::<Seq<u8>, AuthError>(AuthError::NotConfigured),
{
}

} // verus!
