//! Bearer-token authentication: the key set a provider publishes, the claims
//! of a verified token, and the RFC 6749 error answers.
use vstd::prelude::*;

verus! {

/// A JSON Web Key Set.
#[derive(Debug)]
pub struct Jwks {
    pub keys: Vec<Jwk>,
}

/// One JSON Web Key.
#[derive(Debug, PartialEq)]
pub struct Jwk {
    pub kid: String,
    pub kty: String,
    pub alg: String,
    pub n: String,
    pub e: String,
}

/// The claims of a verified access token.
#[derive(Debug, PartialEq)]
pub struct Claims {
    pub sub: String,
    pub email: Option<String>,
    pub username: Option<String>,
    pub iss: Option<String>,
    pub aud: Option<String>,
    pub exp: Option<u64>,
    pub iat: Option<u64>,
    pub token_use: Option<String>,
}

/// The claims of the caller of an authenticated request.
#[derive(Debug, PartialEq)]
pub struct AuthUser(pub Claims);

/// An OAuth 2.0 error answer (RFC 6749, section 5.2).
#[derive(Debug, PartialEq)]
pub struct AuthError {
    pub error: String,
    pub error_description: Option<String>,
}

/// How long a fetched key set is trusted, in milliseconds (one hour).
pub const JWKS_CACHE_TTL_MS: u128 = 3_600_000;

/// Only RSA keys can check the tokens.
pub open spec fn rsa_only() -> spec_fn(Jwk) -> bool {
    |k: Jwk| k.kty@ == "RSA"@
}

/// The header value a bearer-token request is refused with.
pub open spec fn challenge_text(e: AuthError) -> Seq<char> {
    "Bearer error=\""@ + e.error@ + "\", error_description=\""@ + match e.error_description {
        Some(d) => d@,
        None => Seq::<char>::empty(),
    } + "\""@
}

/// `e` is an `invalid_request` answer described by `description`.
pub open spec fn is_invalid_request(e: AuthError, description: Seq<char>) -> bool {
    &&& e.error@ == "invalid_request"@
    &&& e.error_description is Some
    &&& e.error_description->Some_0@ == description
}

/// The bearer scheme's prefix of an `Authorization` header.
pub open spec fn bearer_prefix() -> Seq<char> {
    "Bearer "@
}

impl Jwks {
    /// The RSA keys of the set, in order.
    pub fn rsa_keys(self) -> (r: Vec<Jwk>)
        ensures
            r@ == self.keys@.filter(rsa_only()),
    {
        let ghost all = self.keys@;
        let mut rest = self.keys;
        let mut kept: Vec<Jwk> = Vec::new();
        let rsa = String::from_str("RSA");
        let ghost mut i: int = 0;
        assert(all.subrange(0, 0).filter(rsa_only()) =~= Seq::<Jwk>::empty()) by {
            reveal(Seq::filter);
        }
        assert(all.subrange(0, all.len() as int) =~= all);
        while rest.len() > 0
            invariant
                0 <= i <= all.len(),
                rest@ == all.subrange(i, all.len() as int),
                kept@ == all.subrange(0, i).filter(rsa_only()),
                rsa@ == "RSA"@,
            decreases rest@.len(),
        {
            let k = rest.remove(0);
            proof {
                assert(all.subrange(0, i + 1).drop_last() =~= all.subrange(0, i));
                assert(all.subrange(0, i + 1).last() == k);
                reveal(Seq::filter);
            }
            if k.kty == rsa {
                kept.push(k);
            }
            proof {
                i = i + 1;
                assert(rest@ =~= all.subrange(i, all.len() as int));
            }
        }
        assert(all.subrange(0, i) =~= all);
        kept
    }
}

impl AuthError {
    /// The token is missing, expired or cannot be checked.
    pub fn invalid_token(description: String) -> (r: Self)
        ensures
            r.error@ == "invalid_token"@,
            r.error_description == Some(description),
    {
        AuthError { error: String::from_str("invalid_token"), error_description: Some(description) }
    }

    /// The request does not carry a usable `Authorization` header.
    pub fn invalid_request(description: String) -> (r: Self)
        ensures
            r.error@ == "invalid_request"@,
            r.error_description == Some(description),
    {
        AuthError {
            error: String::from_str("invalid_request"),
            error_description: Some(description),
        }
    }

    /// The `WWW-Authenticate` value that goes with the 401 answer.
    pub fn www_authenticate(&self) -> (r: String)
        ensures
            r@ == challenge_text(*self),
    {
        let description = match &self.error_description {
            Some(d) => d.as_str(),
            None => "",
        };
        proof {
            reveal_strlit("");
        }
        String::from_str("Bearer error=\"").concat(self.error.as_str()).concat(
            "\", error_description=\"",
        ).concat(description).concat("\"")
    }
}

/// The token of an `Authorization: Bearer <token>` header. A missing header
/// and one of another scheme are `invalid_request` errors.
pub fn bearer_token(header: Option<&str>) -> (r: Result<&str, AuthError>)
    ensures
        match header {
            None => r is Err && is_invalid_request(r->Err_0, "Missing Authorization header"@),
            Some(h) => if h@.len() >= 7 && h@.subrange(0, 7) == bearer_prefix() {
                r is Ok && r->Ok_0@ == h@.subrange(7, h@.len() as int)
            } else {
                r is Err && is_invalid_request(
                    r->Err_0,
                    "Authorization header must use Bearer scheme"@,
                )
            },
        },
{
    let h = match header {
        Some(h) => h,
        None => {
            return Err(AuthError::invalid_request(String::from_str("Missing Authorization header")));
        },
    };
    proof {
        reveal_strlit("Bearer ");
    }
    let prefix = "Bearer ";
    let len = h.unicode_len();
    let mut matches = len >= 7;
    let mut i: usize = 0;
    while matches && i < 7
        invariant
            0 <= i <= 7,
            len == h@.len(),
            prefix@ == bearer_prefix(),
            prefix@.len() == 7,
            matches ==> len >= 7 && forall|j: int| 0 <= j < i ==> h@[j] == prefix@[j],
            !matches ==> !(h@.len() >= 7 && h@.subrange(0, 7) == bearer_prefix()),
        decreases 7 - i + (if matches { 1int } else { 0int }),
    {
        if h.get_char(i) != prefix.get_char(i) {
            assert(h@.subrange(0, 7)[i as int] != bearer_prefix()[i as int]);
            matches = false;
        } else {
            i += 1;
        }
    }
    if matches {
        assert(h@.subrange(0, 7) =~= bearer_prefix());
        Ok(h.substring_char(7, len))
    } else {
        Err(
            AuthError::invalid_request(
                String::from_str("Authorization header must use Bearer scheme"),
            ),
        )
    }
}

/// Whether a key set fetched `elapsed_ms` milliseconds ago may still be used
/// without fetching it again.
pub fn jwks_cache_fresh(elapsed_ms: u128) -> (r: bool)
    ensures
        r == (elapsed_ms < JWKS_CACHE_TTL_MS),
{
    elapsed_ms < JWKS_CACHE_TTL_MS
}

} // verus!
