//! Sessions and the resolution of presented bearer tokens.
//!
//! A session owns a secret triple of its own; its token carries the
//! session identifier, encoded as a decimal number inside the base64url
//! head segment. Resolving a presented token means recovering that
//! session identifier, looking the session up, and recomputing the token
//! from the stored triple.

use vstd::prelude::*;

verus! {

use base64::Engine;
use crate::models::new_hex_id;
use crate::models::secret::base64url_of;
use crate::models::secret::spec_timestamp_segment;
use crate::models::secret::spec_token;
use crate::models::secret::spec_user_secret;
use crate::routes::HttpError;
use crate::utils::convectors::is_hex_lower;
use crate::utils::convectors::spec_chars_of_bytes;
use crate::utils::convectors::spec_parse_i64;
use crate::utils::convectors::spec_radix_str;
use crate::utils::snowflake::Snowflake;

pub use crate::models::secret::generate_user_secrets;
pub use crate::models::secret::serialize_secret_timestamp;
pub use crate::models::secret::serialize_user_secret;
pub use crate::models::secret::serialize_user_token;
pub use crate::models::secret::verify_user_token;

/// An authenticated device session.
pub struct Session {
    /// The session ID: lowercase hexadecimal.
    pub id: String,
    /// The user's ID.
    pub user_id: Snowflake,
    /// The device user agent the session was created from.
    pub browser_user_agent: String,
    /// The IP the session was created from.
    pub ip: String,
    /// The session authentication secret (part 1).
    pub secret1: i64,
    /// The session authentication secret (part 2).
    pub secret2: i64,
    /// The UNIX timestamp when the secret was generated (part 3).
    pub secret3: i64,
}

impl Session {
    /// The secret triple every operation keeps: all three values
    /// nonnegative.
    pub open spec fn wf(&self) -> bool {
        self.secret1 >= 0 && self.secret2 >= 0 && self.secret3 >= 0
    }

    /// The numeric identity the session's tokens are keyed by: its
    /// hexadecimal identifier read as a number, zero when it does not
    /// parse.
    pub open spec fn spec_uid(&self) -> i64 {
        match spec_parse_i64(self.id@, 16) {
            Some(v) => v,
            None => 0i64,
        }
    }

    /// Create a new [`Session`] with a fresh hexadecimal identifier and a
    /// fresh secret triple.
    pub fn new(user_id: Snowflake, ua: String, ip: String, now_ms: u64) -> (s: Session)
        ensures
            s.wf(),
            s.user_id == user_id,
            s.browser_user_agent == ua,
            s.ip == ip,
            s.id@.len() == 14,
            forall|i: int| 0 <= i < s.id@.len() ==> is_hex_lower(#[trigger] s.id@[i]),
            s.secret3 == now_ms as int % 0x7FFF_FFFF_FFFF_FFFF,
    {
        let secrets = generate_user_secrets(now_ms);
        Session {
            ip,
            user_id,
            id: new_hex_id(14),
            browser_user_agent: ua,
            secret1: secrets.0,
            secret2: secrets.1,
            secret3: secrets.2,
        }
    }

    /// Serialize the session's secret segment.
    pub fn secret(&self) -> (r: String)
        requires
            self.wf(),
        ensures
            r@ == spec_user_secret(self.secret1, self.secret2, self.spec_uid()),
    {
        serialize_user_secret(self.secret1, self.secret2, crate::utils::convectors::hex_to_int(
            self.id.as_str(),
        ))
    }

    /// Serialize the session's timestamp segment.
    pub fn secret_timestamp(&self) -> (r: String)
        requires
            self.wf(),
        ensures
            r@ == spec_timestamp_segment(self.spec_uid(), self.secret3),
    {
        serialize_secret_timestamp(
            crate::utils::convectors::hex_to_int(self.id.as_str()),
            self.secret3,
        )
    }

    /// Serialize the session's token.
    pub fn token(&self) -> (r: String)
        requires
            self.wf(),
        ensures
            r@ == spec_token(self.spec_uid(), self.secret1, self.secret2, self.secret3),
    {
        serialize_user_token(
            crate::utils::convectors::hex_to_int(self.id.as_str()),
            self.secret_timestamp(),
            self.secret(),
        )
    }

    /// Whether a presented token reproduces exactly from this session's
    /// stored triple.
    pub fn verify_token(&self, token: &str) -> (ok: bool)
        requires
            self.wf(),
        ensures
            ok == (token@ == spec_token(
                self.spec_uid(),
                self.secret1,
                self.secret2,
                self.secret3,
            )),
    {
        verify_user_token(
            token,
            crate::utils::convectors::hex_to_int(self.id.as_str()),
            self.secret1,
            self.secret2,
            self.secret3,
        )
    }
}

impl Clone for Session {
    fn clone(&self) -> (res: Self)
        ensures
            res == *self,
    {
        Session {
            id: self.id.clone(),
            user_id: self.user_id,
            browser_user_agent: self.browser_user_agent.clone(),
            ip: self.ip.clone(),
            secret1: self.secret1,
            secret2: self.secret2,
            secret3: self.secret3,
        }
    }
}

/// The characters of a token before its first dot, if it has a dot.
pub open spec fn spec_before_first_dot(s: Seq<char>) -> Option<Seq<char>>
    decreases s.len(),
{
    if s.len() == 0 {
        None
    } else if s[0] == '.' {
        Some(Seq::empty())
    } else {
        match spec_before_first_dot(s.drop_first()) {
            Some(t) => Some(seq![s[0]] + t),
            None => None,
        }
    }
}

/// The head segment is the prefix before the first dot.
proof fn lemma_before_first_dot(s: Seq<char>, k: int)
    requires
        0 <= k < s.len(),
        s[k] == '.',
        forall|j: int| 0 <= j < k ==> s[j] != '.',
    ensures
        spec_before_first_dot(s) == Some(s.take(k)),
    decreases s.len(),
{
    if k == 0 {
        assert(s.take(0) =~= Seq::<char>::empty());
    } else {
        let rest = s.drop_first();
        assert(rest[k - 1] == '.');
        assert(forall|j: int| 0 <= j < k - 1 ==> #[trigger] rest[j] != '.');
        lemma_before_first_dot(rest, k - 1);
        assert(seq![s[0]] + rest.take(k - 1) =~= s.take(k));
    }
}

/// A token without a dot has no head segment.
proof fn lemma_no_dot(s: Seq<char>)
    requires
        forall|j: int| 0 <= j < s.len() ==> s[j] != '.',
    ensures
        spec_before_first_dot(s) is None,
    decreases s.len(),
{
    if s.len() > 0 {
        let rest = s.drop_first();
        assert(forall|j: int| 0 <= j < rest.len() ==> #[trigger] rest[j] != '.');
        lemma_no_dot(rest);
    }
}

/// Relies on base64's `Engine::decode` with the URL-safe no-padding
/// engine: padding and nonzero trailing bits are rejected, so exactly the
/// canonical encodings decode, each to the unique bytes it encodes.
#[verifier::external_body]
pub(crate) fn b64url_decode(s: &str) -> (r: Option<Vec<u8>>)
    ensures
        match r {
            Some(v) => s@ == base64url_of(v@) && forall|b: Seq<u8>|
                s@ == base64url_of(b) ==> b == v@,
            None => forall|b: Seq<u8>| s@ != base64url_of(b),
        },
{
    match base64::prelude::BASE64_URL_SAFE_NO_PAD.decode(s) {
        Ok(v) => Some(v),
        Err(_) => None,
    }
}

/// Recover the session identifier a presented token claims: the part
/// before the first dot, decoded from base64url, read as a decimal
/// number and rendered in hexadecimal. Any malformed head is refused as
/// [`HttpError::Unauthorized`].
pub fn parse_token_session_id(token: &str) -> (r: Result<String, HttpError>)
    ensures
        r is Err ==> r == Err::<String, HttpError>(HttpError::Unauthorized),
        match spec_before_first_dot(token@) {
            None => r is Err,
            Some(head) => {
                &&& (r is Ok <==> exists|b: Seq<u8>|
                    head == base64url_of(b) && spec_parse_i64(spec_chars_of_bytes(b), 10) is Some)
                &&& forall|b: Seq<u8>|
                    head == base64url_of(b) ==> match spec_parse_i64(spec_chars_of_bytes(b), 10) {
                        Some(x) => r matches Ok(sid) && sid@ == spec_radix_str(
                            (x as u64) as nat,
                            16,
                        ),
                        None => r is Err,
                    }
            },
        },
{
    let len = token.unicode_len();
    let mut k: usize = 0;
    let mut found = false;
    while k < len && !found
        invariant
            k <= len,
            len == token@.len(),
            found ==> k < len && token@[k as int] == '.',
            forall|j: int| 0 <= j < k ==> token@[j] != '.',
        decreases len - k, if found { 0int } else { 1int },
    {
        if token.get_char(k) == '.' {
            found = true;
        } else {
            k = k + 1;
        }
    }
    if !found {
        proof {
            lemma_no_dot(token@);
        }
        return Err(HttpError::Unauthorized);
    }
    proof {
        lemma_before_first_dot(token@, k as int);
    }
    let head = token.substring_char(0, k);
    proof {
        assert(head@ == token@.take(k as int));
    }
    let decoded = b64url_decode(head);
    match decoded {
        None => Err(HttpError::Unauthorized),
        Some(bytes) => {
            let parsed = crate::utils::convectors::parse_dec_i64_bytes(bytes.as_slice());
            match parsed {
                None => Err(HttpError::Unauthorized),
                Some(x) => Ok(
                    crate::utils::convectors::to_string_radix_unsigned(x as u64, 16),
                ),
            }
        },
    }
}

} // verus!
