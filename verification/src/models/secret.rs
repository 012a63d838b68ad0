//! The stateless bearer-token codec and the per-user secret triple.
//!
//! A token is derived deterministically from an identifier and the
//! owner's secret triple and verified by recomputation: a presented token
//! is valid exactly when it reproduces, character for character, from the
//! currently stored triple. Rotating the triple therefore revokes every
//! previously issued token at once.

use vstd::prelude::*;

verus! {

use base64::Engine;
use vstd::string::StringExecFns;
use vstd::string::StringSliceAdditionalSpecFns;
use crate::utils::convectors::ascii_bytes;
use crate::utils::convectors::is_radix_char;
use crate::utils::convectors::lemma_chars_le_len;
use crate::utils::convectors::lemma_radix_str_chars;
use crate::utils::convectors::lower_char;
use crate::utils::convectors::push_char;
use crate::utils::convectors::spec_radix_str;
use crate::utils::convectors::spec_to_lower;
use crate::utils::convectors::spec_to_upper;
use crate::utils::convectors::string_reverse;
use crate::utils::convectors::string_to_lowercase;
use crate::utils::convectors::string_to_uppercase;
use crate::utils::convectors::to_string_radix_signed;
use crate::utils::convectors::to_string_radix_unsigned;
use crate::utils::convectors::upper_char;
use crate::utils::snowflake::Snowflake;

/// WARNING: CHANGE THIS KEY IN YOUR OWN PRODUCTION INSTANCE
pub const _SECRET_KEY: i64 = 0x7E6E2C06DF6F2C6D;

/// The two scrambled halves derived from a secret pair: each half is
/// masked with the private key, then one half is folded into the other
/// according to the parity of the owning identifier.
pub open spec fn spec_scramble(s1: i64, s2: i64, uid: i64) -> (i64, i64) {
    let t1 = s1 ^ _SECRET_KEY;
    let t2 = s2 ^ _SECRET_KEY;
    if uid & 1 == 0 {
        (t1 ^ t2, t2)
    } else {
        (t1, t2 ^ t1)
    }
}

/// The secret segment of a token: the two secrets and their two scrambled
/// halves, each rendered in base 36, with fixed case and direction per
/// segment, concatenated without separators.
pub open spec fn spec_user_secret(s1: i64, s2: i64, uid: i64) -> Seq<char> {
    let t1 = spec_scramble(s1, s2, uid).0;
    let t2 = spec_scramble(s1, s2, uid).1;
    spec_to_upper(spec_radix_str(s1 as nat, 36)) + spec_to_lower(
        spec_radix_str(s2 as nat, 36),
    ).reverse() + spec_to_upper(spec_radix_str(t2 as nat, 36)) + spec_to_upper(
        spec_radix_str(t1 as nat, 36),
    ).reverse()
}

/// Whether bit `i` of the identifier is set.
pub open spec fn spec_id_bit(id: i64, i: int) -> bool {
    ((id as u64) >> (i as u64)) & 1 == 1
}

/// The timestamp segment of a token: the timestamp secret in base 20,
/// each character lowercased where the corresponding bit of the
/// identifier is set and uppercased where it is clear.
pub open spec fn spec_timestamp_segment(id: i64, secret: i64) -> Seq<char> {
    let base = spec_radix_str(secret as nat, 20);
    Seq::new(
        base.len(),
        |i: int|
            if spec_id_bit(id, i) {
                lower_char(base[i])
            } else {
                upper_char(base[i])
            },
    )
}

/// The decimal rendering of a signed value, with a leading `'-'` for
/// negative values.
pub open spec fn spec_dec_str(v: i64) -> Seq<char> {
    if v < 0 {
        seq!['-'] + spec_radix_str((-(v as int)) as nat, 10)
    } else {
        spec_radix_str(v as nat, 10)
    }
}

/// What base64's URL-safe no-padding engine returns for a byte sequence.
pub uninterp spec fn base64url_of(bytes: Seq<u8>) -> Seq<char>;

/// A full token: the base64url rendering of the decimal identifier, the
/// timestamp segment and the secret segment, joined with dots.
pub open spec fn spec_user_token(id: i64, timestamp: Seq<char>, secret: Seq<char>) -> Seq<char> {
    base64url_of(ascii_bytes(spec_dec_str(id))) + seq!['.'] + timestamp + seq!['.'] + secret
}

/// The token that a given identifier and secret triple serialize to.
pub open spec fn spec_token(id: i64, s1: i64, s2: i64, s3: i64) -> Seq<char> {
    spec_user_token(id, spec_timestamp_segment(id, s3), spec_user_secret(s1, s2, id))
}

/// Relies on base64's `Engine::encode` with the URL-safe alphabet and no
/// padding: the encoding is a function of the input bytes alone, and the
/// URL-safe alphabet contains no `'.'`.
#[verifier::external_body]
pub(crate) fn b64url_encode(bytes: &[u8]) -> (r: String)
    ensures
        r@ == base64url_of(bytes@),
        forall|i: int| 0 <= i < r@.len() ==> r@[i] != '.',
{
    base64::prelude::BASE64_URL_SAFE_NO_PAD.encode(bytes)
}

/// Relies on rand's documentation of `random`: drawing from the standard
/// distribution of the type; nothing is promised of the value.
pub assume_specification<T>[ rand::random::<T> ]() -> (r: T)
    where
        rand::distributions::Standard: rand::distributions::Distribution<T>,
;

/// XOR of two nonnegative values is nonnegative.
proof fn lemma_xor_nonneg(a: i64, b: i64)
    requires
        a >= 0,
        b >= 0,
    ensures
        a ^ b >= 0,
{
    assert(a ^ b >= 0) by (bit_vector)
        requires
            a >= 0 && b >= 0,
    ;
}

/// Serialize the secret pair into the secret segment of a token.
pub fn serialize_user_secret(s1: i64, s2: i64, uid: i64) -> (r: String)
    requires
        s1 >= 0,
        s2 >= 0,
    ensures
        r@ == spec_user_secret(s1, s2, uid),
{
    let mut t1 = s1 ^ _SECRET_KEY;
    let mut t2 = s2 ^ _SECRET_KEY;
    proof {
        lemma_xor_nonneg(s1, _SECRET_KEY);
        lemma_xor_nonneg(s2, _SECRET_KEY);
    }
    if uid & 1 == 0 {
        proof {
            lemma_xor_nonneg(t1, t2);
        }
        t1 = t1 ^ t2;
    } else {
        proof {
            lemma_xor_nonneg(t2, t1);
        }
        t2 = t2 ^ t1;
    }
    let seg1 = string_to_uppercase(to_string_radix_signed(s1, 36).as_str());
    let seg2 = string_reverse(string_to_lowercase(to_string_radix_signed(s2, 36).as_str()).as_str());
    let seg3 = string_to_uppercase(to_string_radix_signed(t2, 36).as_str());
    let seg4 = string_reverse(string_to_uppercase(to_string_radix_signed(t1, 36).as_str()).as_str());
    let mut r = seg1;
    r.append(seg2.as_str());
    r.append(seg3.as_str());
    r.append(seg4.as_str());
    proof {
        assert(r@ =~= spec_user_secret(s1, s2, uid));
    }
    r
}

/// Serialize the timestamp secret into the timestamp segment of a token.
pub fn serialize_secret_timestamp(id: i64, secret: i64) -> (r: String)
    requires
        secret >= 0,
    ensures
        r@ == spec_timestamp_segment(id, secret),
{
    proof {
        assert(vstd::arithmetic::power::pow(20, 16) > i64::MAX as int) by {
            reveal_with_fuel(vstd::arithmetic::power::pow, 17);
        }
        lemma_chars_le_len(secret as nat, 20, 16);
    }
    let base = to_string_radix_signed(secret, 20);
    let len = base.as_str().unicode_len();
    let mut r = String::new();
    let mut i: usize = 0;
    while i < len
        invariant
            i <= len,
            len == base@.len(),
            len <= 16,
            base@ == spec_radix_str(secret as nat, 20),
            r@ =~= spec_timestamp_segment(id, secret).take(i as int),
        decreases len - i,
    {
        let c = base.as_str().get_char(i);
        let bit: u64 = ((id as u64) >> (i as u64)) & 1;
        let folded = if bit == 1 {
            crate::utils::convectors::lower_char_exec(c)
        } else {
            crate::utils::convectors::upper_char_exec(c)
        };
        push_char(&mut r, folded);
        proof {
            let seg = spec_timestamp_segment(id, secret);
            assert(seg[i as int] == folded);
            assert(seg.take(i + 1) =~= seg.take(i as int).push(seg[i as int]));
        }
        i = i + 1;
    }
    proof {
        assert(spec_timestamp_segment(id, secret).take(len as int) =~= spec_timestamp_segment(
            id,
            secret,
        ));
    }
    r
}

/// The decimal rendering of a signed value.
fn i64_to_dec_string(v: i64) -> (r: String)
    ensures
        r@ == spec_dec_str(v),
{
    if v >= 0 {
        to_string_radix_unsigned(v as u64, 10)
    } else {
        let mag: u64 = ((-(v + 1)) as u64) + 1;
        proof {
            assert(mag == -(v as int));
        }
        let mut r = String::new();
        push_char(&mut r, '-');
        r.append(to_string_radix_unsigned(mag, 10).as_str());
        proof {
            assert(r@ =~= spec_dec_str(v));
        }
        r
    }
}

/// The decimal renderings are ASCII, so their bytes are their characters.
proof fn lemma_dec_str_ascii(v: i64)
    ensures
        vstd::utf8::is_ascii_chars(spec_dec_str(v)),
{
    let s = spec_dec_str(v);
    if v < 0 {
        lemma_radix_str_chars((-(v as int)) as nat, 10);
        assert forall|i: int| 0 <= i < s.len() implies '\0' <= #[trigger] s[i] <= '\u{7f}' by {
            if i == 0 {
                assert(s[0] == '-');
            } else {
                assert(s[i] == spec_radix_str((-(v as int)) as nat, 10)[i - 1]);
                assert(is_radix_char(s[i]));
            }
        }
    } else {
        lemma_radix_str_chars(v as nat, 10);
        assert forall|i: int| 0 <= i < s.len() implies '\0' <= #[trigger] s[i] <= '\u{7f}' by {
            assert(is_radix_char(s[i]));
        }
    }
}

/// Serialize a full token from the identifier and its two pre-rendered
/// segments.
pub fn serialize_user_token(id: i64, timestamp: String, secret: String) -> (r: String)
    ensures
        r@ == spec_user_token(id, timestamp@, secret@),
{
    broadcast use vstd::string::is_ascii_spec_bytes;

    let dec = i64_to_dec_string(id);
    let dec_str = dec.as_str();
    let bytes = dec_str.as_bytes();
    proof {
        lemma_dec_str_ascii(id);
        assert(dec_str@ == spec_dec_str(id));
        assert(vstd::string::is_ascii(dec_str));
        assert(dec_str.spec_bytes() =~= Seq::new(dec_str@.len(), |i: int| dec_str@[i] as u8));
        assert(bytes@ =~= ascii_bytes(spec_dec_str(id)));
    }
    let encoded = b64url_encode(bytes);
    proof {
        assert(encoded@ == base64url_of(ascii_bytes(spec_dec_str(id))));
    }
    let mut r = encoded;
    push_char(&mut r, '.');
    r.append(timestamp.as_str());
    push_char(&mut r, '.');
    r.append(secret.as_str());
    proof {
        assert(r@ =~= spec_user_token(id, timestamp@, secret@));
    }
    r
}

/// Serialize the full token for an identifier and its secret triple.
pub fn serialize_token(id: i64, s1: i64, s2: i64, s3: i64) -> (r: String)
    requires
        s1 >= 0,
        s2 >= 0,
        s3 >= 0,
    ensures
        r@ == spec_token(id, s1, s2, s3),
{
    serialize_user_token(
        id,
        serialize_secret_timestamp(id, s3),
        serialize_user_secret(s1, s2, id),
    )
}

/// Recompute the token for the given identifier and secret triple and
/// compare it, in full, with the presented token.
pub fn verify_user_token(token: &str, id: i64, s1: i64, s2: i64, s3: i64) -> (ok: bool)
    requires
        s1 >= 0,
        s2 >= 0,
        s3 >= 0,
    ensures
        ok == (token@ == spec_token(id, s1, s2, s3)),
{
    let expected = serialize_token(id, s1, s2, s3);
    let presented = token.to_owned();
    presented == expected
}

/// A presented token verifies exactly when it equals the recomputed
/// token in length and in every position: mutating any single character
/// of a valid token, or truncating or extending it, makes verification
/// fail.
pub proof fn lemma_token_mutation(id: i64, s1: i64, s2: i64, s3: i64, t: Seq<char>)
    ensures
        (t == spec_token(id, s1, s2, s3)) <==> (t.len() == spec_token(id, s1, s2, s3).len()
            && (forall|i: int| 0 <= i < t.len() ==> t[i] == spec_token(id, s1, s2, s3)[i])),
{
    let tok = spec_token(id, s1, s2, s3);
    if t.len() == tok.len() && (forall|i: int| 0 <= i < t.len() ==> t[i] == tok[i]) {
        assert(t =~= tok);
    }
}

/// Distinct timestamp secrets give distinct timestamp segments: the
/// base-20 rendering determines the value, and the per-position case
/// fold keeps distinct digit characters distinct.
proof fn lemma_timestamp_segment_injective(id: i64, s3a: i64, s3b: i64)
    requires
        s3a >= 0,
        s3b >= 0,
        s3a != s3b,
    ensures
        spec_timestamp_segment(id, s3a) != spec_timestamp_segment(id, s3b),
{
    let ba = spec_radix_str(s3a as nat, 20);
    let bb = spec_radix_str(s3b as nat, 20);
    let tsa = spec_timestamp_segment(id, s3a);
    let tsb = spec_timestamp_segment(id, s3b);
    crate::utils::convectors::lemma_radix_str_injective(s3a as nat, s3b as nat, 20);
    if ba.len() == bb.len() {
        let j = choose|j: int| 0 <= j < ba.len() && ba[j] != bb[j];
        assert(exists|j: int| 0 <= j < ba.len() && ba[j] != bb[j]) by {
            if forall|j: int| 0 <= j < ba.len() ==> ba[j] == bb[j] {
                assert(ba =~= bb);
            }
        }
        lemma_radix_str_chars(s3a as nat, 20);
        lemma_radix_str_chars(s3b as nat, 20);
        crate::utils::convectors::lemma_case_fold_injective(ba[j], bb[j]);
        assert(tsa[j] != tsb[j]);
    } else {
        assert(tsa.len() != tsb.len());
    }
}

/// The secret segment pins the token: two tokens with the same
/// identifier and timestamp segment but different secret segments always
/// differ.
pub proof fn lemma_token_distinct_secret_segment(
    id: i64,
    ts: Seq<char>,
    sa: Seq<char>,
    sb: Seq<char>,
)
    requires
        sa != sb,
    ensures
        spec_user_token(id, ts, sa) != spec_user_token(id, ts, sb),
{
    let head = base64url_of(ascii_bytes(spec_dec_str(id)));
    let ta = spec_user_token(id, ts, sa);
    let tb = spec_user_token(id, ts, sb);
    if sa.len() == sb.len() {
        let j = choose|j: int| 0 <= j < sa.len() && sa[j] != sb[j];
        assert(exists|j: int| 0 <= j < sa.len() && sa[j] != sb[j]) by {
            if forall|j: int| 0 <= j < sa.len() ==> sa[j] == sb[j] {
                assert(sa =~= sb);
            }
        }
        let p = head.len() + 1 + ts.len() + 1 + j;
        assert(ta[p] == sa[j]);
        assert(tb[p] == sb[j]);
    } else {
        assert(ta.len() != tb.len());
    }
}

/// Changing the timestamp secret alone changes the token: two tokens for
/// the same identifier and random secrets but different timestamp
/// secrets always differ.
pub proof fn lemma_token_distinct_secret3(id: i64, s1: i64, s2: i64, s3a: i64, s3b: i64)
    requires
        s3a >= 0,
        s3b >= 0,
        s3a != s3b,
    ensures
        spec_token(id, s1, s2, s3a) != spec_token(id, s1, s2, s3b),
{
    let head = base64url_of(ascii_bytes(spec_dec_str(id)));
    let sec = spec_user_secret(s1, s2, id);
    let tsa = spec_timestamp_segment(id, s3a);
    let tsb = spec_timestamp_segment(id, s3b);
    let ta = spec_token(id, s1, s2, s3a);
    let tb = spec_token(id, s1, s2, s3b);
    lemma_timestamp_segment_injective(id, s3a, s3b);
    if tsa.len() == tsb.len() {
        let j = choose|j: int| 0 <= j < tsa.len() && tsa[j] != tsb[j];
        assert(exists|j: int| 0 <= j < tsa.len() && tsa[j] != tsb[j]) by {
            if forall|j: int| 0 <= j < tsa.len() ==> tsa[j] == tsb[j] {
                assert(tsa =~= tsb);
            }
        }
        let p = head.len() + 1 + j;
        assert(ta[p] == tsa[j]);
        assert(tb[p] == tsb[j]);
    } else {
        assert(ta.len() != tb.len());
    }
}

/// Generate a fresh secret triple: two random values and the current
/// time, each reduced into the nonnegative signed 63-bit range.
pub fn generate_user_secrets(now_ms: u64) -> (r: (i64, i64, i64))
    ensures
        0 <= r.0 < i64::MAX,
        0 <= r.1 < i64::MAX,
        r.2 == now_ms as int % 0x7FFF_FFFF_FFFF_FFFF,
{
    let a: u64 = rand::random::<u64>();
    let b: u64 = rand::random::<u64>();
    let s1 = (a % 0x7FFF_FFFF_FFFF_FFFF) as i64;
    let s2 = (b % 0x7FFF_FFFF_FFFF_FFFF) as i64;
    let s3 = (now_ms % 0x7FFF_FFFF_FFFF_FFFF) as i64;
    (s1, s2, s3)
}

/// A user's stored secret triple, from which bearer tokens are derived.
pub struct Secret {
    /// The owning user's ID.
    pub id: Snowflake,
    /// The owning user's password hash.
    pub password_hash: String,
    /// The first random secret.
    pub secret1: i64,
    /// The second random secret.
    pub secret2: i64,
    /// The creation timestamp secret.
    pub secret3: i64,
}

impl Secret {
    /// The secret triple every operation keeps: all three values
    /// nonnegative.
    pub open spec fn wf(&self) -> bool {
        self.secret1 >= 0 && self.secret2 >= 0 && self.secret3 >= 0
    }

    /// Serializes the secret segment of the user's token.
    pub fn secret(&self) -> (r: String)
        requires
            self.wf(),
        ensures
            r@ == spec_user_secret(self.secret1, self.secret2, self.id.0),
    {
        serialize_user_secret(self.secret1, self.secret2, self.id.0)
    }

    /// Serializes the timestamp segment of the user's token.
    pub fn secret_timestamp(&self) -> (r: String)
        requires
            self.wf(),
        ensures
            r@ == spec_timestamp_segment(self.id.0, self.secret3),
    {
        serialize_secret_timestamp(self.id.0, self.secret3)
    }

    /// Serializes the user's token.
    pub fn token(&self) -> (r: String)
        requires
            self.wf(),
        ensures
            r@ == spec_token(self.id.0, self.secret1, self.secret2, self.secret3),
    {
        serialize_user_token(self.id.0, self.secret_timestamp(), self.secret())
    }

    /// A copy of this record with a freshly generated secret triple;
    /// every token issued for the old triple stops verifying.
    pub fn rotated(&self, now_ms: u64) -> (r: Secret)
        ensures
            r.wf(),
            r.id == self.id,
            r.password_hash@ == self.password_hash@,
    {
        let secrets = generate_user_secrets(now_ms);
        Secret {
            id: self.id,
            password_hash: self.password_hash.clone(),
            secret1: secrets.0,
            secret2: secrets.1,
            secret3: secrets.2,
        }
    }
}

impl Clone for Secret {
    fn clone(&self) -> (res: Self)
        ensures
            res == *self,
    {
        Secret {
            id: self.id,
            password_hash: self.password_hash.clone(),
            secret1: self.secret1,
            secret2: self.secret2,
            secret3: self.secret3,
        }
    }
}

} // verus!
