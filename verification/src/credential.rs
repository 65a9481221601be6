//! The signed bearer credential: an HMAC-SHA-384 tag over a claims string.
//!
//! A credential reads `tag.issued_at.expiration.subject`: the tag is the
//! URL-safe base64 of the HMAC over everything after the first separator,
//! and is always 64 characters, so the claims part starts at a fixed
//! offset and the subject may contain any character, separators included.
//! Issuing states exactly what decoding recovers: the subject is the
//! identity the credential was issued for, and the expiration is the
//! issuance time plus the fixed TTL.

use vstd::prelude::*;

use crate::crypto::{b64url_encode, b64url_of, hmac_sha384, hmac_sha384_of, is_b64url_char};
use crate::decimal::{
    dec_rep,
    dec_val,
    is_dec_digit,
    lemma_dec_rep_digits,
    lemma_dec_val_dec_rep,
    parse_dec_u64,
    u64_to_string,
};

verus! {

/// How long a credential stays valid, in seconds.
pub const CREDENTIAL_TTL_SECONDS: u64 = 3600;

/// The claims a credential carries.
pub struct Claims {
    /// The local identity the credential was issued for.
    pub subject: String,
    /// Seconds since the epoch when the credential was issued.
    pub issued_at: u64,
    /// Seconds since the epoch when the credential lapses.
    pub expiration: u64,
}

/// The mathematical value of a claims set.
pub struct ClaimsView {
    pub subject: Seq<char>,
    pub issued_at: u64,
    pub expiration: u64,
}

impl View for Claims {
    type V = ClaimsView;

    open spec fn view(&self) -> ClaimsView {
        ClaimsView {
            subject: self.subject@,
            issued_at: self.issued_at,
            expiration: self.expiration,
        }
    }
}

/// The signed part of a credential: issuance time, expiration and subject,
/// separated by dots. Only the subject may itself contain a dot, and it
/// comes last, so the layout is unambiguous.
pub open spec fn claims_part_spec(c: ClaimsView) -> Seq<char> {
    dec_rep(c.issued_at as nat) + seq!['.'] + dec_rep(c.expiration as nat) + seq!['.'] + c.subject
}

/// A whole credential: the 64-character tag over the claims part, a dot,
/// the claims part.
pub open spec fn signed_token_spec(c: ClaimsView, key: Seq<u8>) -> Seq<char> {
    b64url_of(hmac_sha384_of(key, claims_part_spec(c))) + seq!['.'] + claims_part_spec(c)
}

/// The position of the first dot at or after `from`; the length when
/// there is none.
pub open spec fn next_dot(t: Seq<char>, from: int) -> int
    decreases t.len() - from,
{
    if from < 0 || from >= t.len() {
        t.len() as int
    } else if t[from] == '.' {
        from
    } else {
        next_dot(t, from + 1)
    }
}

/// `next_dot` is the position with no dot before it and a dot at it
/// (unless it is the length).
pub proof fn lemma_next_dot_is(t: Seq<char>, from: int, k: int)
    requires
        0 <= from <= k <= t.len(),
        forall|i: int| from <= i < k ==> t[i] != '.',
        k < t.len() ==> t[k] == '.',
    ensures
        next_dot(t, from) == k,
    decreases t.len() - from,
{
    if from < t.len() && t[from] != '.' {
        lemma_next_dot_is(t, from + 1, k);
    }
}

/// A non-empty all-digit string whose value fits in a `u64`.
pub open spec fn dec_parses(s: Seq<char>) -> bool {
    s.len() > 0 && (forall|i: int| 0 <= i < s.len() ==> is_dec_digit(#[trigger] s[i])) && dec_val(
        s,
    ) <= u64::MAX
}

/// What decoding a candidate credential against a key yields: the claims,
/// exactly when the candidate has the credential layout, its numeric
/// fields parse, and its tag is the one the key gives its claims part.
pub open spec fn decode_spec(t: Seq<char>, key: Seq<u8>) -> Option<ClaimsView> {
    if t.len() < 65 || t[64] != '.' {
        None
    } else {
        let i2 = next_dot(t, 65);
        let i3 = next_dot(t, i2 + 1);
        if i2 >= t.len() || i3 >= t.len() {
            None
        } else {
            let issued_str = t.subrange(65, i2);
            let exp_str = t.subrange(i2 + 1, i3);
            let subject = t.subrange(i3 + 1, t.len() as int);
            if !dec_parses(issued_str) || !dec_parses(exp_str) {
                None
            } else if t.subrange(0, 64) != b64url_of(
                hmac_sha384_of(key, t.subrange(65, t.len() as int)),
            ) {
                None
            } else {
                Some(
                    ClaimsView {
                        subject,
                        issued_at: dec_val(issued_str) as u64,
                        expiration: dec_val(exp_str) as u64,
                    },
                )
            }
        }
    }
}

/// The claims for an identity at an issuance time: the expiration is the
/// issuance time plus the fixed TTL.
pub fn build_claims(subject: &str, now: u64) -> (c: Claims)
    requires
        now <= u64::MAX - CREDENTIAL_TTL_SECONDS,
    ensures
        c.subject@ == subject@,
        c.issued_at == now,
        c.expiration == now + CREDENTIAL_TTL_SECONDS,
{
    Claims { subject: subject.to_owned(), issued_at: now, expiration: now + CREDENTIAL_TTL_SECONDS }
}

/// Render the signed part of a credential.
fn encode_claims(c: &Claims) -> (s: String)
    ensures
        s@ == claims_part_spec(c@),
{
    let mut s = u64_to_string(c.issued_at);
    s.append(".");
    let e = u64_to_string(c.expiration);
    s.append(e.as_str());
    s.append(".");
    s.append(c.subject.as_str());
    proof {
        reveal_strlit(".");
        assert(s@ =~= claims_part_spec(c@));
    }
    s
}

/// Sign a claims set.
pub fn sign_claims(c: &Claims, key: &Vec<u8>) -> (t: String)
    ensures
        t@ == signed_token_spec(c@, key@),
        decode_spec(t@, key@) == Some(c@),
{
    let part = encode_claims(c);
    let mac = hmac_sha384(key, part.as_str());
    let mut t = b64url_encode(&mac);
    let ghost tag = t@;
    t.append(".");
    t.append(part.as_str());
    proof {
        reveal_strlit(".");
        assert(t@ =~= signed_token_spec(c@, key@));
        lemma_decode_of_signed(c@, key@, tag, part@, t@);
    }
    t
}

/// Issue a credential for an identity: claims built at `now`, signed with
/// the server-held key. Decoding it with the same key recovers exactly
/// those claims.
pub fn issue_credential(identity_id: &str, now: u64, key: &Vec<u8>) -> (t: String)
    requires
        now <= u64::MAX - CREDENTIAL_TTL_SECONDS,
    ensures
        t@ == signed_token_spec(
            ClaimsView {
                subject: identity_id@,
                issued_at: now,
                expiration: (now + CREDENTIAL_TTL_SECONDS) as u64,
            },
            key@,
        ),
        decode_spec(t@, key@) == Some(
            ClaimsView {
                subject: identity_id@,
                issued_at: now,
                expiration: (now + CREDENTIAL_TTL_SECONDS) as u64,
            },
        ),
{
    let claims = build_claims(identity_id, now);
    sign_claims(&claims, key)
}

/// A signed token decodes to its own claims: the layout is unambiguous
/// because the tag is exactly 64 separator-free characters and the two
/// numeric fields hold digits only.
proof fn lemma_decode_of_signed(c: ClaimsView, key: Seq<u8>, tag: Seq<char>, part: Seq<char>, t: Seq<char>)
    requires
        part == claims_part_spec(c),
        tag == b64url_of(hmac_sha384_of(key, part)),
        tag.len() == 64,
        forall|i: int| 0 <= i < tag.len() ==> is_b64url_char(#[trigger] tag[i]),
        t == tag + seq!['.'] + part,
    ensures
        decode_spec(t, key) == Some(c),
{
    let ia = dec_rep(c.issued_at as nat);
    let ex = dec_rep(c.expiration as nat);
    lemma_dec_rep_digits(c.issued_at as nat);
    lemma_dec_rep_digits(c.expiration as nat);
    lemma_dec_val_dec_rep(c.issued_at as nat);
    lemma_dec_val_dec_rep(c.expiration as nat);
    assert(t.len() == 65 + part.len());
    assert(t[64] == '.');
    let i2: int = 65 + ia.len() as int;
    assert forall|i: int| 65 <= i < i2 implies t[i] != '.' by {
        assert(t[i] == ia[i - 65]);
        assert(is_dec_digit(ia[i - 65]));
    }
    assert(t[i2] == '.');
    lemma_next_dot_is(t, 65, i2);
    let i3: int = i2 + 1 + ex.len() as int;
    assert forall|i: int| i2 + 1 <= i < i3 implies t[i] != '.' by {
        assert(t[i] == ex[i - (i2 + 1)]);
        assert(is_dec_digit(ex[i - (i2 + 1)]));
    }
    assert(t[i3] == '.');
    lemma_next_dot_is(t, i2 + 1, i3);
    assert(t.subrange(65, i2) =~= ia);
    assert(t.subrange(i2 + 1, i3) =~= ex);
    assert(t.subrange(i3 + 1, t.len() as int) =~= c.subject);
    assert(t.subrange(65, t.len() as int) =~= part);
    assert(t.subrange(0, 64) =~= tag);
    assert(dec_parses(ia));
    assert(dec_parses(ex));
}

/// `dec_parses` of a subrange, phrased over the whole string's indices.
proof fn lemma_parse_bridge(t: Seq<char>, from: int, to: int)
    requires
        0 <= from <= to <= t.len(),
    ensures
        dec_parses(t.subrange(from, to)) <==> (from < to && (forall|i: int|
            from <= i < to ==> is_dec_digit(#[trigger] t[i])) && dec_val(t.subrange(from, to))
            <= u64::MAX),
{
    let sub = t.subrange(from, to);
    if from < to && (forall|i: int| from <= i < to ==> is_dec_digit(#[trigger] t[i])) {
        assert forall|i: int| 0 <= i < sub.len() implies is_dec_digit(#[trigger] sub[i]) by {
            assert(sub[i] == t[from + i]);
        }
    }
    if dec_parses(sub) {
        assert forall|i: int| from <= i < to implies is_dec_digit(#[trigger] t[i]) by {
            assert(sub[i - from] == t[i]);
        }
    }
}

/// Decode a candidate credential against a key. The result is exactly
/// what `decode_spec` says: claims come back only from a well-formed
/// token whose tag the key reproduces, and they are the token's own
/// fields.
pub fn decode_credential(token: &str, key: &Vec<u8>) -> (r: Option<Claims>)
    ensures
        match r {
            Some(c) => decode_spec(token@, key@) == Some(c@),
            None => decode_spec(token@, key@) is None,
        },
{
    let n = token.unicode_len();
    if n < 65 {
        return None;
    }
    if token.get_char(64) != '.' {
        return None;
    }
    let i2 = find_dot(token, 65, n);
    if i2 == n {
        return None;
    }
    let i3 = find_dot(token, i2 + 1, n);
    if i3 == n {
        return None;
    }
    proof {
        lemma_parse_bridge(token@, 65, i2 as int);
        lemma_parse_bridge(token@, i2 as int + 1, i3 as int);
    }
    let issued = match parse_dec_u64(token, 65, i2) {
        Some(v) => v,
        None => {
            return None;
        },
    };
    let expiration = match parse_dec_u64(token, i2 + 1, i3) {
        Some(v) => v,
        None => {
            return None;
        },
    };
    let claims_part = token.substring_char(65, n);
    let mac = hmac_sha384(key, claims_part);
    let expected_tag = b64url_encode(&mac);
    let tag = token.substring_char(0, 64);
    if !(tag.to_owned() == expected_tag) {
        return None;
    }
    let subject = token.substring_char(i3 + 1, n).to_owned();
    Some(Claims { subject, issued_at: issued, expiration })
}

/// The first dot of `token` at or after `from`, or the length.
fn find_dot(token: &str, from: usize, n: usize) -> (r: usize)
    requires
        n == token@.len(),
        from <= n,
    ensures
        from <= r <= n,
        r == next_dot(token@, from as int),
{
    let mut i = from;
    while i < n
        invariant
            from <= i <= n,
            n == token@.len(),
            next_dot(token@, from as int) == next_dot(token@, i as int),
        decreases n - i,
    {
        if token.get_char(i) == '.' {
            return i;
        }
        i = i + 1;
    }
    i
}

} // verus!
