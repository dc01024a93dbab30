//! Token derivation: what is hashed, and how the digest becomes text.

use crate::base64url::encode_url_no_pad;
use crate::base64url::encoding;
use crate::base64url::is_symbol;
use crate::base64url::lemma_encoding_injective;
use crate::base64url::lemma_encoding_shape;
use crate::digest::sha256;
use crate::digest::sha256_digest;
use crate::digest::DIGEST_LEN;
use vstd::prelude::*;
use vstd::string::StringExecFns;
use vstd::utf8::encode_utf8;
use vstd::utf8::encode_utf8_decode_utf8;

verus! {

/// Number of characters of every token: the base64 text of 32 bytes.
pub const TOKEN_LEN: usize = 43;

/// The text that is hashed for a secret and a timestamp: the secret, `!!`,
/// the timestamp, `##`, and the secret once more.
pub open spec fn material(secret: Seq<char>, timestamp: Seq<char>) -> Seq<char> {
    secret + "!!"@ + timestamp + "##"@ + secret
}

/// The bytes that are hashed: the UTF-8 encoding of [`material`].
pub open spec fn material_bytes(secret: Seq<char>, timestamp: Seq<char>) -> Seq<u8> {
    encode_utf8(material(secret, timestamp))
}

/// The digest behind the token of a secret and a timestamp.
pub open spec fn token_digest(secret: Seq<char>, timestamp: Seq<char>) -> Seq<u8> {
    sha256(material_bytes(secret, timestamp))
}

/// The token of a secret and a timestamp: the URL-safe unpadded base64 text of
/// the SHA-256 digest of [`material_bytes`].
pub open spec fn derive_token(secret: Seq<char>, timestamp: Seq<char>) -> Seq<char> {
    encoding(token_digest(secret, timestamp))
}

/// Assembles the text that is hashed.
pub fn token_material(secret: &str, timestamp: &str) -> (text: String)
    ensures
        text@ == material(secret@, timestamp@),
{
    let mut text = String::from_str(secret);
    text.append("!!");
    text.append(timestamp);
    text.append("##");
    text.append(secret);
    text
}

/// Turns a digest into the text of a token.
pub fn token_from_digest(digest: &[u8; DIGEST_LEN]) -> (token: String)
    ensures
        token@ == encoding(digest@),
        token@.len() == TOKEN_LEN,
        forall|i: int| 0 <= i < token@.len() ==> is_symbol(#[trigger] token@[i]),
{
    proof {
        lemma_encoding_shape(digest@);
    }
    encode_url_no_pad(digest.as_slice())
}

/// Derives the token of `secret` and `timestamp`.
pub fn token_for(secret: &str, timestamp: &str) -> (token: String)
    ensures
        token@ == derive_token(secret@, timestamp@),
        token@.len() == TOKEN_LEN,
        forall|i: int| 0 <= i < token@.len() ==> is_symbol(#[trigger] token@[i]),
{
    let text = token_material(secret, timestamp);
    let digest = sha256_digest(text.as_str().as_bytes());
    token_from_digest(&digest)
}

/// Derivation is a function of its inputs: the same secret and the same
/// timestamp always give the same token.
pub proof fn lemma_token_deterministic(
    secret1: Seq<char>,
    timestamp1: Seq<char>,
    secret2: Seq<char>,
    timestamp2: Seq<char>,
)
    requires
        secret1 == secret2,
        timestamp1 == timestamp2,
    ensures
        derive_token(secret1, timestamp1) == derive_token(secret2, timestamp2),
{
}

/// Two tokens are equal exactly when the digests behind them are equal: the
/// text of a token loses nothing of the digest.
pub proof fn lemma_token_equal_iff_digest_equal(
    secret1: Seq<char>,
    timestamp1: Seq<char>,
    secret2: Seq<char>,
    timestamp2: Seq<char>,
)
    ensures
        derive_token(secret1, timestamp1) == derive_token(secret2, timestamp2) <==> token_digest(
            secret1,
            timestamp1,
        ) == token_digest(secret2, timestamp2),
{
    if derive_token(secret1, timestamp1) == derive_token(secret2, timestamp2) {
        lemma_encoding_injective(
            token_digest(secret1, timestamp1),
            token_digest(secret2, timestamp2),
        );
    }
}

/// Where two requests differ in the secret alone or in the timestamp alone,
/// different texts are hashed for them. Where they differ in both, the texts
/// can coincide: the separators may also occur inside a secret or a
/// timestamp.
pub proof fn lemma_material_separates(
    secret1: Seq<char>,
    timestamp1: Seq<char>,
    secret2: Seq<char>,
    timestamp2: Seq<char>,
)
    requires
        secret1 == secret2 || timestamp1 == timestamp2,
        secret1 != secret2 || timestamp1 != timestamp2,
    ensures
        material(secret1, timestamp1) != material(secret2, timestamp2),
{
    let m1 = material(secret1, timestamp1);
    let m2 = material(secret2, timestamp2);
    reveal_strlit("!!");
    reveal_strlit("##");
    if m1 == m2 {
        assert(m1.len() == 2 * secret1.len() + 4 + timestamp1.len());
        assert(m2.len() == 2 * secret2.len() + 4 + timestamp2.len());
        let n = secret1.len() as int;
        let k = timestamp1.len() as int;
        assert(secret1 =~= m1.subrange(0, n));
        assert(secret2 =~= m2.subrange(0, n));
        assert(timestamp1 =~= m1.subrange(n + 2, n + 2 + k));
        assert(timestamp2 =~= m2.subrange(n + 2, n + 2 + k));
    }
}

/// Requests for which different texts are hashed have different tokens,
/// unless SHA-256 gives one digest to the two: different bytes are hashed for
/// them, and equal tokens mean equal digests.
pub proof fn lemma_other_material_other_token(
    secret1: Seq<char>,
    timestamp1: Seq<char>,
    secret2: Seq<char>,
    timestamp2: Seq<char>,
)
    requires
        material(secret1, timestamp1) != material(secret2, timestamp2),
    ensures
        material_bytes(secret1, timestamp1) != material_bytes(secret2, timestamp2),
        derive_token(secret1, timestamp1) != derive_token(secret2, timestamp2) || token_digest(
            secret1,
            timestamp1,
        ) == token_digest(secret2, timestamp2),
{
    encode_utf8_decode_utf8(material(secret1, timestamp1));
    encode_utf8_decode_utf8(material(secret2, timestamp2));
    lemma_token_equal_iff_digest_equal(secret1, timestamp1, secret2, timestamp2);
}

} // verus!
