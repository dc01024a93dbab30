//! URL-safe base64 without padding (RFC 4648, section 5), encoded by the
//! `base64` crate.

use vstd::prelude::*;

verus! {

/// The symbol that stands for the six-bit value `v` in the URL-safe alphabet:
/// `A`-`Z`, `a`-`z`, `0`-`9`, `-`, `_`.
pub open spec fn symbol(v: int) -> char {
    if v < 26 {
        (v + 65) as char
    } else if v < 52 {
        (v + 71) as char
    } else if v < 62 {
        (v - 4) as char
    } else if v == 62 {
        '-'
    } else {
        '_'
    }
}

/// Whether `c` belongs to the URL-safe alphabet.
pub open spec fn is_symbol(c: char) -> bool {
    ||| 'A' <= c <= 'Z'
    ||| 'a' <= c <= 'z'
    ||| '0' <= c <= '9'
    ||| c == '-'
    ||| c == '_'
}

/// The symbols of one group of up to three bytes: four symbols for three
/// bytes, three for two, two for one. Missing low bits are zero and nothing
/// is padded.
pub open spec fn group(bytes: Seq<u8>) -> Seq<char>
    recommends
        1 <= bytes.len() <= 3,
{
    let a = bytes[0] as int;
    if bytes.len() == 1 {
        seq![symbol(a / 4), symbol((a % 4) * 16)]
    } else {
        let b = bytes[1] as int;
        if bytes.len() == 2 {
            seq![symbol(a / 4), symbol((a % 4) * 16 + b / 16), symbol((b % 16) * 4)]
        } else {
            let c = bytes[2] as int;
            seq![
                symbol(a / 4),
                symbol((a % 4) * 16 + b / 16),
                symbol((b % 16) * 4 + c / 64),
                symbol(c % 64),
            ]
        }
    }
}

/// The URL-safe, unpadded base64 text of `bytes`.
pub open spec fn encoding(bytes: Seq<u8>) -> Seq<char>
    decreases bytes.len(),
{
    if bytes.len() == 0 {
        Seq::empty()
    } else if bytes.len() <= 3 {
        group(bytes)
    } else {
        group(bytes.take(3)) + encoding(bytes.skip(3))
    }
}

/// Number of symbols that encode `n` bytes.
pub open spec fn encoded_len(n: nat) -> nat {
    let tail: nat = if n % 3 == 0 {
        0
    } else if n % 3 == 1 {
        2
    } else {
        3
    };
    4 * (n / 3) + tail
}

/// Calls `base64::encode_config` with the configuration
/// `base64::URL_SAFE_NO_PAD`.
///
/// Trusted: the result is the RFC 4648 encoding over the URL-safe alphabet,
/// without padding, as [`encoding`] writes it out. The crate panics when the
/// length of the text would not fit in `usize`; `requires` leaves those
/// inputs out.
#[verifier::external_body]
pub(crate) fn encode_url_no_pad(bytes: &[u8]) -> (text: String)
    requires
        encoded_len(bytes@.len()) <= usize::MAX,
    ensures
        text@ == encoding(bytes@),
{
    base64::encode_config(bytes, base64::URL_SAFE_NO_PAD)
}

/// Every six-bit value has its own symbol of the alphabet.
pub proof fn lemma_symbol_distinct(v: int, w: int)
    requires
        0 <= v < 64,
        0 <= w < 64,
    ensures
        is_symbol(symbol(v)),
        symbol(v) == symbol(w) ==> v == w,
{
}

/// A group has one symbol more than it has bytes, all of the alphabet.
pub proof fn lemma_group_shape(bytes: Seq<u8>)
    requires
        1 <= bytes.len() <= 3,
    ensures
        group(bytes).len() == bytes.len() + 1,
        forall|i: int| 0 <= i < group(bytes).len() ==> is_symbol(#[trigger] group(bytes)[i]),
{
    let a = bytes[0] as int;
    lemma_symbol_distinct(a / 4, 0);
    if bytes.len() == 1 {
        lemma_symbol_distinct((a % 4) * 16, 0);
    } else {
        let b = bytes[1] as int;
        lemma_symbol_distinct((a % 4) * 16 + b / 16, 0);
        if bytes.len() == 2 {
            lemma_symbol_distinct((b % 16) * 4, 0);
        } else {
            let c = bytes[2] as int;
            lemma_symbol_distinct((b % 16) * 4 + c / 64, 0);
            lemma_symbol_distinct(c % 64, 0);
        }
    }
}

/// Groups of equal size with equal symbols hold equal bytes.
pub proof fn lemma_group_injective(x: Seq<u8>, y: Seq<u8>)
    requires
        1 <= x.len() <= 3,
        x.len() == y.len(),
        group(x) == group(y),
    ensures
        x == y,
{
    let a = x[0] as int;
    let p = y[0] as int;
    assert(group(x)[0] == group(y)[0]);
    assert(group(x)[1] == group(y)[1]);
    lemma_symbol_distinct(a / 4, p / 4);
    if x.len() == 1 {
        lemma_symbol_distinct((a % 4) * 16, (p % 4) * 16);
    } else {
        let b = x[1] as int;
        let q = y[1] as int;
        assert(group(x)[2] == group(y)[2]);
        lemma_symbol_distinct((a % 4) * 16 + b / 16, (p % 4) * 16 + q / 16);
        if x.len() == 2 {
            lemma_symbol_distinct((b % 16) * 4, (q % 16) * 4);
        } else {
            let c = x[2] as int;
            let r = y[2] as int;
            assert(group(x)[3] == group(y)[3]);
            lemma_symbol_distinct((b % 16) * 4 + c / 64, (q % 16) * 4 + r / 64);
            lemma_symbol_distinct(c % 64, r % 64);
        }
    }
    assert(x =~= y);
}

/// The text of `n` bytes has `encoded_len(n)` symbols, and nothing but
/// symbols of the alphabet.
pub proof fn lemma_encoding_shape(bytes: Seq<u8>)
    ensures
        encoding(bytes).len() == encoded_len(bytes.len()),
        forall|i: int| 0 <= i < encoding(bytes).len() ==> is_symbol(#[trigger] encoding(bytes)[i]),
    decreases bytes.len(),
{
    if bytes.len() == 0 {
    } else if bytes.len() <= 3 {
        lemma_group_shape(bytes);
    } else {
        lemma_group_shape(bytes.take(3));
        lemma_encoding_shape(bytes.skip(3));
    }
}

/// Inputs of different lengths have texts of different lengths.
pub proof fn lemma_encoded_len_injective(n: nat, m: nat)
    requires
        encoded_len(n) == encoded_len(m),
    ensures
        n == m,
{
}

/// Base64 loses nothing: two byte strings with the same text are the same.
pub proof fn lemma_encoding_injective(x: Seq<u8>, y: Seq<u8>)
    requires
        encoding(x) == encoding(y),
    ensures
        x == y,
    decreases x.len(),
{
    lemma_encoding_shape(x);
    lemma_encoding_shape(y);
    lemma_encoded_len_injective(x.len(), y.len());
    if x.len() == 0 {
        assert(x =~= y);
    } else if x.len() <= 3 {
        lemma_group_injective(x, y);
    } else {
        let gx = group(x.take(3));
        let gy = group(y.take(3));
        lemma_group_shape(x.take(3));
        lemma_group_shape(y.take(3));
        assert(gx =~= encoding(x).take(4));
        assert(gy =~= encoding(y).take(4));
        assert(encoding(x.skip(3)) =~= encoding(x).skip(4));
        assert(encoding(y.skip(3)) =~= encoding(y).skip(4));
        lemma_group_injective(x.take(3), y.take(3));
        lemma_encoding_injective(x.skip(3), y.skip(3));
        assert(x =~= x.take(3) + x.skip(3));
        assert(y =~= y.take(3) + y.skip(3));
    }
}

} // verus!
