//! Standard base64 (RFC 4648, section 4): the text of a byte string, that a
//! text has at most one byte string, and the calls into the `base64` crate.

use base64::engine::general_purpose;
use base64::Engine;
use vstd::prelude::*;

verus! {

/// The base64 symbol of a six-bit number.
pub open spec fn base64_symbol(n: int) -> char {
    if n < 26 {
        ('A' as int + n) as char
    } else if n < 52 {
        ('a' as int + n - 26) as char
    } else if n < 62 {
        ('0' as int + n - 52) as char
    } else if n == 62 {
        '+'
    } else {
        '/'
    }
}

/// The padded base64 text of `bytes`: every three bytes become four symbols,
/// and a last group of one or two bytes is filled up with `=`.
pub open spec fn base64_text(bytes: Seq<u8>) -> Seq<char>
    decreases bytes.len(),
{
    if bytes.len() == 0 {
        Seq::empty()
    } else if bytes.len() == 1 {
        let b0 = bytes[0] as int;
        seq![base64_symbol(b0 / 4), base64_symbol(b0 % 4 * 16), '=', '=']
    } else if bytes.len() == 2 {
        let b0 = bytes[0] as int;
        let b1 = bytes[1] as int;
        seq![
            base64_symbol(b0 / 4),
            base64_symbol(b0 % 4 * 16 + b1 / 16),
            base64_symbol(b1 % 16 * 4),
            '=',
        ]
    } else {
        let b0 = bytes[0] as int;
        let b1 = bytes[1] as int;
        let b2 = bytes[2] as int;
        seq![
            base64_symbol(b0 / 4),
            base64_symbol(b0 % 4 * 16 + b1 / 16),
            base64_symbol(b1 % 16 * 4 + b2 / 64),
            base64_symbol(b2 % 64),
        ] + base64_text(bytes.skip(3))
    }
}

/// The number of characters in the base64 text of `len` bytes.
pub open spec fn base64_len(len: nat) -> nat {
    (len + 2) / 3 * 4
}

/// The bytes whose base64 text is `text`, where there are any.
pub open spec fn base64_bytes(text: Seq<char>) -> Option<Seq<u8>> {
    if exists|bytes: Seq<u8>| base64_text(bytes) == text {
        Some(choose|bytes: Seq<u8>| base64_text(bytes) == text)
    } else {
        None
    }
}

/// The length of a base64 text depends on the number of bytes alone.
pub proof fn law_base64_length(bytes: Seq<u8>)
    ensures
        base64_text(bytes).len() == base64_len(bytes.len()),
    decreases bytes.len(),
{
    if bytes.len() > 2 {
        law_base64_length(bytes.skip(3));
    }
}

proof fn lemma_symbol_injective(m: int, n: int)
    requires
        0 <= m < 64,
        0 <= n < 64,
        base64_symbol(m) == base64_symbol(n),
    ensures
        m == n,
{
    assert(base64_symbol(m) as int == base64_symbol(n) as int);
}

proof fn lemma_symbol_not_pad(n: int)
    requires
        0 <= n < 64,
    ensures
        base64_symbol(n) != '=',
{
    assert(base64_symbol(n) as int != '=' as int);
}

/// Base64 loses nothing: two byte strings with the same text are equal.
pub proof fn law_base64_injective(a: Seq<u8>, b: Seq<u8>)
    requires
        base64_text(a) == base64_text(b),
    ensures
        a == b,
    decreases a.len(),
{
    let s = base64_text(a);
    let t = base64_text(b);
    law_base64_length(a);
    law_base64_length(b);
    if a.len() > 0 {
        let a0 = a[0] as int;
        let b0 = b[0] as int;
        let a1 = if a.len() > 1 { a[1] as int } else { 0 };
        let b1 = if b.len() > 1 { b[1] as int } else { 0 };
        let a2 = if a.len() > 2 { a[2] as int } else { 0 };
        let b2 = if b.len() > 2 { b[2] as int } else { 0 };
        lemma_symbol_not_pad(a1 % 16 * 4 + a2 / 64);
        lemma_symbol_not_pad(b1 % 16 * 4 + b2 / 64);
        lemma_symbol_not_pad(a2 % 64);
        lemma_symbol_not_pad(b2 % 64);
        assert(s[0] == t[0] && s[1] == t[1] && s[2] == t[2] && s[3] == t[3]);
        lemma_symbol_injective(a0 / 4, b0 / 4);
        lemma_symbol_injective(a0 % 4 * 16 + a1 / 16, b0 % 4 * 16 + b1 / 16);
        assert(a0 == b0);
        if a.len() > 1 {
            lemma_symbol_injective(a1 % 16 * 4 + a2 / 64, b1 % 16 * 4 + b2 / 64);
            assert(a1 == b1);
        }
        if a.len() > 2 {
            lemma_symbol_injective(a2 % 64, b2 % 64);
            assert(a2 == b2);
            assert(base64_text(a.skip(3)) =~= s.skip(4));
            assert(base64_text(b.skip(3)) =~= t.skip(4));
            law_base64_injective(a.skip(3), b.skip(3));
            assert(a =~= seq![a[0], a[1], a[2]] + a.skip(3));
            assert(b =~= seq![b[0], b[1], b[2]] + b.skip(3));
        }
    }
    assert(a =~= b);
}

/// Reading the base64 text of a byte string gives back that byte string.
pub proof fn law_base64_round_trip(bytes: Seq<u8>)
    ensures
        base64_bytes(base64_text(bytes)) == Some(bytes),
{
    let text = base64_text(bytes);
    let found = choose|found: Seq<u8>| base64_text(found) == text;
    law_base64_injective(found, bytes);
}

/// What the `base64` crate says of a text that is not base64.
pub uninterp spec fn base64_error_text(text: Seq<char>) -> Seq<char>;

/// Calls `Engine::encode` of `base64::engine::general_purpose::STANDARD`.
///
/// Trusted: the result is the padded text of the bytes in the standard
/// alphabet. The call panics where the length of that text does not fit in
/// memory, which the precondition rules out.
#[verifier::external_body]
pub(crate) fn base64_encode(bytes: &[u8]) -> (text: String)
    requires
        base64_len(bytes@.len()) <= isize::MAX,
    ensures
        text@ == base64_text(bytes@),
{
    general_purpose::STANDARD.encode(bytes)
}

/// Calls `Engine::decode` of `base64::engine::general_purpose::STANDARD`, and
/// gives the text of its error.
///
/// Trusted: that engine requires canonical padding and refuses stray trailing
/// bits, so it accepts exactly the texts that encoding produces, and gives
/// back the bytes that were encoded. What it says of any other text is named,
/// and not described further.
#[verifier::external_body]
pub(crate) fn base64_decode(text: &str) -> (decoded: Result<Vec<u8>, String>)
    ensures
        match decoded {
            Ok(bytes) => base64_text(bytes@) == text@,
            Err(message) => {
                &&& forall|bytes: Seq<u8>| base64_text(bytes) != text@
                &&& message@ == base64_error_text(text@)
            },
        },
{
    general_purpose::STANDARD.decode(text).map_err(|e| e.to_string())
}

} // verus!
