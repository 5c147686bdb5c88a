//! Base58 in the alphabet that Solana writes its keys in: the text of a byte
//! string, how long it can get, and that byte strings of one length have
//! different texts.

use vstd::prelude::*;
use vstd::utf8::is_ascii_chars;

verus! {

/// The base58 symbol of a digit: digits, upper case and lower case letters in
/// this order, without `0`, `O`, `I` and `l`.
pub open spec fn base58_symbol(n: int) -> char {
    if n < 9 {
        ('1' as int + n) as char
    } else if n < 17 {
        ('A' as int + n - 9) as char
    } else if n < 22 {
        ('J' as int + n - 17) as char
    } else if n < 33 {
        ('P' as int + n - 22) as char
    } else if n < 44 {
        ('a' as int + n - 33) as char
    } else {
        ('m' as int + n - 44) as char
    }
}

/// Whether `c` is one of the 58 symbols.
pub open spec fn is_base58_symbol(c: char) -> bool {
    exists|n: int| 0 <= n < 58 && #[trigger] base58_symbol(n) == c
}

/// The number that `bytes` write in base 256, most significant byte first.
pub open spec fn big_endian(bytes: Seq<u8>) -> nat
    decreases bytes.len(),
{
    if bytes.len() == 0 {
        0
    } else {
        big_endian(bytes.drop_last()) * 256 + bytes.last() as nat
    }
}

/// The shortest base58 numeral of `n`; zero has none.
pub open spec fn base58_numeral(n: nat) -> Seq<char>
    decreases n,
{
    if n == 0 {
        Seq::empty()
    } else {
        base58_numeral(n / 58).push(base58_symbol((n % 58) as int))
    }
}

/// The number of zero bytes at the front of `bytes`.
pub open spec fn leading_zeros(bytes: Seq<u8>) -> nat
    decreases bytes.len(),
{
    if bytes.len() > 0 && bytes[0] == 0 {
        1 + leading_zeros(bytes.drop_first())
    } else {
        0
    }
}

/// The base58 text of `bytes`: a `1` for every leading zero byte, and then the
/// numeral of the number that the bytes write.
pub open spec fn base58_text(bytes: Seq<u8>) -> Seq<char> {
    Seq::new(leading_zeros(bytes), |i: int| '1') + base58_numeral(big_endian(bytes))
}

proof fn lemma_symbol_injective(m: int, n: int)
    requires
        0 <= m < 58,
        0 <= n < 58,
        base58_symbol(m) == base58_symbol(n),
    ensures
        m == n,
{
    assert(base58_symbol(m) as int == base58_symbol(n) as int);
}

proof fn lemma_numeral_injective(m: nat, n: nat)
    requires
        base58_numeral(m) == base58_numeral(n),
    ensures
        m == n,
    decreases m,
{
    let s = base58_numeral(m);
    let t = base58_numeral(n);
    if m > 0 && n > 0 {
        assert(s.last() == t.last());
        lemma_symbol_injective((m % 58) as int, (n % 58) as int);
        assert(s.drop_last() =~= base58_numeral(m / 58));
        assert(t.drop_last() =~= base58_numeral(n / 58));
        lemma_numeral_injective(m / 58, n / 58);
    } else {
        assert(m > 0 ==> s.len() > 0);
        assert(n > 0 ==> t.len() > 0);
    }
}

/// A numeral does not start with the symbol of zero.
proof fn lemma_numeral_first(n: nat)
    requires
        n > 0,
    ensures
        base58_numeral(n).len() > 0,
        base58_numeral(n)[0] != '1',
    decreases n,
{
    if n / 58 > 0 {
        lemma_numeral_first(n / 58);
    } else {
        assert(base58_numeral(n / 58) =~= Seq::<char>::empty());
        if base58_symbol(n as int) == '1' {
            lemma_symbol_injective(n as int, 0);
        }
    }
}

proof fn lemma_numeral_len_monotone(m: nat, n: nat)
    requires
        m <= n,
    ensures
        base58_numeral(m).len() <= base58_numeral(n).len(),
    decreases n,
{
    if m > 0 {
        lemma_numeral_len_monotone(m / 58, n / 58);
    }
}

/// A byte takes at most two symbols.
proof fn lemma_numeral_len(bytes: Seq<u8>)
    ensures
        base58_numeral(big_endian(bytes)).len() <= 2 * bytes.len(),
    decreases bytes.len(),
{
    if bytes.len() > 0 {
        let n = big_endian(bytes);
        let rest = big_endian(bytes.drop_last());
        lemma_numeral_len(bytes.drop_last());
        assert(n / 58 / 58 <= rest);
        lemma_numeral_len_monotone(n / 58 / 58, rest);
        assert(base58_numeral(n).len() <= base58_numeral(n / 58).len() + 1);
        assert(base58_numeral(n / 58).len() <= base58_numeral(n / 58 / 58).len() + 1);
    }
}

proof fn lemma_leading_zeros(bytes: Seq<u8>)
    ensures
        leading_zeros(bytes) <= bytes.len(),
    decreases bytes.len(),
{
    if bytes.len() > 0 && bytes[0] == 0 {
        lemma_leading_zeros(bytes.drop_first());
    }
}

/// The base58 text of a byte string has at most three characters per byte.
pub proof fn law_base58_length(bytes: Seq<u8>)
    ensures
        base58_text(bytes).len() <= 3 * bytes.len(),
{
    lemma_leading_zeros(bytes);
    lemma_numeral_len(bytes);
}

proof fn lemma_numeral_symbols(n: nat)
    ensures
        forall|i: int|
            0 <= i < base58_numeral(n).len() ==> is_base58_symbol(#[trigger] base58_numeral(n)[i]),
    decreases n,
{
    if n > 0 {
        lemma_numeral_symbols(n / 58);
        let s = base58_numeral(n);
        let head = base58_numeral(n / 58);
        assert(is_base58_symbol(base58_symbol((n % 58) as int)));
        assert forall|i: int| 0 <= i < s.len() implies is_base58_symbol(#[trigger] s[i]) by {
            if i < head.len() {
                assert(s[i] == head[i]);
            }
        }
    }
}

/// A base58 text is made of base58 symbols.
pub proof fn law_base58_symbols(bytes: Seq<u8>)
    ensures
        forall|i: int|
            0 <= i < base58_text(bytes).len() ==> is_base58_symbol(
                #[trigger] base58_text(bytes)[i],
            ),
{
    let n = big_endian(bytes);
    let zeros = leading_zeros(bytes);
    let s = base58_text(bytes);
    lemma_numeral_symbols(n);
    assert(base58_symbol(0) == '1');
    assert forall|i: int| 0 <= i < s.len() implies is_base58_symbol(#[trigger] s[i]) by {
        if i >= zeros {
            assert(s[i] == base58_numeral(n)[i - zeros]);
        }
    }
}

/// A base58 text is plain ASCII.
pub proof fn law_base58_ascii(bytes: Seq<u8>)
    ensures
        is_ascii_chars(base58_text(bytes)),
{
    law_base58_symbols(bytes);
    let s = base58_text(bytes);
    assert forall|i: int| 0 <= i < s.len() implies '\0' <= #[trigger] s[i] <= '\u{7f}' by {
        assert(is_base58_symbol(s[i]));
        let n = choose|n: int| 0 <= n < 58 && #[trigger] base58_symbol(n) == s[i];
        assert(base58_symbol(n) as int <= 127);
    }
}

proof fn lemma_big_endian_injective(a: Seq<u8>, b: Seq<u8>)
    requires
        a.len() == b.len(),
        big_endian(a) == big_endian(b),
    ensures
        a == b,
    decreases a.len(),
{
    if a.len() > 0 {
        lemma_big_endian_injective(a.drop_last(), b.drop_last());
        assert(a =~= a.drop_last().push(a.last()));
        assert(b =~= b.drop_last().push(b.last()));
    } else {
        assert(a =~= b);
    }
}

/// Byte strings of one length have different base58 texts.
pub proof fn law_base58_injective(a: Seq<u8>, b: Seq<u8>)
    requires
        a.len() == b.len(),
        base58_text(a) == base58_text(b),
    ensures
        a == b,
{
    let s = base58_text(a);
    let t = base58_text(b);
    let m = leading_zeros(a);
    let n = leading_zeros(b);
    if big_endian(a) > 0 {
        lemma_numeral_first(big_endian(a));
    }
    if big_endian(b) > 0 {
        lemma_numeral_first(big_endian(b));
    }
    if m < n {
        assert(t[m as int] == '1');
        assert(s[m as int] == base58_numeral(big_endian(a))[0]);
        assert(false);
    }
    if n < m {
        assert(s[n as int] == '1');
        assert(t[n as int] == base58_numeral(big_endian(b))[0]);
        assert(false);
    }
    assert(base58_numeral(big_endian(a)) =~= s.skip(m as int));
    assert(base58_numeral(big_endian(b)) =~= t.skip(n as int));
    lemma_numeral_injective(big_endian(a), big_endian(b));
    lemma_big_endian_injective(a, b);
}

} // verus!
