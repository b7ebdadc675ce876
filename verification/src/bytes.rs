//! Hexadecimal text and big-endian byte strings, as the password proof
//! exchange carries its numbers.

use vstd::prelude::*;

verus! {

/// The value of a hexadecimal digit, in either case.
pub open spec fn hex_digit_value(c: char) -> Option<u8> {
    if '0' <= c && c <= '9' {
        Some((c as u8 - '0' as u8) as u8)
    } else if 'a' <= c && c <= 'f' {
        Some((c as u8 - 'a' as u8 + 10) as u8)
    } else if 'A' <= c && c <= 'F' {
        Some((c as u8 - 'A' as u8 + 10) as u8)
    } else {
        None
    }
}

/// Every character is a hexadecimal digit.
pub open spec fn is_hex(s: Seq<char>) -> bool {
    forall|i: int| 0 <= i < s.len() ==> (#[trigger] hex_digit_value(s[i])) is Some
}

/// The text with a `0` put in front where its length is odd.
pub open spec fn pad_even(s: Seq<char>) -> Seq<char> {
    if s.len() % 2 == 0 {
        s
    } else {
        seq!['0'] + s
    }
}

/// The byte that two hexadecimal digits spell.
pub open spec fn hex_pair(hi: char, lo: char) -> u8 {
    (hex_digit_value(hi).unwrap() * 16 + hex_digit_value(lo).unwrap()) as u8
}

/// The bytes that a hexadecimal text of even length spells, two digits each.
pub open spec fn hex_bytes(s: Seq<char>) -> Seq<u8> {
    Seq::new((s.len() / 2) as nat, |i: int| hex_pair(s[2 * i], s[2 * i + 1]))
}

/// The bytes that a hexadecimal text of any length spells.
pub open spec fn hex_decoded(s: Seq<char>) -> Seq<u8> {
    hex_bytes(pad_even(s))
}

/// The number that a big-endian byte string stands for.
pub open spec fn be_value(bytes: Seq<u8>) -> nat
    decreases bytes.len(),
{
    if bytes.len() == 0 {
        0
    } else {
        be_value(bytes.drop_last()) * 256 + bytes.last() as nat
    }
}

/// Every byte is zero.
pub open spec fn all_zero(bytes: Seq<u8>) -> bool {
    forall|i: int| 0 <= i < bytes.len() ==> bytes[i] == 0
}

/// How many zero bytes the string starts with.
pub open spec fn leading_zeros(bytes: Seq<u8>) -> nat
    decreases bytes.len(),
{
    if bytes.len() == 0 || bytes[0] != 0 {
        0
    } else {
        1 + leading_zeros(bytes.subrange(1, bytes.len() as int))
    }
}

/// The shortest big-endian byte string of the same number: the leading zero
/// bytes are gone, and zero itself is the single byte `0`.
pub open spec fn minimal(bytes: Seq<u8>) -> Seq<u8> {
    if all_zero(bytes) {
        seq![0u8]
    } else {
        bytes.subrange(leading_zeros(bytes) as int, bytes.len() as int)
    }
}

/// The byte string with a zero byte in front where its first byte has the
/// top bit set, so that it reads as a non-negative two's complement number.
pub open spec fn sign_padded(bytes: Seq<u8>) -> Seq<u8> {
    if bytes.len() == 0 || bytes[0] < 128 {
        bytes
    } else {
        seq![0u8] + bytes
    }
}

/// A zero byte string stands for zero.
pub proof fn lemma_all_zero_value(bytes: Seq<u8>)
    requires
        all_zero(bytes),
    ensures
        be_value(bytes) == 0,
    decreases bytes.len(),
{
    if bytes.len() > 0 {
        lemma_all_zero_value(bytes.drop_last());
    }
}

/// A byte string that stands for zero holds only zero bytes.
pub proof fn lemma_zero_value_all_zero(bytes: Seq<u8>)
    requires
        be_value(bytes) == 0,
    ensures
        all_zero(bytes),
    decreases bytes.len(),
{
    if bytes.len() > 0 {
        lemma_zero_value_all_zero(bytes.drop_last());
        assert forall|i: int| 0 <= i < bytes.len() implies bytes[i] == 0 by {
            if i < bytes.len() - 1 {
                assert(bytes.drop_last()[i] == bytes[i]);
            }
        }
    }
}

/// Reads one hexadecimal digit.
pub fn hex_digit(c: char) -> (r: Option<u8>)
    ensures
        r == hex_digit_value(c),
{
    if '0' <= c && c <= '9' {
        Some(c as u8 - '0' as u8)
    } else if 'a' <= c && c <= 'f' {
        Some(c as u8 - 'a' as u8 + 10)
    } else if 'A' <= c && c <= 'F' {
        Some(c as u8 - 'A' as u8 + 10)
    } else {
        None
    }
}

/// Reads the digits of a text, or finds the first character that is none.
pub fn hex_digits(s: &str) -> (r: Option<Vec<u8>>)
    ensures
        r is Some <==> is_hex(s@),
        r matches Some(d) ==> d@.len() == s@.len() && forall|i: int|
            0 <= i < s@.len() ==> hex_digit_value(s@[i]) == Some(#[trigger] d@[i]),
{
    let n: usize = s.unicode_len();
    let mut out: Vec<u8> = Vec::new();
    let mut i: usize = 0;
    while i < n
        invariant
            n == s@.len(),
            i <= n,
            out@.len() == i,
            forall|j: int| 0 <= j < i ==> hex_digit_value(s@[j]) == Some(#[trigger] out@[j]),
        decreases n - i,
    {
        match hex_digit(s.get_char(i)) {
            Some(v) => {
                out.push(v);
            },
            None => {
                assert(!is_hex(s@)) by {
                    assert(hex_digit_value(s@[i as int]) is None);
                }
                return None;
            },
        }
        i = i + 1;
    }
    proof {
        assert forall|j: int| 0 <= j < s@.len() implies (#[trigger] hex_digit_value(
            s@[j],
        )) is Some by {
            assert(hex_digit_value(s@[j]) == Some(out@[j]));
        }
    }
    Some(out)
}

/// Decodes hexadecimal text into bytes. A text of odd length is read as if a
/// `0` stood in front of it.
pub fn hex_decode(s: &str) -> (r: Option<Vec<u8>>)
    ensures
        r is Some <==> is_hex(s@),
        r matches Some(b) ==> b@ == hex_decoded(s@),
{
    let digits = match hex_digits(s) {
        Some(d) => d,
        None => {
            return None;
        },
    };
    let n: usize = digits.len();
    let odd: usize = n % 2;
    let ghost padded = pad_even(s@);
    let mut out: Vec<u8> = Vec::new();
    let mut k: usize = 0;
    if odd == 1 {
        out.push(digits[0]);
        k = 1;
    }
    proof {
        assert(hex_digit_value('0') == Some(0u8));
    }
    while k < n
        invariant
            n == digits@.len(),
            n == s@.len(),
            odd == n % 2,
            padded == pad_even(s@),
            k <= n,
            (k + odd) % 2 == 0,
            out@.len() == (k + odd) / 2,
            forall|j: int|
                0 <= j < s@.len() ==> hex_digit_value(s@[j]) == Some(#[trigger] digits@[j]),
            forall|j: int|
                0 <= j < out@.len() ==> #[trigger] out@[j] == hex_pair(
                    padded[2 * j],
                    padded[2 * j + 1],
                ),
        decreases n - k,
    {
        let hi: u8 = digits[k];
        let lo: u8 = digits[k + 1];
        proof {
            assert(hex_digit_value(s@[k as int]) == Some(hi));
            assert(hex_digit_value(s@[k + 1]) == Some(lo));
            assert(hi < 16 && lo < 16);
            assert(padded[k + odd] == s@[k as int]);
            assert(padded[k + odd + 1] == s@[k + 1]);
        }
        out.push(hi * 16 + lo);
        k = k + 2;
    }
    proof {
        assert(out@ =~= hex_decoded(s@));
    }
    Some(out)
}

/// Tells whether every byte is zero.
pub fn is_all_zero(bytes: &[u8]) -> (r: bool)
    ensures
        r == all_zero(bytes@),
{
    let mut i: usize = 0;
    while i < bytes.len()
        invariant
            i <= bytes@.len(),
            forall|j: int| 0 <= j < i ==> bytes@[j] == 0,
        decreases bytes@.len() - i,
    {
        if bytes[i] != 0 {
            return false;
        }
        i = i + 1;
    }
    true
}

/// Copies a byte string, with a zero byte in front where the first byte has
/// the top bit set.
pub fn sign_pad(bytes: &[u8]) -> (r: Vec<u8>)
    ensures
        r@ == sign_padded(bytes@),
{
    let mut out: Vec<u8> = Vec::new();
    if bytes.len() > 0 && bytes[0] >= 128 {
        out.push(0);
    }
    let ghost head = out@;
    let mut i: usize = 0;
    while i < bytes.len()
        invariant
            i <= bytes@.len(),
            out@ == head + bytes@.subrange(0, i as int),
        decreases bytes@.len() - i,
    {
        out.push(bytes[i]);
        proof {
            assert(out@ =~= head + bytes@.subrange(0, i + 1));
        }
        i = i + 1;
    }
    proof {
        assert(bytes@.subrange(0, bytes@.len() as int) =~= bytes@);
        assert(out@ =~= sign_padded(bytes@));
    }
    out
}

/// Drops the leading zero bytes; zero itself becomes the single byte `0`.
pub fn to_minimal(bytes: &[u8]) -> (r: Vec<u8>)
    ensures
        r@ == minimal(bytes@),
{
    let n: usize = bytes.len();
    let mut start: usize = 0;
    proof {
        assert(bytes@.subrange(0, n as int) =~= bytes@);
    }
    while start < n && bytes[start] == 0
        invariant
            n == bytes@.len(),
            start <= n,
            forall|j: int| 0 <= j < start ==> bytes@[j] == 0,
            leading_zeros(bytes@) == start + leading_zeros(
                bytes@.subrange(start as int, n as int),
            ),
        decreases n - start,
    {
        proof {
            let rest = bytes@.subrange(start as int, n as int);
            assert(rest[0] == 0);
            assert(rest.subrange(1, rest.len() as int) =~= bytes@.subrange(start + 1, n as int));
        }
        start = start + 1;
    }
    let mut out: Vec<u8> = Vec::new();
    if start == n {
        out.push(0);
        proof {
            assert(out@ =~= seq![0u8]);
        }
        return out;
    }
    proof {
        assert(!all_zero(bytes@));
        assert(bytes@.subrange(start as int, n as int)[0] != 0);
        assert(leading_zeros(bytes@) == start);
    }
    let mut i: usize = start;
    while i < n
        invariant
            n == bytes@.len(),
            start <= i <= n,
            out@ == bytes@.subrange(start as int, i as int),
        decreases n - i,
    {
        out.push(bytes[i]);
        proof {
            assert(out@ =~= bytes@.subrange(start as int, i + 1));
        }
        i = i + 1;
    }
    out
}

} // verus!
