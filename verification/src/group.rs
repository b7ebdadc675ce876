//! The group that the identity provider fixes for the password proof
//! exchange: a 3072-bit safe prime, with generator 2.

use vstd::prelude::*;
use vstd::string::StringExecFns;
use crate::bytes::{
    be_value, hex_decode, hex_decoded, hex_digit_value, is_hex, lemma_zero_value_all_zero,
};

verus! {

/// The first of the twelve rows of the prime's hexadecimal digits.
pub open spec fn prime_row_first() -> Seq<char> {
    "FFFFFFFFFFFFFFFFC90FDAA22168C234C4C6628B80DC1CD129024E088A67CC74"@
}

/// The prime as one hexadecimal text of 768 digits.
pub open spec fn prime_digits() -> Seq<char> {
    prime_row_first()
        + "020BBEA63B139B22514A08798E3404DDEF9519B3CD3A431B302B0A6DF25F1437"@
        + "4FE1356D6D51C245E485B576625E7EC6F44C42E9A637ED6B0BFF5CB6F406B7ED"@
        + "EE386BFB5A899FA5AE9F24117C4B1FE649286651ECE45B3DC2007CB8A163BF05"@
        + "98DA48361C55D39A69163FA8FD24CF5F83655D23DCA3AD961C62F356208552BB"@
        + "9ED529077096966D670C354E4ABC9804F1746C08CA18217C32905E462E36CE3B"@
        + "E39E772C180E86039B2783A2EC07A28FB5C55DF06F4C52C9DE2BCBF695581718"@
        + "3995497CEA956AE515D2261898FA051015728E5A8AAAC42DAD33170D04507A33"@
        + "A85521ABDF1CBA64ECFB850458DBEF0A8AEA71575D060C7DB3970F85A6E1E4C7"@
        + "ABF5AE8CDB0933D71E8C94E04A25619DCEE3D2261AD2EE6BF12FFA06D98A0864"@
        + "D87602733EC86A64521F2B18177B200CBBE117577A615D6C770988C0BAD946E2"@
        + "08E24FA074E5AB3143DB5BFCE0FD108E4B82D120A93AD2CAFFFFFFFFFFFFFFFF"@
}

/// The prime as big-endian bytes.
pub open spec fn prime_bytes() -> Seq<u8> {
    hex_decoded(prime_digits())
}

/// The prime.
pub open spec fn prime() -> nat {
    be_value(prime_bytes())
}

/// Two hexadecimal texts in a row are a hexadecimal text.
proof fn lemma_is_hex_concat(a: Seq<char>, b: Seq<char>)
    requires
        is_hex(a),
        is_hex(b),
    ensures
        is_hex(a + b),
{
    assert forall|i: int| 0 <= i < (a + b).len() implies (#[trigger] hex_digit_value(
        (a + b)[i],
    )) is Some by {
        if i < a.len() {
            assert(hex_digit_value(a[i]) is Some);
        } else {
            assert(hex_digit_value(b[i - a.len()]) is Some);
        }
    }
}

/// The digits of the prime are 768 hexadecimal digits, the first two `FF`.
pub proof fn lemma_prime_digits()
    ensures
        is_hex(prime_digits()),
        prime_digits().len() == 768,
        prime_digits()[0] == 'F',
        prime_digits()[1] == 'F',
{
    reveal_strlit("FFFFFFFFFFFFFFFFC90FDAA22168C234C4C6628B80DC1CD129024E088A67CC74");
    reveal_strlit("020BBEA63B139B22514A08798E3404DDEF9519B3CD3A431B302B0A6DF25F1437");
    reveal_strlit("4FE1356D6D51C245E485B576625E7EC6F44C42E9A637ED6B0BFF5CB6F406B7ED");
    reveal_strlit("EE386BFB5A899FA5AE9F24117C4B1FE649286651ECE45B3DC2007CB8A163BF05");
    reveal_strlit("98DA48361C55D39A69163FA8FD24CF5F83655D23DCA3AD961C62F356208552BB");
    reveal_strlit("9ED529077096966D670C354E4ABC9804F1746C08CA18217C32905E462E36CE3B");
    reveal_strlit("E39E772C180E86039B2783A2EC07A28FB5C55DF06F4C52C9DE2BCBF695581718");
    reveal_strlit("3995497CEA956AE515D2261898FA051015728E5A8AAAC42DAD33170D04507A33");
    reveal_strlit("A85521ABDF1CBA64ECFB850458DBEF0A8AEA71575D060C7DB3970F85A6E1E4C7");
    reveal_strlit("ABF5AE8CDB0933D71E8C94E04A25619DCEE3D2261AD2EE6BF12FFA06D98A0864");
    reveal_strlit("D87602733EC86A64521F2B18177B200CBBE117577A615D6C770988C0BAD946E2");
    reveal_strlit("08E24FA074E5AB3143DB5BFCE0FD108E4B82D120A93AD2CAFFFFFFFFFFFFFFFF");
    let row0 = "FFFFFFFFFFFFFFFFC90FDAA22168C234C4C6628B80DC1CD129024E088A67CC74"@;
    let row1 = "020BBEA63B139B22514A08798E3404DDEF9519B3CD3A431B302B0A6DF25F1437"@;
    let row2 = "4FE1356D6D51C245E485B576625E7EC6F44C42E9A637ED6B0BFF5CB6F406B7ED"@;
    let row3 = "EE386BFB5A899FA5AE9F24117C4B1FE649286651ECE45B3DC2007CB8A163BF05"@;
    let row4 = "98DA48361C55D39A69163FA8FD24CF5F83655D23DCA3AD961C62F356208552BB"@;
    let row5 = "9ED529077096966D670C354E4ABC9804F1746C08CA18217C32905E462E36CE3B"@;
    let row6 = "E39E772C180E86039B2783A2EC07A28FB5C55DF06F4C52C9DE2BCBF695581718"@;
    let row7 = "3995497CEA956AE515D2261898FA051015728E5A8AAAC42DAD33170D04507A33"@;
    let row8 = "A85521ABDF1CBA64ECFB850458DBEF0A8AEA71575D060C7DB3970F85A6E1E4C7"@;
    let row9 = "ABF5AE8CDB0933D71E8C94E04A25619DCEE3D2261AD2EE6BF12FFA06D98A0864"@;
    let row10 = "D87602733EC86A64521F2B18177B200CBBE117577A615D6C770988C0BAD946E2"@;
    let row11 = "08E24FA074E5AB3143DB5BFCE0FD108E4B82D120A93AD2CAFFFFFFFFFFFFFFFF"@;
    assert(is_hex(row0));
    assert(is_hex(row1));
    assert(is_hex(row2));
    assert(is_hex(row3));
    assert(is_hex(row4));
    assert(is_hex(row5));
    assert(is_hex(row6));
    assert(is_hex(row7));
    assert(is_hex(row8));
    assert(is_hex(row9));
    assert(is_hex(row10));
    assert(is_hex(row11));
    let upto1 = row0 + row1;
    lemma_is_hex_concat(row0, row1);
    let upto2 = upto1 + row2;
    lemma_is_hex_concat(upto1, row2);
    let upto3 = upto2 + row3;
    lemma_is_hex_concat(upto2, row3);
    let upto4 = upto3 + row4;
    lemma_is_hex_concat(upto3, row4);
    let upto5 = upto4 + row5;
    lemma_is_hex_concat(upto4, row5);
    let upto6 = upto5 + row6;
    lemma_is_hex_concat(upto5, row6);
    let upto7 = upto6 + row7;
    lemma_is_hex_concat(upto6, row7);
    let upto8 = upto7 + row8;
    lemma_is_hex_concat(upto7, row8);
    let upto9 = upto8 + row9;
    lemma_is_hex_concat(upto8, row9);
    let upto10 = upto9 + row10;
    lemma_is_hex_concat(upto9, row10);
    let upto11 = upto10 + row11;
    lemma_is_hex_concat(upto10, row11);
    assert(prime_digits() == upto11);
}

/// The prime is not zero.
pub proof fn lemma_prime_nonzero()
    ensures
        prime() != 0,
{
    lemma_prime_digits();
    let bytes = prime_bytes();
    assert(bytes[0] == 255u8);
    if be_value(bytes) == 0 {
        lemma_zero_value_all_zero(bytes);
        assert(bytes[0] == 0);
    }
}

/// The prime's big-endian bytes.
pub fn group_prime() -> (r: Vec<u8>)
    ensures
        r@ == prime_bytes(),
{
    let mut digits = String::from_str("FFFFFFFFFFFFFFFFC90FDAA22168C234C4C6628B80DC1CD129024E088A67CC74");
    digits.append("020BBEA63B139B22514A08798E3404DDEF9519B3CD3A431B302B0A6DF25F1437");
    digits.append("4FE1356D6D51C245E485B576625E7EC6F44C42E9A637ED6B0BFF5CB6F406B7ED");
    digits.append("EE386BFB5A899FA5AE9F24117C4B1FE649286651ECE45B3DC2007CB8A163BF05");
    digits.append("98DA48361C55D39A69163FA8FD24CF5F83655D23DCA3AD961C62F356208552BB");
    digits.append("9ED529077096966D670C354E4ABC9804F1746C08CA18217C32905E462E36CE3B");
    digits.append("E39E772C180E86039B2783A2EC07A28FB5C55DF06F4C52C9DE2BCBF695581718");
    digits.append("3995497CEA956AE515D2261898FA051015728E5A8AAAC42DAD33170D04507A33");
    digits.append("A85521ABDF1CBA64ECFB850458DBEF0A8AEA71575D060C7DB3970F85A6E1E4C7");
    digits.append("ABF5AE8CDB0933D71E8C94E04A25619DCEE3D2261AD2EE6BF12FFA06D98A0864");
    digits.append("D87602733EC86A64521F2B18177B200CBBE117577A615D6C770988C0BAD946E2");
    digits.append("08E24FA074E5AB3143DB5BFCE0FD108E4B82D120A93AD2CAFFFFFFFFFFFFFFFF");
    proof {
        lemma_prime_digits();
    }
    hex_decode(digits.as_str()).unwrap()
}

} // verus!
