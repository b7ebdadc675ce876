//! The client's side of the password proof exchange: the public value sent
//! first, the checks on what the server sends back, and the proof of the
//! password.

use vstd::prelude::*;
use aws_cognito_srp::{SrpClient, SrpError, User};
use num_bigint::BigUint;
use sha2::{Digest, Sha256};
use crate::bytes::{
    all_zero, be_value, hex_decode, hex_decoded, is_all_zero, is_hex, minimal, sign_pad,
    sign_padded, to_minimal,
};
use crate::error::{Error, SrpFailure};
use crate::group::{group_prime, lemma_prime_nonzero, prime};

verus! {

/// The proof engine of one attempt: `SrpClient<User>`, with the private value
/// that it drew. The client's type is bounded by a trait that the engine
/// keeps sealed, so it is held here, unread, rather than declared.
#[verifier::external_body]
pub struct SrpEngine {
    client: SrpClient<User>,
}

/// The SHA-256 digest of a byte string.
pub uninterp spec fn sha256_digest(data: Seq<u8>) -> Seq<u8>;

/// The public value of an engine, in hexadecimal: what the engine derives
/// from the private value that it drew when it was made, and so the same for
/// as long as the engine lives.
pub uninterp spec fn engine_public_value(engine: SrpEngine) -> Seq<char>;

/// The pool that an engine was made for, as `<region>_<pool>`.
pub uninterp spec fn engine_pool_id(engine: SrpEngine) -> Seq<char>;

/// The user name that an engine was made with.
pub uninterp spec fn engine_username(engine: SrpEngine) -> Seq<char>;

/// The password that an engine was made with.
pub uninterp spec fn engine_password(engine: SrpEngine) -> Seq<char>;

/// The engine's base64 decoder accepts the secret block.
pub uninterp spec fn secret_block_accepted(secret_block: Seq<char>) -> bool;

/// The signature that an engine gives to a challenge at a time: the keyed
/// hash, in base64, of the pool's name, the user id, the secret block and
/// the timestamp, under the key that the engine derives from its private
/// value, its password, the salt and the server's public value.
pub uninterp spec fn proof_signature(
    engine: SrpEngine,
    secret_block: Seq<char>,
    user_id: Seq<char>,
    salt: Seq<char>,
    srp_b: Seq<char>,
    timestamp: Seq<char>,
) -> Seq<char>;

/// The pool id names a pool after a region: it holds an underscore.
pub open spec fn has_pool_name(pool_id: Seq<char>) -> bool {
    exists|i: int| 0 <= i < pool_id.len() && pool_id[i] == '_'
}

/// The engine proves the password against these: its pool id names a pool,
/// salt and server value are hexadecimal, and the secret block is base64.
pub open spec fn proof_owed(
    engine: SrpEngine,
    secret_block: Seq<char>,
    salt: Seq<char>,
    srp_b: Seq<char>,
) -> bool {
    has_pool_name(engine_pool_id(engine)) && is_hex(salt) && is_hex(srp_b)
        && secret_block_accepted(secret_block)
}

/// `User::new` and `SrpClient::new` of the proof engine, without a client
/// secret: the engine keeps the credentials as they are given, and draws the
/// private value of one attempt, of which nothing is claimed.
#[verifier::external_body]
fn new_engine(pool_id: &str, username: &str, password: &str, client_id: &str) -> (engine:
    SrpEngine)
    ensures
        engine_pool_id(engine) == pool_id@,
        engine_username(engine) == username@,
        engine_password(engine) == password@,
{
    SrpEngine { client: SrpClient::new(User::new(pool_id, username, password), client_id, None) }
}

/// `SrpClient::get_auth_parameters` of the proof engine, of which the public
/// value is kept. It is the engine's public value: the engine derives it from
/// its private value alone. The engine writes the bytes of a number, of which
/// there is at least one, with a hexadecimal encoder, so the text holds
/// hexadecimal digits only, two for each byte.
#[verifier::external_body]
fn public_value(engine: &SrpEngine) -> (a: String)
    ensures
        a@ == engine_public_value(*engine),
        is_hex(a@),
        a@.len() >= 2,
        a@.len() % 2 == 0,
{
    engine.client.get_auth_parameters().a
}

/// `SrpClient::verify` of the proof engine. Whether it succeeds depends on
/// the arguments and the engine's pool id alone: it gives a proof exactly
/// where the pool id names a pool, salt and server value are hexadecimal and
/// the secret block is base64, and otherwise refuses an invalid argument (the
/// keyed hash takes a key of any length, so its setup never fails). Only
/// what the proof holds depends on the clock and the private value: it
/// carries the secret block that was handed in, a timestamp of which nothing
/// is claimed, and the engine's signature for that timestamp.
#[verifier::external_body]
fn password_proof(
    engine: &SrpEngine,
    secret_block: &str,
    user_id: &str,
    salt: &str,
    srp_b: &str,
) -> (r: Result<ProofMaterial, SrpFailure>)
    ensures
        r is Ok <==> (has_pool_name(engine_pool_id(*engine)) && is_hex(salt@) && is_hex(srp_b@)
            && secret_block_accepted(secret_block@)),
        r matches Ok(p) ==> p.password_claim_secret_block@ == secret_block@,
        r matches Ok(p) ==> p.password_claim_signature@ == proof_signature(
            *engine,
            secret_block@,
            user_id@,
            salt@,
            srp_b@,
            p.timestamp@,
        ),
        r matches Err(f) ==> f is InvalidArgument,
{
    match engine.client.verify(secret_block, user_id, salt, srp_b) {
        Ok(p) => Ok(
            ProofMaterial {
                password_claim_secret_block: p.password_claim_secret_block,
                password_claim_signature: p.password_claim_signature,
                timestamp: p.timestamp,
            },
        ),
        Err(SrpError::InvalidArgument(why)) => Err(SrpFailure::InvalidArgument(why)),
        Err(SrpError::CryptographyError(_)) => Err(SrpFailure::Cryptography),
    }
}

/// `Sha256::digest` of the hash library: the result is the SHA-256 digest of
/// the bytes.
#[verifier::external_body]
fn sha256(data: &[u8]) -> (digest: Vec<u8>)
    ensures
        digest@ == sha256_digest(data@),
{
    Sha256::digest(data).to_vec()
}

/// The remainder operator of `BigUint`, between `BigUint::from_bytes_be` and
/// `BigUint::to_bytes_be`: the result stands for the remainder of the first
/// number by the second.
#[verifier::external_body]
fn be_remainder(value: &[u8], modulus: &[u8]) -> (r: Vec<u8>)
    requires
        be_value(modulus@) != 0,
    ensures
        be_value(r@) == be_value(value@) % be_value(modulus@),
{
    (BigUint::from_bytes_be(value) % BigUint::from_bytes_be(modulus)).to_bytes_be()
}

/// What the client holds during one attempt: the engine with the
/// credentials and its private value, and the engine's public value, which
/// goes to the server.
pub struct SrpParameters {
    engine: SrpEngine,
    username: String,
    a: String,
}

/// What answers the server's challenge.
#[derive(Debug)]
pub struct ProofMaterial {
    /// The server's secret block, as it was received.
    pub password_claim_secret_block: String,
    /// The proof that the client knows the password.
    pub password_claim_signature: String,
    /// When the proof was made, in the form the server asks for.
    pub timestamp: String,
}

impl SrpParameters {
    #[verifier::type_invariant]
    spec fn well_formed(&self) -> bool {
        &&& self.username@ == engine_username(self.engine)
        &&& self.a@ == engine_public_value(self.engine)
        &&& is_hex(self.a@)
        &&& self.a@.len() >= 2
        &&& self.a@.len() % 2 == 0
    }

    /// The engine of the attempt.
    pub closed spec fn spec_engine(&self) -> SrpEngine {
        self.engine
    }

    /// The user name as it goes on the wire.
    pub closed spec fn spec_username(&self) -> Seq<char> {
        self.username@
    }

    /// The public value, in hexadecimal.
    pub closed spec fn spec_a(&self) -> Seq<char> {
        self.a@
    }

    /// The user name as it goes on the wire.
    pub fn username(&self) -> (r: &str)
        ensures
            r@ == self.spec_username(),
    {
        self.username.as_str()
    }

    /// The public value, in hexadecimal.
    pub fn a(&self) -> (r: &str)
        ensures
            r@ == self.spec_a(),
            r@ == engine_public_value(self.spec_engine()),
            is_hex(r@),
            r@.len() >= 2,
            r@.len() % 2 == 0,
    {
        proof {
            use_type_invariant(self);
        }
        self.a.as_str()
    }
}

/// The bytes that are hashed into the scrambling parameter: the client's
/// public value, then the server's in its shortest form, each with a zero
/// byte in front where its top bit is set.
pub open spec fn scrambling_input(a_hex: Seq<char>, b_hex: Seq<char>) -> Seq<u8> {
    sign_padded(hex_decoded(a_hex)) + sign_padded(minimal(hex_decoded(b_hex)))
}

/// The scrambling parameter `u`, as the bytes of its digest.
pub open spec fn scrambling_parameter(a_hex: Seq<char>, b_hex: Seq<char>) -> Seq<u8> {
    sha256_digest(scrambling_input(a_hex, b_hex))
}

/// The server's public value is zero modulo the group's prime.
pub open spec fn zero_modulo_prime(b_hex: Seq<char>) -> bool {
    be_value(hex_decoded(b_hex)) % prime() == 0
}

/// The server's public value must be refused: it is zero modulo the prime,
/// or the scrambling parameter that it gives with the client's is zero.
pub open spec fn server_value_refused(a_hex: Seq<char>, b_hex: Seq<char>) -> bool {
    zero_modulo_prime(b_hex) || all_zero(scrambling_parameter(a_hex, b_hex))
}

/// What `verify` returns for each outcome of the engine, once the server's
/// value has passed the checks.
pub open spec fn proof_outcome(outcome: Result<ProofMaterial, SrpFailure>) -> Result<
    ProofMaterial,
    Error,
> {
    match outcome {
        Ok(p) => Ok(p),
        Err(f) => Err(Error::Srp(f)),
    }
}

/// Starts one attempt: makes an engine with the pool id, the user name and
/// the password, which draws a fresh private value, and keeps the engine's
/// public value beside it: hexadecimal text of even length, never empty.
/// The user name goes on the wire as it was given.
pub fn generate_auth_parameters(
    pool_id: &str,
    client_id: &str,
    username: &str,
    password: &str,
) -> (params: SrpParameters)
    ensures
        engine_pool_id(params.spec_engine()) == pool_id@,
        engine_username(params.spec_engine()) == username@,
        engine_password(params.spec_engine()) == password@,
        params.spec_username() == username@,
        params.spec_a() == engine_public_value(params.spec_engine()),
        is_hex(params.spec_a()),
        params.spec_a().len() >= 2,
        params.spec_a().len() % 2 == 0,
{
    let engine = new_engine(pool_id, username, password, client_id);
    let a = public_value(&engine);
    SrpParameters { engine, username: username.to_owned(), a }
}

/// Tells whether a number, given as big-endian bytes, is zero modulo the
/// group's prime.
pub fn is_zero_modulo_prime(value: &[u8]) -> (r: bool)
    ensures
        r == (be_value(value@) % prime() == 0),
{
    let modulus = group_prime();
    proof {
        lemma_prime_nonzero();
    }
    let rest = be_remainder(value, modulus.as_slice());
    let zero = is_all_zero(rest.as_slice());
    proof {
        if zero {
            crate::bytes::lemma_all_zero_value(rest@);
        } else if be_value(rest@) == 0 {
            crate::bytes::lemma_zero_value_all_zero(rest@);
        }
    }
    zero
}

/// Computes the bytes that are hashed into the scrambling parameter.
pub fn scrambling_bytes(a: &[u8], b: &[u8]) -> (r: Vec<u8>)
    ensures
        r@ == sign_padded(a@) + sign_padded(minimal(b@)),
{
    let mut out = sign_pad(a);
    let short = to_minimal(b);
    let tail = sign_pad(short.as_slice());
    out.extend_from_slice(tail.as_slice());
    out
}

/// Maps the engine's outcome to the library's result.
pub fn proof_from_outcome(outcome: Result<ProofMaterial, SrpFailure>) -> (r: Result<
    ProofMaterial,
    Error,
>)
    ensures
        r == proof_outcome(outcome),
{
    match outcome {
        Ok(p) => Ok(p),
        Err(f) => Err(Error::Srp(f)),
    }
}

/// Computes the scrambling parameter of the two public values, where both
/// are hexadecimal.
pub fn scrambling_digest(a_hex: &str, b_hex: &str) -> (r: Option<Vec<u8>>)
    ensures
        r is Some <==> is_hex(a_hex@) && is_hex(b_hex@),
        r matches Some(u) ==> u@ == scrambling_parameter(a_hex@, b_hex@),
{
    let a = match hex_decode(a_hex) {
        Some(a) => a,
        None => {
            return None;
        },
    };
    let b = match hex_decode(b_hex) {
        Some(b) => b,
        None => {
            return None;
        },
    };
    let input = scrambling_bytes(a.as_slice(), b.as_slice());
    Some(sha256(input.as_slice()))
}

/// What is made of the server's public value, given as bytes, and of the
/// scrambling parameter: both must be other than zero, the first modulo the
/// prime.
pub open spec fn server_value_checked(b: Seq<u8>, u: Seq<u8>) -> Result<(), Error> {
    if be_value(b) % prime() == 0 || all_zero(u) {
        Err(Error::InvalidServerValue)
    } else {
        Ok(())
    }
}

/// Checks the server's public value, given as bytes, and the scrambling
/// parameter that it gave.
pub fn check_server_value(b: &[u8], u: &[u8]) -> (r: Result<(), Error>)
    ensures
        r == server_value_checked(b@, u@),
{
    if is_zero_modulo_prime(b) {
        return Err(Error::InvalidServerValue);
    }
    if is_all_zero(u) {
        return Err(Error::InvalidServerValue);
    }
    Ok(())
}

/// What `verify` owes for a challenge: an invalid argument for a server
/// value that is not hexadecimal; an invalid server value for one that is
/// zero modulo the prime or scrambles to zero with the engine's public value;
/// otherwise a proof exactly where the engine owes one, which echoes the
/// secret block and carries the engine's signature for its timestamp, and an
/// invalid argument where the engine owes none.
pub open spec fn verified(
    params: SrpParameters,
    secret_block: Seq<char>,
    user_id: Seq<char>,
    salt: Seq<char>,
    srp_b: Seq<char>,
    r: Result<ProofMaterial, Error>,
) -> bool {
    if !is_hex(srp_b) {
        r matches Err(Error::Srp(SrpFailure::InvalidArgument(_)))
    } else if server_value_refused(params.spec_a(), srp_b) {
        r matches Err(Error::InvalidServerValue)
    } else if proof_owed(params.spec_engine(), secret_block, salt, srp_b) {
        &&& r matches Ok(p)
        &&& p.password_claim_secret_block@ == secret_block
        &&& p.password_claim_signature@ == proof_signature(
            params.spec_engine(),
            secret_block,
            user_id,
            salt,
            srp_b,
            p.timestamp@,
        )
    } else {
        r matches Err(Error::Srp(SrpFailure::InvalidArgument(_)))
    }
}

/// Checks the server's public value and proves the password against the
/// challenge.
///
/// A value that is not hexadecimal is refused as an invalid argument. A value
/// that is zero modulo the prime, or that scrambles to zero with the engine's
/// public value, is refused as an invalid server value, before the engine
/// sees it. Otherwise the engine is handed the challenge as it came, and a
/// proof is owed exactly where its pool id names a pool, the salt is
/// hexadecimal and the secret block is base64.
pub fn verify(
    params: &SrpParameters,
    secret_block: &str,
    user_id_for_srp: &str,
    salt: &str,
    srp_b: &str,
) -> (r: Result<ProofMaterial, Error>)
    ensures
        verified(*params, secret_block@, user_id_for_srp@, salt@, srp_b@, r),
        is_hex(srp_b@) && zero_modulo_prime(srp_b@) ==> r matches Err(Error::InvalidServerValue),
        is_hex(srp_b@) && all_zero(scrambling_parameter(params.spec_a(), srp_b@)) ==> r matches Err(
            Error::InvalidServerValue,
        ),
{
    proof {
        use_type_invariant(params);
    }
    let b = match hex_decode(srp_b) {
        Some(b) => b,
        None => {
            return Err(
                Error::Srp(SrpFailure::InvalidArgument(String::from_str("Invalid SRP_B"))),
            );
        },
    };
    let u = scrambling_digest(params.a.as_str(), srp_b).unwrap();
    match check_server_value(b.as_slice(), u.as_slice()) {
        Ok(()) => {},
        Err(e) => {
            return Err(e);
        },
    }
    proof_from_outcome(
        password_proof(&params.engine, secret_block, user_id_for_srp, salt, srp_b),
    )
}

} // verus!
