use hydroottawa_api::auth::{receive_challenge, AuthState, ChallengeReply};
use hydroottawa_api::error::{ChallengeField, Error, SrpFailure};
use hydroottawa_api::group::group_prime;
use hydroottawa_api::srp::{
    check_server_value, generate_auth_parameters, proof_from_outcome, scrambling_digest,
    ProofMaterial,
};

const ABC_DIGEST: [u8; 32] = [
    0xba, 0x78, 0x16, 0xbf, 0x8f, 0x01, 0xcf, 0xea, 0x41, 0x41, 0x40, 0xde, 0x5d, 0xae, 0x22,
    0x23, 0xb0, 0x03, 0x61, 0xa3, 0x96, 0x17, 0x7a, 0x9c, 0xb4, 0x10, 0xff, 0x61, 0xf2, 0x00,
    0x15, 0xad,
];

#[test]
fn scrambling_parameter_is_the_digest_of_the_joined_values() {
    assert_eq!(scrambling_digest("61", "6263"), Some(ABC_DIGEST.to_vec()));
    assert_eq!(scrambling_digest("61", "00006263"), Some(ABC_DIGEST.to_vec()));
    assert_eq!(scrambling_digest("61", "06263"), scrambling_digest("61", "006263"));
    assert_ne!(scrambling_digest("0061", "6263"), Some(ABC_DIGEST.to_vec()));
    assert_ne!(scrambling_digest("61", "6264"), Some(ABC_DIGEST.to_vec()));
}

#[test]
fn scrambling_parameter_needs_hexadecimal_values() {
    assert_eq!(scrambling_digest("6g", "6263"), None);
    assert_eq!(scrambling_digest("61", "zz"), None);
}

#[test]
fn zero_scrambling_parameter_is_refused() {
    assert!(matches!(check_server_value(&[5], &[0u8; 32]), Err(Error::InvalidServerValue)));
    assert!(matches!(check_server_value(&[5], &[]), Err(Error::InvalidServerValue)));
    let mut almost = [0u8; 32];
    almost[31] = 1;
    assert!(check_server_value(&[5], &almost).is_ok());
    almost[31] = 0;
    almost[0] = 0x80;
    assert!(check_server_value(&[5], &almost).is_ok());
}

#[test]
fn server_value_zero_modulo_the_prime_is_refused_whatever_it_scrambles_to() {
    let n = group_prime();
    assert!(matches!(check_server_value(&n, &ABC_DIGEST), Err(Error::InvalidServerValue)));
    assert!(matches!(check_server_value(&[0], &ABC_DIGEST), Err(Error::InvalidServerValue)));
    assert!(matches!(check_server_value(&[], &ABC_DIGEST), Err(Error::InvalidServerValue)));
    assert!(check_server_value(&[1], &ABC_DIGEST).is_ok());
}

#[test]
fn engine_outcome_is_handed_on() {
    let proof = ProofMaterial {
        password_claim_secret_block: "block".to_string(),
        password_claim_signature: "sig".to_string(),
        timestamp: "Mon Feb 10 18:30:12 UTC 2025".to_string(),
    };
    let r = proof_from_outcome(Ok(proof)).unwrap();
    assert_eq!(r.password_claim_secret_block, "block");
    assert_eq!(r.password_claim_signature, "sig");
    assert_eq!(r.timestamp, "Mon Feb 10 18:30:12 UTC 2025");
    match proof_from_outcome(Err(SrpFailure::InvalidArgument("bad".to_string()))) {
        Err(Error::Srp(SrpFailure::InvalidArgument(why))) => assert_eq!(why, "bad"),
        _ => panic!("expected the engine's failure"),
    }
    assert!(matches!(
        proof_from_outcome(Err(SrpFailure::Cryptography)),
        Err(Error::Srp(SrpFailure::Cryptography))
    ));
}

#[test]
fn challenge_is_received_beside_the_attempt() {
    let params = generate_auth_parameters("ca-central-1_VYnwOhMBK", "client", "alice", "pw");
    let a = params.a().to_string();
    let reply = ChallengeReply {
        status: 200,
        salt: Some("0a".to_string()),
        secret_block: Some("YmxvY2s=".to_string()),
        srp_b: Some("12".to_string()),
        username: Some("alice".to_string()),
        user_id_for_srp: Some("alice-id".to_string()),
    };
    match receive_challenge(params, reply) {
        AuthState::ChallengeReceived(p, c) => {
            assert_eq!(p.a(), a);
            assert_eq!(c.user_id_for_srp, "alice-id");
            assert_eq!(c.srp_b, "12");
        }
        _ => panic!("expected the challenge"),
    }
    let params = generate_auth_parameters("ca-central-1_VYnwOhMBK", "client", "alice", "pw");
    let reply = ChallengeReply {
        status: 200,
        salt: Some("0a".to_string()),
        secret_block: Some("YmxvY2s=".to_string()),
        srp_b: Some("12".to_string()),
        username: None,
        user_id_for_srp: Some("alice-id".to_string()),
    };
    assert!(matches!(
        receive_challenge(params, reply),
        AuthState::Failed(Error::MalformedChallenge(ChallengeField::Username))
    ));
}
