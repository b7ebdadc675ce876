use base64::Engine;
use hydroottawa_api::auth::{
    answer_challenge, begin, parse_challenge, parse_tokens, receive_tokens, step, Action,
    AuthConfig, AuthState, AuthenticationResult, ChallengeParameters, ChallengeReply, Event,
    HoAuth, TokenReply,
};
use hydroottawa_api::error::{ChallengeField, Error, HttpFailure, SrpFailure};
use hydroottawa_api::http::{Body, Entry, HttpRequest, Method};
use hydroottawa_api::srp::{generate_auth_parameters, verify};
use num_bigint::BigUint;
use sha2::{Digest, Sha256};

const PRIME_HEX: &str = "FFFFFFFFFFFFFFFFC90FDAA22168C234C4C6628B80DC1CD129024E088A67CC74\
020BBEA63B139B22514A08798E3404DDEF9519B3CD3A431B302B0A6DF25F1437\
4FE1356D6D51C245E485B576625E7EC6F44C42E9A637ED6B0BFF5CB6F406B7ED\
EE386BFB5A899FA5AE9F24117C4B1FE649286651ECE45B3DC2007CB8A163BF05\
98DA48361C55D39A69163FA8FD24CF5F83655D23DCA3AD961C62F356208552BB\
9ED529077096966D670C354E4ABC9804F1746C08CA18217C32905E462E36CE3B\
E39E772C180E86039B2783A2EC07A28FB5C55DF06F4C52C9DE2BCBF695581718\
3995497CEA956AE515D2261898FA051015728E5A8AAAC42DAD33170D04507A33\
A85521ABDF1CBA64ECFB850458DBEF0A8AEA71575D060C7DB3970F85A6E1E4C7\
ABF5AE8CDB0933D71E8C94E04A25619DCEE3D2261AD2EE6BF12FFA06D98A0864\
D87602733EC86A64521F2B18177B200CBBE117577A615D6C770988C0BAD946E2\
08E24FA074E5AB3143DB5BFCE0FD108E4B82D120A93AD2CAFFFFFFFFFFFFFFFF";

const POOL_NAME: &str = "VYnwOhMBK";
const SECRET_BLOCK: &str = "c2VjcmV0LWJsb2NrLWZvci10aGUtdGVzdA==";

fn prime() -> BigUint {
    BigUint::parse_bytes(PRIME_HEX.as_bytes(), 16).unwrap()
}

fn sha256(parts: &[&[u8]]) -> Vec<u8> {
    let mut all: Vec<u8> = Vec::new();
    for p in parts {
        all.extend_from_slice(p);
    }
    Sha256::digest(&all).to_vec()
}

fn hmac_sha256(key: &[u8], message: &[u8]) -> Vec<u8> {
    let mut block = [0u8; 64];
    if key.len() > 64 {
        block[..32].copy_from_slice(&sha256(&[key]));
    } else {
        block[..key.len()].copy_from_slice(key);
    }
    let inner_key: Vec<u8> = block.iter().map(|b| b ^ 0x36).collect();
    let outer_key: Vec<u8> = block.iter().map(|b| b ^ 0x5c).collect();
    let inner = sha256(&[&inner_key, message]);
    sha256(&[&outer_key, &inner])
}

fn pad(bytes: &[u8]) -> Vec<u8> {
    if bytes.is_empty() || bytes[0] < 128 {
        bytes.to_vec()
    } else {
        let mut out = vec![0u8];
        out.extend_from_slice(bytes);
        out
    }
}

fn to_hex(bytes: &[u8]) -> String {
    let mut out = String::new();
    for b in bytes {
        out.push_str(&format!("{:02x}", b));
    }
    out
}

/// An identity provider that knows one user, and keeps the verifier of the
/// password rather than the password.
struct Provider {
    user: String,
    salt: Vec<u8>,
    verifier: BigUint,
    secret: BigUint,
    client_public: Option<BigUint>,
}

impl Provider {
    fn new(user: &str, password: &str) -> Provider {
        let salt: Vec<u8> = (1u8..=16).collect();
        let identity = sha256(&[
            POOL_NAME.as_bytes(),
            user.as_bytes(),
            b":",
            password.as_bytes(),
        ]);
        let x = BigUint::from_bytes_be(&sha256(&[&pad(&salt), &identity]));
        let verifier = BigUint::from(2u8).modpow(&x, &prime());
        let secret = BigUint::from_bytes_be(&sha256(&[b"the server's private value"]));
        Provider { user: user.to_string(), salt, verifier, secret, client_public: None }
    }

    fn multiplier() -> BigUint {
        BigUint::from_bytes_be(&sha256(&[&[0u8], &prime().to_bytes_be(), &[2u8]]))
    }

    fn public(&self) -> BigUint {
        let n = prime();
        (Provider::multiplier() * &self.verifier + BigUint::from(2u8).modpow(&self.secret, &n)) % n
    }

    fn challenge(&mut self, request: &HttpRequest) -> ChallengeReply {
        let body = match &request.body {
            Body::InitiateAuth(b) => b,
            _ => panic!("not an initiate request"),
        };
        assert_eq!(body.auth_flow, "USER_SRP_AUTH");
        let a = value_of(&body.auth_parameters, "SRP_A");
        self.client_public = Some(BigUint::parse_bytes(a.as_bytes(), 16).unwrap());
        ChallengeReply {
            status: 200,
            salt: Some(to_hex(&self.salt)),
            secret_block: Some(SECRET_BLOCK.to_string()),
            srp_b: Some(to_hex(&self.public().to_bytes_be())),
            username: Some(value_of(&body.auth_parameters, "USERNAME")),
            user_id_for_srp: Some(self.user.clone()),
        }
    }

    fn expected_signature(&self, timestamp: &str) -> String {
        let n = prime();
        let a = self.client_public.clone().unwrap();
        let b = self.public();
        let u_bytes = sha256(&[&pad(&a.to_bytes_be()), &pad(&b.to_bytes_be())]);
        let u = BigUint::from_bytes_be(&u_bytes);
        let s = ((a * self.verifier.modpow(&u, &n)) % &n).modpow(&self.secret, &n);
        let prk = hmac_sha256(&pad(&u.to_bytes_be()), &pad(&s.to_bytes_be()));
        let mut info = b"Caldera Derived Key".to_vec();
        info.push(1);
        let key = hmac_sha256(&prk, &info)[..16].to_vec();
        let mut message = Vec::new();
        message.extend_from_slice(POOL_NAME.as_bytes());
        message.extend_from_slice(self.user.as_bytes());
        message.extend_from_slice(
            &base64::engine::general_purpose::STANDARD.decode(SECRET_BLOCK).unwrap(),
        );
        message.extend_from_slice(timestamp.as_bytes());
        base64::engine::general_purpose::STANDARD.encode(hmac_sha256(&key, &message))
    }

    fn accepts(&self, secret_block: &str, timestamp: &str, signature: &str) -> bool {
        secret_block == SECRET_BLOCK && signature == self.expected_signature(timestamp)
    }

    fn tokens(&self, request: &HttpRequest) -> TokenReply {
        let body = match &request.body {
            Body::RespondToAuthChallenge(b) => b,
            _ => panic!("not a respond request"),
        };
        assert_eq!(body.challenge_name, "PASSWORD_VERIFIER");
        let ok = self.accepts(
            &value_of(&body.challenge_responses, "PASSWORD_CLAIM_SECRET_BLOCK"),
            &value_of(&body.challenge_responses, "TIMESTAMP"),
            &value_of(&body.challenge_responses, "PASSWORD_CLAIM_SIGNATURE"),
        );
        if ok {
            TokenReply {
                status: 200,
                access_token: Some("access-token-of-alice".to_string()),
                id_token: Some("id-token-of-alice".to_string()),
            }
        } else {
            TokenReply { status: 400, access_token: None, id_token: None }
        }
    }
}

fn value_of(entries: &[Entry], name: &str) -> String {
    let found: Vec<&Entry> = entries.iter().filter(|e| e.name == name).collect();
    assert_eq!(found.len(), 1);
    found[0].value.clone()
}

fn vendor_header(request: &HttpRequest) -> Vec<u8> {
    let id = value_of(&request.headers, "x-id");
    let access = value_of(&request.headers, "x-access");
    format!("Bearer {}", to_hex(&sha256(&[id.as_bytes(), access.as_bytes()]))).into_bytes()
}

fn run(username: &str, password: &str) -> Result<HoAuth, Error> {
    let config = AuthConfig::hydro_ottawa();
    let mut provider = Provider::new("alice", "correct-pw");
    let (mut state, mut action) = step(
        &config,
        AuthState::Idle,
        Event::Credentials { username: username.to_string(), password: password.to_string() },
    );
    let mut round = 0;
    loop {
        let request = match action {
            Action::Send(request) => request,
            Action::Stop => break,
        };
        let event = match round {
            0 => Event::Challenge(provider.challenge(&request)),
            1 => Event::Tokens(provider.tokens(&request)),
            _ => Event::VendorToken(Some(vendor_header(&request))),
        };
        round += 1;
        let next = step(&config, state, event);
        state = next.0;
        action = next.1;
    }
    match state {
        AuthState::SignedIn(session) => Ok(session),
        AuthState::Failed(e) => Err(e),
        _ => panic!("the handshake stopped half way"),
    }
}

fn complete_reply() -> ChallengeReply {
    ChallengeReply {
        status: 200,
        salt: Some("0a0b".to_string()),
        secret_block: Some(SECRET_BLOCK.to_string()),
        srp_b: Some("1234".to_string()),
        username: Some("alice".to_string()),
        user_id_for_srp: Some("alice".to_string()),
    }
}

fn challenge_with(srp_b: &str) -> ChallengeParameters {
    ChallengeParameters {
        salt: "0a0b".to_string(),
        secret_block: SECRET_BLOCK.to_string(),
        srp_b: srp_b.to_string(),
        username: "alice".to_string(),
        user_id_for_srp: "alice".to_string(),
    }
}

#[test]
fn full_handshake_with_the_right_password_gives_a_session() {
    let session = run("alice", "correct-pw").unwrap();
    assert_eq!(session.id_token, "id-token-of-alice");
    assert_eq!(session.access_token, "access-token-of-alice");
    assert!(!session.jwt_token.is_empty());
    assert_eq!(
        session.jwt_token,
        to_hex(&sha256(&[b"id-token-of-alice", b"access-token-of-alice"]))
    );
}

#[test]
fn full_handshake_with_a_wrong_password_is_rejected() {
    assert!(matches!(run("alice", "wrong-pw"), Err(Error::InvalidCredentials)));
}

#[test]
fn proof_is_accepted_exactly_for_the_stored_password() {
    for (password, expected) in [("correct-pw", true), ("wrong-pw", false), ("", false)] {
        let mut provider = Provider::new("alice", "correct-pw");
        let config = AuthConfig::hydro_ottawa();
        let params = generate_auth_parameters(
            &config.user_pool_id,
            &config.client_id,
            "alice",
            password,
        );
        provider.client_public = Some(BigUint::parse_bytes(params.a().as_bytes(), 16).unwrap());
        let srp_b = to_hex(&provider.public().to_bytes_be());
        let salt = to_hex(&provider.salt);
        let proof = verify(&params, SECRET_BLOCK, "alice", &salt, &srp_b).unwrap();
        assert_eq!(proof.password_claim_secret_block, SECRET_BLOCK);
        assert_eq!(
            provider.accepts(
                &proof.password_claim_secret_block,
                &proof.timestamp,
                &proof.password_claim_signature
            ),
            expected
        );
    }
}

#[test]
fn server_value_zero_is_refused() {
    let params = generate_auth_parameters("ca-central-1_VYnwOhMBK", "client", "alice", "pw");
    for srp_b in ["0", "00", "0000000000", ""] {
        let r = verify(&params, SECRET_BLOCK, "alice", "0a0b", srp_b);
        assert!(matches!(r, Err(Error::InvalidServerValue)), "{srp_b:?}");
    }
}

#[test]
fn server_value_that_is_a_multiple_of_the_prime_is_refused() {
    let params = generate_auth_parameters("ca-central-1_VYnwOhMBK", "client", "alice", "pw");
    let n = prime();
    let twice = &n * BigUint::from(2u8);
    let many = &n * BigUint::parse_bytes(b"123456789abcdef", 16).unwrap();
    for value in [n.clone(), twice, many] {
        let srp_b = to_hex(&value.to_bytes_be());
        let r = verify(&params, SECRET_BLOCK, "alice", "0a0b", &srp_b);
        assert!(matches!(r, Err(Error::InvalidServerValue)));
    }
    let r = verify(&params, SECRET_BLOCK, "alice", "0a0b", PRIME_HEX);
    assert!(matches!(r, Err(Error::InvalidServerValue)));
    let r = verify(&params, SECRET_BLOCK, "alice", "0a0b", &PRIME_HEX.to_lowercase());
    assert!(matches!(r, Err(Error::InvalidServerValue)));
}

#[test]
fn server_value_next_to_a_multiple_of_the_prime_is_used() {
    let params = generate_auth_parameters("ca-central-1_VYnwOhMBK", "client", "alice", "pw");
    let n = prime();
    for value in [&n + BigUint::from(1u8), &n - BigUint::from(1u8), BigUint::from(1u8)] {
        let srp_b = to_hex(&value.to_bytes_be());
        let proof = verify(&params, SECRET_BLOCK, "alice", "0a0b", &srp_b).unwrap();
        assert_eq!(proof.password_claim_secret_block, SECRET_BLOCK);
        assert!(!proof.password_claim_signature.is_empty());
        assert!(!proof.timestamp.is_empty());
    }
}

#[test]
fn server_value_that_is_not_hexadecimal_is_an_invalid_argument() {
    let params = generate_auth_parameters("ca-central-1_VYnwOhMBK", "client", "alice", "pw");
    for srp_b in ["xyz", "12 34", "0x12", "12g4", "é"] {
        let r = verify(&params, SECRET_BLOCK, "alice", "0a0b", srp_b);
        assert!(matches!(r, Err(Error::Srp(SrpFailure::InvalidArgument(_)))), "{srp_b:?}");
    }
}

#[test]
fn malformed_salt_or_secret_block_is_the_engines_failure() {
    let params = generate_auth_parameters("ca-central-1_VYnwOhMBK", "client", "alice", "pw");
    let r = verify(&params, SECRET_BLOCK, "alice", "not hex", "1234");
    assert!(matches!(r, Err(Error::Srp(SrpFailure::InvalidArgument(_)))));
    let r = verify(&params, "not base64 !!", "alice", "0a0b", "1234");
    assert!(matches!(r, Err(Error::Srp(SrpFailure::InvalidArgument(_)))));
}

#[test]
fn pool_without_separator_is_the_engines_failure() {
    let params = generate_auth_parameters("nopool", "client", "alice", "pw");
    let r = verify(&params, SECRET_BLOCK, "alice", "0a0b", "1234");
    assert!(matches!(r, Err(Error::Srp(SrpFailure::InvalidArgument(_)))));
}

#[test]
fn two_attempts_draw_different_public_values() {
    let first = generate_auth_parameters("ca-central-1_VYnwOhMBK", "client", "alice", "pw");
    let second = generate_auth_parameters("ca-central-1_VYnwOhMBK", "client", "alice", "pw");
    assert_ne!(first.a(), second.a());
    assert_eq!(first.username(), "alice");
    assert_eq!(second.username(), "alice");
}

#[test]
fn public_value_is_hexadecimal_and_below_the_prime() {
    let params = generate_auth_parameters("ca-central-1_VYnwOhMBK", "client", "alice", "pw");
    assert!(params.a().len() >= 2);
    assert_eq!(params.a().len() % 2, 0);
    assert!(params.a().chars().all(|c| c.is_ascii_hexdigit()));
    let a = BigUint::parse_bytes(params.a().as_bytes(), 16).unwrap();
    assert!(a < prime());
    assert!(a > BigUint::from(0u8));
}

#[test]
fn begin_builds_the_initiate_request() {
    let config = AuthConfig::hydro_ottawa();
    let (state, action) = begin(&config, "alice", "pw");
    let params = match state {
        AuthState::Initiated(p) => p,
        _ => panic!("not initiated"),
    };
    let request = match action {
        Action::Send(r) => r,
        Action::Stop => panic!("nothing to send"),
    };
    assert_eq!(request.method, Method::Post);
    assert_eq!(request.url, "https://cognito-idp.ca-central-1.amazonaws.com/");
    assert_eq!(request.headers.len(), 2);
    assert_eq!(value_of(&request.headers, "Content-Type"), "application/x-amz-json-1.1");
    assert_eq!(
        value_of(&request.headers, "X-Amz-Target"),
        "AWSCognitoIdentityProviderService.InitiateAuth"
    );
    assert!(request.bearer.is_none());
    let body = match request.body {
        Body::InitiateAuth(b) => b,
        _ => panic!("wrong body"),
    };
    assert_eq!(body.auth_flow, "USER_SRP_AUTH");
    assert_eq!(body.client_id, "7scfcis6ecucktmp4aqi1jk6cb");
    assert_eq!(body.auth_parameters.len(), 2);
    assert_eq!(body.auth_parameters[0].name, "USERNAME");
    assert_eq!(body.auth_parameters[0].value, "alice");
    assert_eq!(body.auth_parameters[1].name, "SRP_A");
    assert_eq!(body.auth_parameters[1].value, params.a());
    assert!(body.client_metadata.is_empty());
}

#[test]
fn answer_builds_the_respond_request() {
    let config = AuthConfig::hydro_ottawa();
    let params = generate_auth_parameters(&config.user_pool_id, &config.client_id, "alice", "pw");
    let mut challenge = challenge_with("1234");
    challenge.username = "alice-on-the-wire".to_string();
    let (state, action) = answer_challenge(&config, params, challenge);
    assert!(matches!(state, AuthState::ChallengeAnswered));
    let request = match action {
        Action::Send(r) => r,
        Action::Stop => panic!("nothing to send"),
    };
    assert_eq!(request.method, Method::Post);
    assert_eq!(request.url, "https://cognito-idp.ca-central-1.amazonaws.com/");
    assert_eq!(
        value_of(&request.headers, "X-Amz-Target"),
        "AWSCognitoIdentityProviderService.RespondToAuthChallenge"
    );
    let body = match request.body {
        Body::RespondToAuthChallenge(b) => b,
        _ => panic!("wrong body"),
    };
    assert_eq!(body.challenge_name, "PASSWORD_VERIFIER");
    assert_eq!(body.client_id, "7scfcis6ecucktmp4aqi1jk6cb");
    let names: Vec<&str> = body.challenge_responses.iter().map(|e| e.name.as_str()).collect();
    assert_eq!(
        names,
        vec!["USERNAME", "PASSWORD_CLAIM_SECRET_BLOCK", "TIMESTAMP", "PASSWORD_CLAIM_SIGNATURE"]
    );
    assert_eq!(body.challenge_responses[0].value, "alice-on-the-wire");
    assert_eq!(body.challenge_responses[1].value, SECRET_BLOCK);
    assert!(body.challenge_responses[2].value.contains(" UTC "));
    assert!(!body.challenge_responses[3].value.is_empty());
    assert!(body.client_metadata.is_empty());
}

#[test]
fn answer_fails_on_a_refused_server_value() {
    let config = AuthConfig::hydro_ottawa();
    let params = generate_auth_parameters(&config.user_pool_id, &config.client_id, "alice", "pw");
    let (state, action) = answer_challenge(&config, params, challenge_with(PRIME_HEX));
    assert!(matches!(state, AuthState::Failed(Error::InvalidServerValue)));
    assert!(matches!(action, Action::Stop));
}

#[test]
fn challenge_with_every_field_is_parsed() {
    let c = parse_challenge(complete_reply()).unwrap();
    assert_eq!(c.salt, "0a0b");
    assert_eq!(c.secret_block, SECRET_BLOCK);
    assert_eq!(c.srp_b, "1234");
    assert_eq!(c.username, "alice");
    assert_eq!(c.user_id_for_srp, "alice");
}

#[test]
fn challenge_without_a_field_is_malformed() {
    let mut r = complete_reply();
    r.salt = None;
    assert!(matches!(parse_challenge(r), Err(Error::MalformedChallenge(ChallengeField::Salt))));
    let mut r = complete_reply();
    r.secret_block = None;
    assert!(matches!(
        parse_challenge(r),
        Err(Error::MalformedChallenge(ChallengeField::SecretBlock))
    ));
    let mut r = complete_reply();
    r.srp_b = None;
    assert!(matches!(parse_challenge(r), Err(Error::MalformedChallenge(ChallengeField::SrpB))));
    let mut r = complete_reply();
    r.username = None;
    assert!(matches!(
        parse_challenge(r),
        Err(Error::MalformedChallenge(ChallengeField::Username))
    ));
    let mut r = complete_reply();
    r.user_id_for_srp = None;
    assert!(matches!(
        parse_challenge(r),
        Err(Error::MalformedChallenge(ChallengeField::UserIdForSrp))
    ));
    let mut r = complete_reply();
    r.salt = None;
    r.srp_b = None;
    assert!(matches!(parse_challenge(r), Err(Error::MalformedChallenge(ChallengeField::Salt))));
}

#[test]
fn challenge_with_a_failure_status_is_an_http_failure() {
    for status in [199u16, 300, 400, 500] {
        let mut r = complete_reply();
        r.status = status;
        r.salt = None;
        match parse_challenge(r) {
            Err(Error::HttpError(HttpFailure::Status(s))) => assert_eq!(s, status),
            _ => panic!("expected a status failure"),
        }
    }
    let mut r = complete_reply();
    r.status = 299;
    assert!(parse_challenge(r).is_ok());
}

#[test]
fn challenge_field_names() {
    assert_eq!(ChallengeField::Salt.name(), "SALT");
    assert_eq!(ChallengeField::SecretBlock.name(), "SECRET_BLOCK");
    assert_eq!(ChallengeField::SrpB.name(), "SRP_B");
    assert_eq!(ChallengeField::Username.name(), "USERNAME");
    assert_eq!(ChallengeField::UserIdForSrp.name(), "USER_ID_FOR_SRP");
}

#[test]
fn tokens_are_parsed_or_the_credentials_rejected() {
    let ok = TokenReply {
        status: 200,
        access_token: Some("acc".to_string()),
        id_token: Some("id".to_string()),
    };
    let t = parse_tokens(ok).unwrap();
    assert_eq!(t.access_token, "acc");
    assert_eq!(t.id_token, "id");
    let rejected = TokenReply {
        status: 400,
        access_token: Some("acc".to_string()),
        id_token: Some("id".to_string()),
    };
    assert!(matches!(parse_tokens(rejected), Err(Error::InvalidCredentials)));
    let no_id = TokenReply { status: 200, access_token: Some("acc".to_string()), id_token: None };
    assert!(matches!(parse_tokens(no_id), Err(Error::InvalidCredentials)));
    let no_access = TokenReply { status: 200, access_token: None, id_token: Some("id".to_string()) };
    assert!(matches!(parse_tokens(no_access), Err(Error::InvalidCredentials)));
}

#[test]
fn tokens_lead_to_the_vendor_request() {
    let config = AuthConfig::hydro_ottawa();
    let reply = TokenReply {
        status: 200,
        access_token: Some("acc".to_string()),
        id_token: Some("id".to_string()),
    };
    let (state, action) = receive_tokens(&config, reply);
    assert!(matches!(state, AuthState::TokensObtained(_)));
    let request = match action {
        Action::Send(r) => r,
        Action::Stop => panic!("nothing to send"),
    };
    assert_eq!(request.method, Method::Get);
    assert_eq!(request.url, "https://api-myaccount.hydroottawa.com/app-token");
    let pairs: Vec<(&str, &str)> =
        request.headers.iter().map(|e| (e.name.as_str(), e.value.as_str())).collect();
    assert_eq!(pairs, vec![("Accept", "application/json"), ("x-id", "id"), ("x-access", "acc")]);
    assert!(request.bearer.is_none());
    assert!(matches!(request.body, Body::Empty));
}

#[test]
fn session_is_whole_or_absent() {
    let tokens = AuthenticationResult { access_token: "acc".to_string(), id_token: "id".to_string() };
    let s = HoAuth::from_exchange(tokens, Some(b"Bearer abc123")).unwrap();
    assert_eq!(s.jwt_token, "abc123");
    assert_eq!(s.id_token, "id");
    assert_eq!(s.access_token, "acc");
    let tokens = AuthenticationResult { access_token: "acc".to_string(), id_token: "id".to_string() };
    assert!(matches!(
        HoAuth::from_exchange(tokens, Some(b"abc123")),
        Err(Error::InvalidTokenFormat(_))
    ));
    let tokens = AuthenticationResult { access_token: "acc".to_string(), id_token: "id".to_string() };
    match HoAuth::from_exchange(tokens, None) {
        Err(Error::MissingHeader(name)) => assert_eq!(name, "x-amzn-remapped-authorization"),
        _ => panic!("expected a missing header"),
    }
}

#[test]
fn transport_failure_fails_a_running_handshake() {
    let config = AuthConfig::hydro_ottawa();
    let (state, _) = begin(&config, "alice", "pw");
    let (state, action) = step(&config, state, Event::TransportFailure("timed out".to_string()));
    match &state {
        AuthState::Failed(Error::HttpError(HttpFailure::Transport(why))) => {
            assert_eq!(why, "timed out")
        }
        _ => panic!("expected a transport failure"),
    }
    assert!(matches!(action, Action::Stop));
    let (state, action) = step(&config, state, Event::Challenge(complete_reply()));
    assert!(matches!(state, AuthState::Failed(Error::HttpError(HttpFailure::Transport(_)))));
    assert!(matches!(action, Action::Stop));
}

#[test]
fn reply_out_of_turn_fails_the_handshake() {
    let config = AuthConfig::hydro_ottawa();
    let (state, action) = step(&config, AuthState::Idle, Event::Challenge(complete_reply()));
    assert!(matches!(state, AuthState::Failed(Error::UnexpectedReply)));
    assert!(matches!(action, Action::Stop));
    let (state, _) = begin(&config, "alice", "pw");
    let (state, _) = step(&config, state, Event::VendorToken(None));
    assert!(matches!(state, AuthState::Failed(Error::UnexpectedReply)));
    let (state, _) = step(
        &config,
        AuthState::ChallengeAnswered,
        Event::Challenge(complete_reply()),
    );
    assert!(matches!(state, AuthState::Failed(Error::UnexpectedReply)));
}

#[test]
fn incomplete_challenge_fails_the_handshake() {
    let config = AuthConfig::hydro_ottawa();
    let (state, _) = begin(&config, "alice", "pw");
    let mut reply = complete_reply();
    reply.secret_block = None;
    let (state, action) = step(&config, state, Event::Challenge(reply));
    assert!(matches!(
        state,
        AuthState::Failed(Error::MalformedChallenge(ChallengeField::SecretBlock))
    ));
    assert!(matches!(action, Action::Stop));
}

#[test]
fn vendor_response_without_the_header_fails_the_handshake() {
    let config = AuthConfig::hydro_ottawa();
    let tokens = AuthenticationResult { access_token: "acc".to_string(), id_token: "id".to_string() };
    let (state, action) =
        step(&config, AuthState::TokensObtained(tokens), Event::VendorToken(None));
    assert!(matches!(state, AuthState::Failed(Error::MissingHeader(_))));
    assert!(matches!(action, Action::Stop));
    let tokens = AuthenticationResult { access_token: "acc".to_string(), id_token: "id".to_string() };
    let (state, _) = step(
        &config,
        AuthState::TokensObtained(tokens),
        Event::VendorToken(Some(b"Bearer tok".to_vec())),
    );
    match state {
        AuthState::SignedIn(s) => assert_eq!(s.jwt_token, "tok"),
        _ => panic!("expected a session"),
    }
}

#[test]
fn unreadable_challenge_fails_by_status_or_as_unread() {
    let config = AuthConfig::hydro_ottawa();
    let (state, _) = begin(&config, "alice", "pw");
    let (state, action) =
        step(&config, state, Event::Unreadable { status: 200, why: "eof".to_string() });
    match state {
        AuthState::Failed(Error::Serialization(why)) => assert_eq!(why, "eof"),
        _ => panic!("expected an unread document"),
    }
    assert!(matches!(action, Action::Stop));
    let (state, _) = begin(&config, "alice", "pw");
    let (state, _) =
        step(&config, state, Event::Unreadable { status: 502, why: "eof".to_string() });
    assert!(matches!(state, AuthState::Failed(Error::HttpError(HttpFailure::Status(502)))));
}

#[test]
fn unreadable_tokens_are_a_rejection_only_by_status() {
    let config = AuthConfig::hydro_ottawa();
    let (state, action) = step(
        &config,
        AuthState::ChallengeAnswered,
        Event::Unreadable { status: 400, why: "eof".to_string() },
    );
    assert!(matches!(state, AuthState::Failed(Error::InvalidCredentials)));
    assert!(matches!(action, Action::Stop));
    let (state, _) = step(
        &config,
        AuthState::ChallengeAnswered,
        Event::Unreadable { status: 200, why: "eof".to_string() },
    );
    assert!(matches!(state, AuthState::Failed(Error::Serialization(_))));
}

#[test]
fn unreadable_reply_out_of_turn_is_unexpected() {
    let config = AuthConfig::hydro_ottawa();
    let (state, _) = step(
        &config,
        AuthState::Idle,
        Event::Unreadable { status: 200, why: "eof".to_string() },
    );
    assert!(matches!(state, AuthState::Failed(Error::UnexpectedReply)));
    let tokens = AuthenticationResult { access_token: "acc".to_string(), id_token: "id".to_string() };
    let (state, _) = step(
        &config,
        AuthState::TokensObtained(tokens),
        Event::Unreadable { status: 200, why: "eof".to_string() },
    );
    assert!(matches!(state, AuthState::Failed(Error::UnexpectedReply)));
}

#[test]
fn proof_is_owed_for_a_challenge_in_order() {
    let config = AuthConfig::hydro_ottawa();
    for (salt, srp_b) in [("0a0b", "1234"), ("", "1"), ("ABCDEF", "0fff"), ("f", "abc")] {
        let params =
            generate_auth_parameters(&config.user_pool_id, &config.client_id, "alice", "pw");
        let proof = verify(&params, SECRET_BLOCK, "alice", salt, srp_b).unwrap();
        assert_eq!(proof.password_claim_secret_block, SECRET_BLOCK);
        assert_eq!(proof.password_claim_signature.len(), 44);
    }
    let params = generate_auth_parameters(&config.user_pool_id, &config.client_id, "alice", "pw");
    assert!(verify(&params, "", "", "", "1").is_ok());
}

#[test]
fn proof_depends_on_the_user_id_and_the_password() {
    let mut provider = Provider::new("alice", "correct-pw");
    let config = AuthConfig::hydro_ottawa();
    let params =
        generate_auth_parameters(&config.user_pool_id, &config.client_id, "alice", "correct-pw");
    provider.client_public = Some(BigUint::parse_bytes(params.a().as_bytes(), 16).unwrap());
    let srp_b = to_hex(&provider.public().to_bytes_be());
    let salt = to_hex(&provider.salt);
    let right = verify(&params, SECRET_BLOCK, "alice", &salt, &srp_b).unwrap();
    assert!(provider.accepts(SECRET_BLOCK, &right.timestamp, &right.password_claim_signature));
    let other = verify(&params, SECRET_BLOCK, &salt, &salt, &srp_b).unwrap();
    assert!(!provider.accepts(SECRET_BLOCK, &other.timestamp, &other.password_claim_signature));
}
