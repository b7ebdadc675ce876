//! The handshake: the two exchanges with the identity provider, the exchange
//! of its tokens for the vendor's bearer token, and the session at the end.

use vstd::prelude::*;
use vstd::string::StringExecFns;
use crate::bytes::is_hex;
use crate::error::{ChallengeField, Error, HttpFailure, SrpFailure};
use crate::http::{
    entries_view, entry, is_success, joined, spec_is_success, Body, Entry, HttpRequest,
    InitiateAuthRequest, Method, RespondToAuthChallengeRequest,
};
use crate::srp::{
    engine_password, engine_pool_id, engine_public_value, engine_username,
    generate_auth_parameters, proof_owed, proof_signature, server_value_refused, verify, ProofMaterial, SrpParameters,
};
use crate::token::{bearer_token, spec_token_header, token_outcome, TokenOutcome};

verus! {

/// An authenticated session: the three tokens that every later request
/// carries.
#[derive(Debug)]
pub struct HoAuth {
    pub jwt_token: String,
    pub id_token: String,
    pub access_token: String,
}

/// Where and as whom the handshake is made.
#[derive(Debug)]
pub struct AuthConfig {
    /// The vendor's service, without a trailing slash.
    pub api_uri: String,
    /// The identity provider's endpoint.
    pub cognito_endpoint: String,
    /// The application's identifier at the identity provider.
    pub client_id: String,
    /// The user pool, as `<region>_<pool>`.
    pub user_pool_id: String,
}

/// The server's challenge, every field present.
#[derive(Debug)]
pub struct ChallengeParameters {
    pub salt: String,
    pub secret_block: String,
    pub srp_b: String,
    pub username: String,
    pub user_id_for_srp: String,
}

/// The response to "initiate authentication", as far as it could be read.
#[derive(Debug)]
pub struct ChallengeReply {
    pub status: u16,
    pub salt: Option<String>,
    pub secret_block: Option<String>,
    pub srp_b: Option<String>,
    pub username: Option<String>,
    pub user_id_for_srp: Option<String>,
}

/// The identity provider's tokens.
#[derive(Debug)]
pub struct AuthenticationResult {
    pub access_token: String,
    pub id_token: String,
}

/// The response to "respond to challenge", as far as it could be read.
#[derive(Debug)]
pub struct TokenReply {
    pub status: u16,
    pub access_token: Option<String>,
    pub id_token: Option<String>,
}

/// Where a handshake stands.
pub enum AuthState {
    /// Nothing was sent yet.
    Idle,
    /// The first request is out; the challenge is awaited.
    Initiated(SrpParameters),
    /// The challenge is in and complete; the proof is still to be made.
    ChallengeReceived(SrpParameters, ChallengeParameters),
    /// The proof is out; the tokens are awaited.
    ChallengeAnswered,
    /// The identity provider's tokens are in; the vendor's is awaited.
    TokensObtained(AuthenticationResult),
    /// The session is complete.
    SignedIn(HoAuth),
    /// The handshake failed, and stays so.
    Failed(Error),
}

/// What happened outside since the last step.
pub enum Event {
    /// The caller supplies the credentials.
    Credentials { username: String, password: String },
    /// The transport failed: no response came.
    TransportFailure(String),
    /// The response to "initiate authentication".
    Challenge(ChallengeReply),
    /// The response to "respond to challenge".
    Tokens(TokenReply),
    /// A response came whose body could not be read as a document.
    Unreadable { status: u16, why: String },
    /// The bearer header of the vendor's response, if it had one.
    VendorToken(Option<Vec<u8>>),
}

/// What is to be done outside before the next step.
pub enum Action {
    /// Send the request and come back with the response.
    Send(HttpRequest),
    /// Nothing: the handshake is over.
    Stop,
}

impl AuthConfig {
    /// The vendor's deployment.
    pub fn hydro_ottawa() -> (config: AuthConfig)
        ensures
            config.api_uri@ == "https://api-myaccount.hydroottawa.com"@,
            config.cognito_endpoint@ == "https://cognito-idp.ca-central-1.amazonaws.com/"@,
            config.client_id@ == "7scfcis6ecucktmp4aqi1jk6cb"@,
            config.user_pool_id@ == "ca-central-1_VYnwOhMBK"@,
    {
        AuthConfig {
            api_uri: String::from_str("https://api-myaccount.hydroottawa.com"),
            cognito_endpoint: String::from_str("https://cognito-idp.ca-central-1.amazonaws.com/"),
            client_id: String::from_str("7scfcis6ecucktmp4aqi1jk6cb"),
            user_pool_id: String::from_str("ca-central-1_VYnwOhMBK"),
        }
    }
}

/// The headers of a request to the identity provider for one operation.
pub open spec fn provider_headers(target: Seq<char>) -> Seq<(Seq<char>, Seq<char>)> {
    seq![("Content-Type"@, "application/x-amz-json-1.1"@), ("X-Amz-Target"@, target)]
}

/// The request is the "initiate authentication" request for this user name
/// and public value.
pub open spec fn is_initiate_request(
    request: HttpRequest,
    config: AuthConfig,
    username: Seq<char>,
    a: Seq<char>,
) -> bool {
    &&& request.method == Method::Post
    &&& request.url@ == config.cognito_endpoint@
    &&& entries_view(request.headers@) == provider_headers(
        "AWSCognitoIdentityProviderService.InitiateAuth"@,
    )
    &&& request.bearer is None
    &&& request.body matches Body::InitiateAuth(body)
    &&& body.auth_flow@ == "USER_SRP_AUTH"@
    &&& body.client_id@ == config.client_id@
    &&& entries_view(body.auth_parameters@) == seq![("USERNAME"@, username), ("SRP_A"@, a)]
    &&& body.client_metadata@.len() == 0
}

/// The request is the "respond to challenge" request for this user name and
/// this proof.
pub open spec fn is_respond_request(
    request: HttpRequest,
    config: AuthConfig,
    username: Seq<char>,
    secret_block: Seq<char>,
    timestamp: Seq<char>,
    signature: Seq<char>,
) -> bool {
    &&& request.method == Method::Post
    &&& request.url@ == config.cognito_endpoint@
    &&& entries_view(request.headers@) == provider_headers(
        "AWSCognitoIdentityProviderService.RespondToAuthChallenge"@,
    )
    &&& request.bearer is None
    &&& request.body matches Body::RespondToAuthChallenge(body)
    &&& body.challenge_name@ == "PASSWORD_VERIFIER"@
    &&& body.client_id@ == config.client_id@
    &&& entries_view(body.challenge_responses@) == seq![
        ("USERNAME"@, username),
        ("PASSWORD_CLAIM_SECRET_BLOCK"@, secret_block),
        ("TIMESTAMP"@, timestamp),
        ("PASSWORD_CLAIM_SIGNATURE"@, signature),
    ]
    &&& body.client_metadata@.len() == 0
}

/// The request asks the vendor for its bearer token, with the identity
/// provider's two tokens.
pub open spec fn is_vendor_token_request(
    request: HttpRequest,
    config: AuthConfig,
    id_token: Seq<char>,
    access_token: Seq<char>,
) -> bool {
    &&& request.method == Method::Get
    &&& request.url@ == config.api_uri@ + "/app-token"@
    &&& entries_view(request.headers@) == seq![
        ("Accept"@, "application/json"@),
        ("x-id"@, id_token),
        ("x-access"@, access_token),
    ]
    &&& request.bearer is None
    &&& request.body is Empty
}

/// The two headers of a request to the identity provider.
fn provider_header_entries(target: &str) -> (headers: Vec<Entry>)
    ensures
        entries_view(headers@) == provider_headers(target@),
{
    let mut headers: Vec<Entry> = Vec::new();
    headers.push(entry("Content-Type", "application/x-amz-json-1.1"));
    headers.push(entry("X-Amz-Target", target));
    proof {
        assert(entries_view(headers@) =~= provider_headers(target@));
    }
    headers
}

/// Builds the "initiate authentication" request.
pub fn initiate_request(config: &AuthConfig, username: &str, a: &str) -> (request: HttpRequest)
    ensures
        is_initiate_request(request, *config, username@, a@),
{
    let mut auth_parameters: Vec<Entry> = Vec::new();
    auth_parameters.push(entry("USERNAME", username));
    auth_parameters.push(entry("SRP_A", a));
    proof {
        assert(entries_view(auth_parameters@) =~= seq![("USERNAME"@, username@), ("SRP_A"@, a@)]);
    }
    HttpRequest {
        method: Method::Post,
        url: String::from_str(config.cognito_endpoint.as_str()),
        headers: provider_header_entries("AWSCognitoIdentityProviderService.InitiateAuth"),
        bearer: None,
        body: Body::InitiateAuth(
            InitiateAuthRequest {
                auth_flow: String::from_str("USER_SRP_AUTH"),
                client_id: String::from_str(config.client_id.as_str()),
                auth_parameters,
                client_metadata: Vec::new(),
            },
        ),
    }
}

/// Builds the "respond to challenge" request from the proof.
pub fn respond_request(config: &AuthConfig, username: &str, proof_material: ProofMaterial) -> (request:
    HttpRequest)
    ensures
        is_respond_request(
            request,
            *config,
            username@,
            proof_material.password_claim_secret_block@,
            proof_material.timestamp@,
            proof_material.password_claim_signature@,
        ),
{
    let mut responses: Vec<Entry> = Vec::new();
    responses.push(entry("USERNAME", username));
    responses.push(
        entry("PASSWORD_CLAIM_SECRET_BLOCK", proof_material.password_claim_secret_block.as_str()),
    );
    responses.push(entry("TIMESTAMP", proof_material.timestamp.as_str()));
    responses.push(
        entry("PASSWORD_CLAIM_SIGNATURE", proof_material.password_claim_signature.as_str()),
    );
    proof {
        assert(entries_view(responses@) =~= seq![
            ("USERNAME"@, username@),
            ("PASSWORD_CLAIM_SECRET_BLOCK"@, proof_material.password_claim_secret_block@),
            ("TIMESTAMP"@, proof_material.timestamp@),
            ("PASSWORD_CLAIM_SIGNATURE"@, proof_material.password_claim_signature@),
        ]);
    }
    HttpRequest {
        method: Method::Post,
        url: String::from_str(config.cognito_endpoint.as_str()),
        headers: provider_header_entries(
            "AWSCognitoIdentityProviderService.RespondToAuthChallenge",
        ),
        bearer: None,
        body: Body::RespondToAuthChallenge(
            RespondToAuthChallengeRequest {
                challenge_name: String::from_str("PASSWORD_VERIFIER"),
                client_id: String::from_str(config.client_id.as_str()),
                challenge_responses: responses,
                client_metadata: Vec::new(),
            },
        ),
    }
}

/// Builds the request for the vendor's bearer token.
pub fn vendor_token_request(config: &AuthConfig, tokens: &AuthenticationResult) -> (request:
    HttpRequest)
    ensures
        is_vendor_token_request(request, *config, tokens.id_token@, tokens.access_token@),
{
    let mut headers: Vec<Entry> = Vec::new();
    headers.push(entry("Accept", "application/json"));
    headers.push(entry("x-id", tokens.id_token.as_str()));
    headers.push(entry("x-access", tokens.access_token.as_str()));
    proof {
        assert(entries_view(headers@) =~= seq![
            ("Accept"@, "application/json"@),
            ("x-id"@, tokens.id_token@),
            ("x-access"@, tokens.access_token@),
        ]);
    }
    HttpRequest {
        method: Method::Get,
        url: joined(config.api_uri.as_str(), "/app-token"),
        headers,
        bearer: None,
        body: Body::Empty,
    }
}

/// What a response to "initiate authentication" amounts to: a status outside
/// success is an HTTP failure, the first absent field a malformed challenge,
/// and otherwise the challenge is the five fields.
pub open spec fn challenge_of(reply: ChallengeReply) -> Result<ChallengeParameters, Error> {
    if !spec_is_success(reply.status) {
        Err(Error::HttpError(HttpFailure::Status(reply.status)))
    } else if reply.salt is None {
        Err(Error::MalformedChallenge(ChallengeField::Salt))
    } else if reply.secret_block is None {
        Err(Error::MalformedChallenge(ChallengeField::SecretBlock))
    } else if reply.srp_b is None {
        Err(Error::MalformedChallenge(ChallengeField::SrpB))
    } else if reply.username is None {
        Err(Error::MalformedChallenge(ChallengeField::Username))
    } else if reply.user_id_for_srp is None {
        Err(Error::MalformedChallenge(ChallengeField::UserIdForSrp))
    } else {
        Ok(
            ChallengeParameters {
                salt: reply.salt->0,
                secret_block: reply.secret_block->0,
                srp_b: reply.srp_b->0,
                username: reply.username->0,
                user_id_for_srp: reply.user_id_for_srp->0,
            },
        )
    }
}

/// Reads the challenge out of the response to "initiate authentication".
pub fn parse_challenge(reply: ChallengeReply) -> (r: Result<ChallengeParameters, Error>)
    ensures
        r == challenge_of(reply),
{
    if !is_success(reply.status) {
        return Err(Error::HttpError(HttpFailure::Status(reply.status)));
    }
    let salt = match reply.salt {
        Some(v) => v,
        None => {
            return Err(Error::MalformedChallenge(ChallengeField::Salt));
        },
    };
    let secret_block = match reply.secret_block {
        Some(v) => v,
        None => {
            return Err(Error::MalformedChallenge(ChallengeField::SecretBlock));
        },
    };
    let srp_b = match reply.srp_b {
        Some(v) => v,
        None => {
            return Err(Error::MalformedChallenge(ChallengeField::SrpB));
        },
    };
    let username = match reply.username {
        Some(v) => v,
        None => {
            return Err(Error::MalformedChallenge(ChallengeField::Username));
        },
    };
    let user_id_for_srp = match reply.user_id_for_srp {
        Some(v) => v,
        None => {
            return Err(Error::MalformedChallenge(ChallengeField::UserIdForSrp));
        },
    };
    Ok(ChallengeParameters { salt, secret_block, srp_b, username, user_id_for_srp })
}

/// What a response to "respond to challenge" amounts to: the two tokens, or
/// a rejection of the credentials where the status is outside success or a
/// token is absent.
pub open spec fn tokens_of(reply: TokenReply) -> Result<AuthenticationResult, Error> {
    if spec_is_success(reply.status) && reply.access_token is Some && reply.id_token is Some {
        Ok(AuthenticationResult { access_token: reply.access_token->0, id_token: reply.id_token->0 })
    } else {
        Err(Error::InvalidCredentials)
    }
}

/// Reads the tokens out of the response to "respond to challenge".
pub fn parse_tokens(reply: TokenReply) -> (r: Result<AuthenticationResult, Error>)
    ensures
        r == tokens_of(reply),
{
    if !is_success(reply.status) {
        return Err(Error::InvalidCredentials);
    }
    match (reply.access_token, reply.id_token) {
        (Some(access_token), Some(id_token)) => Ok(AuthenticationResult { access_token, id_token }),
        _ => Err(Error::InvalidCredentials),
    }
}

/// The state and action after the first step for these credentials: the
/// engine is made with the configured pool, the user name and the password;
/// the attempt's values are kept; and the request carries the user name and
/// the engine's public value, which is hexadecimal text of even length, never
/// empty.
pub open spec fn begun(
    config: AuthConfig,
    username: Seq<char>,
    password: Seq<char>,
    next: AuthState,
    action: Action,
) -> bool {
    &&& next matches AuthState::Initiated(params)
    &&& engine_pool_id(params.spec_engine()) == config.user_pool_id@
    &&& engine_username(params.spec_engine()) == username
    &&& engine_password(params.spec_engine()) == password
    &&& params.spec_username() == username
    &&& params.spec_a() == engine_public_value(params.spec_engine())
    &&& is_hex(params.spec_a())
    &&& params.spec_a().len() >= 2
    &&& params.spec_a().len() % 2 == 0
    &&& action matches Action::Send(request)
    &&& is_initiate_request(request, config, username, params.spec_a())
}

/// The state and action after the challenge was answered, or could not be.
///
/// A server value that is not hexadecimal fails as an invalid argument; one
/// that must be refused fails as an invalid server value. Otherwise, where
/// the engine owes a proof, the request goes out with the challenge's user
/// name and secret block, a timestamp, and the engine's signature of the
/// challenge for that timestamp; where it owes none, the handshake fails as
/// an invalid argument.
pub open spec fn answered(
    config: AuthConfig,
    params: SrpParameters,
    challenge: ChallengeParameters,
    next: AuthState,
    action: Action,
) -> bool {
    if !is_hex(challenge.srp_b@) {
        &&& next matches AuthState::Failed(Error::Srp(SrpFailure::InvalidArgument(_)))
        &&& action is Stop
    } else if server_value_refused(params.spec_a(), challenge.srp_b@) {
        &&& next matches AuthState::Failed(Error::InvalidServerValue)
        &&& action is Stop
    } else if proof_owed(
        params.spec_engine(),
        challenge.secret_block@,
        challenge.salt@,
        challenge.srp_b@,
    ) {
        &&& next is ChallengeAnswered
        &&& action matches Action::Send(request)
        &&& exists|timestamp: Seq<char>| #[trigger]
            is_respond_request(
                request,
                config,
                challenge.username@,
                challenge.secret_block@,
                timestamp,
                proof_signature(
                    params.spec_engine(),
                    challenge.secret_block@,
                    challenge.user_id_for_srp@,
                    challenge.salt@,
                    challenge.srp_b@,
                    timestamp,
                ),
            )
    } else {
        &&& next matches AuthState::Failed(Error::Srp(SrpFailure::InvalidArgument(_)))
        &&& action is Stop
    }
}

/// What a response to the first request amounts to where its body could not
/// be read: an HTTP failure by its status, or else a document that could not
/// be read.
pub open spec fn unread_challenge(status: u16, why: String) -> Error {
    if !spec_is_success(status) {
        Error::HttpError(HttpFailure::Status(status))
    } else {
        Error::Serialization(why)
    }
}

/// What a response to the proof amounts to where its body could not be read:
/// a rejection of the credentials by its status, or else a document that
/// could not be read.
pub open spec fn unread_tokens(status: u16, why: String) -> Error {
    if !spec_is_success(status) {
        Error::InvalidCredentials
    } else {
        Error::Serialization(why)
    }
}

/// The state and action after the response to the proof.
pub open spec fn tokens_received(
    config: AuthConfig,
    reply: TokenReply,
    next: AuthState,
    action: Action,
) -> bool {
    match tokens_of(reply) {
        Ok(tokens) => {
            &&& next == AuthState::TokensObtained(tokens)
            &&& action matches Action::Send(request)
            &&& is_vendor_token_request(request, config, tokens.id_token@, tokens.access_token@)
        },
        Err(e) => next == AuthState::Failed(e) && action is Stop,
    }
}

/// The result of the token exchange for these tokens and this header.
pub open spec fn exchanged(
    tokens: AuthenticationResult,
    header: Option<Seq<u8>>,
    r: Result<HoAuth, Error>,
) -> bool {
    match token_outcome(header) {
        TokenOutcome::Missing => r matches Err(Error::MissingHeader(name)) && name@
            == spec_token_header(),
        TokenOutcome::Unreadable => r matches Err(Error::InvalidHeaderValue),
        TokenOutcome::NoPrefix => r matches Err(Error::InvalidTokenFormat(_)),
        TokenOutcome::Token(token) => {
            &&& r matches Ok(session)
            &&& session.jwt_token@ == token
            &&& session.id_token == tokens.id_token
            &&& session.access_token == tokens.access_token
        },
    }
}

/// The header's bytes, if there is a header.
pub open spec fn header_view(header: Option<Vec<u8>>) -> Option<Seq<u8>> {
    match header {
        Some(v) => Some(v@),
        None => None,
    }
}

/// The state after the vendor's response.
pub open spec fn session_made(
    tokens: AuthenticationResult,
    header: Option<Seq<u8>>,
    next: AuthState,
) -> bool {
    match next {
        AuthState::SignedIn(session) => exchanged(tokens, header, Ok(session)),
        AuthState::Failed(e) => exchanged(tokens, header, Err(e)),
        _ => false,
    }
}

/// Starts the handshake: draws fresh values for the attempt and builds the
/// first request.
pub fn begin(config: &AuthConfig, username: &str, password: &str) -> (r: (AuthState, Action))
    ensures
        begun(*config, username@, password@, r.0, r.1),
{
    let params = generate_auth_parameters(
        config.user_pool_id.as_str(),
        config.client_id.as_str(),
        username,
        password,
    );
    let request = initiate_request(config, params.username(), params.a());
    (AuthState::Initiated(params), Action::Send(request))
}

/// What the response to the first request leads to: the complete challenge
/// beside the attempt's values, or the failure.
pub open spec fn challenge_received(params: SrpParameters, reply: ChallengeReply) -> AuthState {
    match challenge_of(reply) {
        Ok(challenge) => AuthState::ChallengeReceived(params, challenge),
        Err(e) => AuthState::Failed(e),
    }
}

/// Takes the response to the first request.
pub fn receive_challenge(params: SrpParameters, reply: ChallengeReply) -> (next: AuthState)
    ensures
        next == challenge_received(params, reply),
{
    match parse_challenge(reply) {
        Ok(challenge) => AuthState::ChallengeReceived(params, challenge),
        Err(e) => AuthState::Failed(e),
    }
}

/// Proves the password against a complete challenge and builds the second
/// request.
pub fn answer_challenge(
    config: &AuthConfig,
    params: SrpParameters,
    challenge: ChallengeParameters,
) -> (r: (AuthState, Action))
    ensures
        answered(*config, params, challenge, r.0, r.1),
{
    let outcome = verify(
        &params,
        challenge.secret_block.as_str(),
        challenge.user_id_for_srp.as_str(),
        challenge.salt.as_str(),
        challenge.srp_b.as_str(),
    );
    match outcome {
        Ok(proof_material) => {
            let request = respond_request(config, challenge.username.as_str(), proof_material);
            proof {
                assert(is_respond_request(
                    request,
                    *config,
                    challenge.username@,
                    challenge.secret_block@,
                    proof_material.timestamp@,
                    proof_material.password_claim_signature@,
                ));
            }
            (AuthState::ChallengeAnswered, Action::Send(request))
        },
        Err(e) => (AuthState::Failed(e), Action::Stop),
    }
}

/// Takes the identity provider's tokens and builds the request for the
/// vendor's.
pub fn receive_tokens(config: &AuthConfig, reply: TokenReply) -> (r: (AuthState, Action))
    ensures
        tokens_received(*config, reply, r.0, r.1),
{
    match parse_tokens(reply) {
        Ok(tokens) => {
            let request = vendor_token_request(config, &tokens);
            (AuthState::TokensObtained(tokens), Action::Send(request))
        },
        Err(e) => (AuthState::Failed(e), Action::Stop),
    }
}

impl HoAuth {
    /// Completes the session: the vendor's bearer token out of its response
    /// header, beside the identity provider's two tokens. There is a whole
    /// session or an error.
    pub fn from_exchange(tokens: AuthenticationResult, header: Option<&[u8]>) -> (r: Result<
        HoAuth,
        Error,
    >)
        ensures
            exchanged(
                tokens,
                match header {
                    Some(v) => Some(v@),
                    None => None,
                },
                r,
            ),
    {
        match bearer_token(header) {
            Ok(jwt_token) => Ok(
                HoAuth {
                    jwt_token,
                    id_token: tokens.id_token,
                    access_token: tokens.access_token,
                },
            ),
            Err(e) => Err(e),
        }
    }
}

/// The handshake is over: no event moves it.
pub open spec fn is_terminal(state: AuthState) -> bool {
    state is SignedIn || state is Failed
}

/// What one step may lead to, from each state on each event.
///
/// A transport failure fails a running handshake. Each state accepts the one
/// reply that it waits for, or the news that the reply could not be read; any
/// other event fails the handshake as an unexpected reply. A handshake that is over stays as it is.
pub open spec fn stepped(
    config: AuthConfig,
    state: AuthState,
    event: Event,
    next: AuthState,
    action: Action,
) -> bool {
    if is_terminal(state) {
        next == state && action is Stop
    } else {
        match (state, event) {
            (_, Event::TransportFailure(why)) => {
                &&& next == AuthState::Failed(Error::HttpError(HttpFailure::Transport(why)))
                &&& action is Stop
            },
            (AuthState::Idle, Event::Credentials { username, password }) => begun(
                config,
                username@,
                password@,
                next,
                action,
            ),
            (AuthState::Initiated(params), Event::Challenge(reply)) => match challenge_of(reply) {
                Ok(challenge) => answered(config, params, challenge, next, action),
                Err(e) => next == AuthState::Failed(e) && action is Stop,
            },
            (AuthState::Initiated(_), Event::Unreadable { status, why }) => {
                &&& next == AuthState::Failed(unread_challenge(status, why))
                &&& action is Stop
            },
            (AuthState::ChallengeAnswered, Event::Unreadable { status, why }) => {
                &&& next == AuthState::Failed(unread_tokens(status, why))
                &&& action is Stop
            },
            (AuthState::ChallengeAnswered, Event::Tokens(reply)) => tokens_received(
                config,
                reply,
                next,
                action,
            ),
            (AuthState::TokensObtained(tokens), Event::VendorToken(header)) => {
                &&& session_made(tokens, header_view(header), next)
                &&& action is Stop
            },
            _ => next == AuthState::Failed(Error::UnexpectedReply) && action is Stop,
        }
    }
}

/// A step leads to a session only from the identity provider's tokens and a
/// vendor's header that holds a bearer token: the session then carries that
/// token and those two, and no other step makes a session.
pub proof fn lemma_session_needs_tokens_and_header(
    config: AuthConfig,
    state: AuthState,
    event: Event,
    next: AuthState,
    action: Action,
)
    requires
        stepped(config, state, event, next, action),
        next is SignedIn,
        !(state is SignedIn),
    ensures
        state matches AuthState::TokensObtained(tokens) && event matches Event::VendorToken(
            Some(header),
        ) && next matches AuthState::SignedIn(session) && token_outcome(Some(header@))
            == TokenOutcome::Token(session.jwt_token@) && session.id_token == tokens.id_token
            && session.access_token == tokens.access_token,
{
}

/// A handshake that failed stays failed with the same error, and one that
/// gave a session keeps it, whatever happens.
pub proof fn lemma_terminal_states_stay(
    config: AuthConfig,
    state: AuthState,
    event: Event,
    next: AuthState,
    action: Action,
)
    requires
        stepped(config, state, event, next, action),
        state is SignedIn || state is Failed,
    ensures
        next == state,
        action is Stop,
{
}

/// A step that asks for something to be sent leaves the handshake waiting
/// for the reply: it never sends from a state that is over, and never ends
/// in one.
pub proof fn lemma_sending_means_waiting(
    config: AuthConfig,
    state: AuthState,
    event: Event,
    next: AuthState,
    action: Action,
)
    requires
        stepped(config, state, event, next, action),
        action is Send,
    ensures
        !is_terminal(state),
        next is Initiated || next is ChallengeAnswered || next is TokensObtained,
{
}

/// Makes one step of the handshake: from the state and what happened outside
/// to the next state and what is to be done outside.
pub fn step(config: &AuthConfig, state: AuthState, event: Event) -> (r: (AuthState, Action))
    ensures
        stepped(*config, state, event, r.0, r.1),
{
    match state {
        AuthState::SignedIn(session) => (AuthState::SignedIn(session), Action::Stop),
        AuthState::Failed(e) => (AuthState::Failed(e), Action::Stop),
        other => match (other, event) {
            (_, Event::TransportFailure(why)) => (
                AuthState::Failed(Error::HttpError(HttpFailure::Transport(why))),
                Action::Stop,
            ),
            (AuthState::Idle, Event::Credentials { username, password }) => begin(
                config,
                username.as_str(),
                password.as_str(),
            ),
            (AuthState::Initiated(params), Event::Challenge(reply)) => match receive_challenge(
                params,
                reply,
            ) {
                AuthState::ChallengeReceived(params, challenge) => answer_challenge(
                    config,
                    params,
                    challenge,
                ),
                failed => (failed, Action::Stop),
            },
            (AuthState::Initiated(_), Event::Unreadable { status, why }) => {
                if is_success(status) {
                    (AuthState::Failed(Error::Serialization(why)), Action::Stop)
                } else {
                    (AuthState::Failed(Error::HttpError(HttpFailure::Status(status))), Action::Stop)
                }
            },
            (AuthState::ChallengeAnswered, Event::Unreadable { status, why }) => {
                if is_success(status) {
                    (AuthState::Failed(Error::Serialization(why)), Action::Stop)
                } else {
                    (AuthState::Failed(Error::InvalidCredentials), Action::Stop)
                }
            },
            (AuthState::ChallengeAnswered, Event::Tokens(reply)) => receive_tokens(config, reply),
            (AuthState::TokensObtained(tokens), Event::VendorToken(header)) => {
                let r = match header {
                    Some(v) => HoAuth::from_exchange(tokens, Some(v.as_slice())),
                    None => HoAuth::from_exchange(tokens, None),
                };
                match r {
                    Ok(session) => (AuthState::SignedIn(session), Action::Stop),
                    Err(e) => (AuthState::Failed(e), Action::Stop),
                }
            },
            _ => (AuthState::Failed(Error::UnexpectedReply), Action::Stop),
        },
    }
}

} // verus!
