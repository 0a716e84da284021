//! Accounts: registration with a passcode sent by mail, login, and the
//! user's own data, as steps between the mailer, the store of pending
//! registrations and the store of users and sessions.
//!
//! A session is recorded before its token is handed out: a token that was
//! never recorded opens nothing.

use sha2::Digest;
use rand::{Rng, SeedableRng};
use vstd::prelude::*;
use vstd::string::*;
use vstd::utf8::encode_utf8;
use crate::error::{APIError, APIErrorView, ErrorKind, failure};
use crate::text::{append_hex, digit_char, digit_str, hex_text, is_digit, lemma_digit_char_value};
use crate::token::{
    Token, TokenView, base64url_text, encode_base64url, nonce_text, random_nonce, session_key,
    token_of_text, token_text,
};

verus! {

/// What SHA-256 of `sha2` makes of a sequence of bytes.
pub uninterp spec fn sha256_digest(data: Seq<u8>) -> Seq<u8>;

/// Calls `Digest::digest` of `sha2` for `Sha256`. The contract names the
/// digest, and claims that it is 32 bytes long, as the type of what the
/// call returns says.
#[verifier::external_body]
fn sha256(data: &[u8]) -> (r: Vec<u8>)
    ensures
        r@ == sha256_digest(data@),
        r@.len() == 32,
{
    sha2::Sha256::digest(data).to_vec()
}

/// The generator `StdRng` of `rand`. Nothing is read from it.
#[verifier::external_type_specification]
#[verifier::external_body]
pub struct ExStdRng(rand::rngs::StdRng);

/// Calls `SeedableRng::try_from_os_rng` of `rand` for `StdRng`. Nothing is
/// claimed of the generator, nor that the call succeeds.
#[verifier::external_body]
fn seeded_generator() -> (r: Result<rand::rngs::StdRng, getrandom::Error>) {
    rand::rngs::StdRng::try_from_os_rng()
}

/// Calls `Rng::random_range` of `rand` on a generator, for the range from 0
/// up to but not including `bound`. The contract claims that what comes
/// back lies in that range, and nothing more. An empty range, on which the
/// call panics, is left out.
#[verifier::external_body]
fn draw_below(generator: &mut rand::rngs::StdRng, bound: u8) -> (r: u8)
    requires
        bound > 0,
    ensures
        r < bound,
{
    generator.random_range(0..bound)
}

/// For how many seconds a pending registration is kept.
pub const REGISTRATION_SECONDS: u64 = 3600;

/// Who wants to register.
#[derive(Clone, Debug, PartialEq, Eq)]
pub struct CreateUserRequestModel {
    pub username: String,
    pub email: String,
}

/// `CreateUserRequestModel` as sequences of characters.
pub struct CreateUserRequestModelView {
    pub username: Seq<char>,
    pub email: Seq<char>,
}

impl DeepView for CreateUserRequestModel {
    type V = CreateUserRequestModelView;

    open spec fn deep_view(&self) -> CreateUserRequestModelView {
        CreateUserRequestModelView { username: self.username@, email: self.email@ }
    }
}

/// The token of a pending registration.
#[derive(Clone, Debug, PartialEq, Eq)]
pub struct CreateUserResponseModel {
    pub token: String,
}

impl DeepView for CreateUserResponseModel {
    type V = Seq<char>;

    open spec fn deep_view(&self) -> Seq<char> {
        self.token@
    }
}

/// What completes a registration: its token, the passcode, and the password
/// of the new account.
#[derive(Clone, Debug, PartialEq, Eq)]
pub struct RegisterUserRequestModel {
    pub token: String,
    pub code: String,
    pub password: String,
}

/// `RegisterUserRequestModel` as sequences of characters.
pub struct RegisterUserRequestModelView {
    pub token: Seq<char>,
    pub code: Seq<char>,
    pub password: Seq<char>,
}

impl DeepView for RegisterUserRequestModel {
    type V = RegisterUserRequestModelView;

    open spec fn deep_view(&self) -> RegisterUserRequestModelView {
        RegisterUserRequestModelView {
            token: self.token@,
            code: self.code@,
            password: self.password@,
        }
    }
}

/// The session token of a new account.
#[derive(Clone, Debug, PartialEq, Eq)]
pub struct RegisterUserResponseModel {
    pub token: String,
}

impl DeepView for RegisterUserResponseModel {
    type V = Seq<char>;

    open spec fn deep_view(&self) -> Seq<char> {
        self.token@
    }
}

/// What a user logs in with.
#[derive(Clone, Debug, PartialEq, Eq)]
pub struct IssueUserTokenRequestModel {
    pub email: String,
    pub password: String,
}

/// `IssueUserTokenRequestModel` as sequences of characters.
pub struct IssueUserTokenRequestModelView {
    pub email: Seq<char>,
    pub password: Seq<char>,
}

impl DeepView for IssueUserTokenRequestModel {
    type V = IssueUserTokenRequestModelView;

    open spec fn deep_view(&self) -> IssueUserTokenRequestModelView {
        IssueUserTokenRequestModelView { email: self.email@, password: self.password@ }
    }
}

/// The session token of a login.
#[derive(Clone, Debug, PartialEq, Eq)]
pub struct IssueUserTokenResponseModel {
    pub token: String,
}

impl DeepView for IssueUserTokenResponseModel {
    type V = Seq<char>;

    open spec fn deep_view(&self) -> Seq<char> {
        self.token@
    }
}

/// A user's own data.
#[derive(Clone, Debug, PartialEq, Eq)]
pub struct GetUserDataResponseModel {
    pub username: String,
    pub email: String,
    pub avatar_url: String,
    pub id: i32,
}

/// `GetUserDataResponseModel` as sequences of characters.
pub struct GetUserDataResponseModelView {
    pub username: Seq<char>,
    pub email: Seq<char>,
    pub avatar_url: Seq<char>,
    pub id: i32,
}

impl DeepView for GetUserDataResponseModel {
    type V = GetUserDataResponseModelView;

    open spec fn deep_view(&self) -> GetUserDataResponseModelView {
        GetUserDataResponseModelView {
            username: self.username@,
            email: self.email@,
            avatar_url: self.avatar_url@,
            id: self.id,
        }
    }
}

/// How a use case of accounts ends.
#[derive(Clone, Debug, PartialEq, Eq)]
pub enum UserOutcome {
    /// A registration is pending under this token.
    Pending(CreateUserResponseModel),
    /// A session was opened: its token as text.
    Session(String),
    /// The user's own data.
    User(GetUserDataResponseModel),
    /// It failed.
    Failed(APIError),
}

/// `UserOutcome` as sequences of characters.
pub enum UserOutcomeView {
    Pending(Seq<char>),
    Session(Seq<char>),
    User(GetUserDataResponseModelView),
    Failed(APIErrorView),
}

impl DeepView for UserOutcome {
    type V = UserOutcomeView;

    open spec fn deep_view(&self) -> UserOutcomeView {
        match self {
            UserOutcome::Pending(answer) => UserOutcomeView::Pending(answer.deep_view()),
            UserOutcome::Session(token) => UserOutcomeView::Session(token@),
            UserOutcome::User(data) => UserOutcomeView::User(data.deep_view()),
            UserOutcome::Failed(e) => UserOutcomeView::Failed(e.deep_view()),
        }
    }
}

/// What the caller is to do next.
#[derive(Clone, Debug, PartialEq, Eq)]
pub enum UserEffect {
    /// Send the passcode by mail.
    SendPasscode { code: String, mail_to: String },
    /// Keep a pending registration under a key for some seconds.
    StoreRegistration { key: String, user: CreateUserRequestModel, seconds: u64 },
    /// Read the pending registration under a key.
    LoadRegistration { key: String },
    /// Add a user, and give the id of the new user.
    AddUser { username: String, email: String, password_hash: String },
    /// Find the id of the user with an address and a password.
    FindUser { email: String, password_hash: String },
    /// Read name and address of a user.
    FindUserData { user_id: i32 },
    /// Record a session.
    RecordSession { nonce: String, user_id: i32 },
    /// Answer the request: the use case is over.
    Respond(UserOutcome),
}

/// `UserEffect` as sequences of characters.
pub enum UserEffectView {
    SendPasscode { code: Seq<char>, mail_to: Seq<char> },
    StoreRegistration { key: Seq<char>, user: CreateUserRequestModelView, seconds: u64 },
    LoadRegistration { key: Seq<char> },
    AddUser { username: Seq<char>, email: Seq<char>, password_hash: Seq<char> },
    FindUser { email: Seq<char>, password_hash: Seq<char> },
    FindUserData { user_id: i32 },
    RecordSession { nonce: Seq<char>, user_id: i32 },
    Respond(UserOutcomeView),
}

impl DeepView for UserEffect {
    type V = UserEffectView;

    open spec fn deep_view(&self) -> UserEffectView {
        match self {
            UserEffect::SendPasscode { code, mail_to } => UserEffectView::SendPasscode {
                code: code@,
                mail_to: mail_to@,
            },
            UserEffect::StoreRegistration { key, user, seconds } => {
                UserEffectView::StoreRegistration {
                    key: key@,
                    user: user.deep_view(),
                    seconds: *seconds,
                }
            },
            UserEffect::LoadRegistration { key } => UserEffectView::LoadRegistration { key: key@ },
            UserEffect::AddUser { username, email, password_hash } => UserEffectView::AddUser {
                username: username@,
                email: email@,
                password_hash: password_hash@,
            },
            UserEffect::FindUser { email, password_hash } => UserEffectView::FindUser {
                email: email@,
                password_hash: password_hash@,
            },
            UserEffect::FindUserData { user_id } => UserEffectView::FindUserData {
                user_id: *user_id,
            },
            UserEffect::RecordSession { nonce, user_id } => UserEffectView::RecordSession {
                nonce: nonce@,
                user_id: *user_id,
            },
            UserEffect::Respond(outcome) => UserEffectView::Respond(outcome.deep_view()),
        }
    }
}

/// What came of the work that an effect asked for.
#[derive(Clone, Debug, PartialEq, Eq)]
pub enum UserReply {
    /// A mail was sent, or a write went through.
    Completed,
    /// The pending registration, if there is one under the key.
    Registration(Option<CreateUserRequestModel>),
    /// The id of the user that was added.
    UserAdded(i32),
    /// The id of the user that was found, if any.
    UserFound(Option<i32>),
    /// Name and address of the user, if there is one.
    UserData(Option<(String, String)>),
    /// The mailer or a store failed, or what was stored could not be
    /// decoded.
    Broken(String),
}

/// `UserReply` as sequences of characters.
pub enum UserReplyView {
    Completed,
    Registration(Option<CreateUserRequestModelView>),
    UserAdded(i32),
    UserFound(Option<i32>),
    UserData(Option<(Seq<char>, Seq<char>)>),
    Broken(Seq<char>),
}

impl DeepView for UserReply {
    type V = UserReplyView;

    open spec fn deep_view(&self) -> UserReplyView {
        match self {
            UserReply::Completed => UserReplyView::Completed,
            UserReply::Registration(found) => UserReplyView::Registration(found.deep_view()),
            UserReply::UserAdded(user_id) => UserReplyView::UserAdded(*user_id),
            UserReply::UserFound(found) => UserReplyView::UserFound(*found),
            UserReply::UserData(found) => UserReplyView::UserData(found.deep_view()),
            UserReply::Broken(message) => UserReplyView::Broken(message@),
        }
    }
}

/// Where a use case of accounts stands.
#[derive(Clone, Debug, PartialEq, Eq)]
pub enum UserFlow {
    /// Registering: waits for the mailer.
    SendingPasscode { user: CreateUserRequestModel },
    /// Registering: waits for the pending registration to be kept.
    StoringRegistration { token: String },
    /// Completing a registration: waits for the pending registration.
    LoadingRegistration { password_hash: String },
    /// Completing a registration: waits for the id of the new user.
    AddingUser,
    /// Logging in: waits for the id of the user.
    FindingUser,
    /// Opening a session: waits for the session to be recorded.
    RecordingSession { token: String },
    /// Reading the user's own data: waits for name and address.
    FindingUserData { user_id: i32 },
    /// The use case is over.
    Finished,
}

/// `UserFlow` as sequences of characters.
pub enum UserFlowView {
    SendingPasscode { user: CreateUserRequestModelView },
    StoringRegistration { token: Seq<char> },
    LoadingRegistration { password_hash: Seq<char> },
    AddingUser,
    FindingUser,
    RecordingSession { token: Seq<char> },
    FindingUserData { user_id: i32 },
    Finished,
}

impl DeepView for UserFlow {
    type V = UserFlowView;

    open spec fn deep_view(&self) -> UserFlowView {
        match self {
            UserFlow::SendingPasscode { user } => UserFlowView::SendingPasscode {
                user: user.deep_view(),
            },
            UserFlow::StoringRegistration { token } => UserFlowView::StoringRegistration {
                token: token@,
            },
            UserFlow::LoadingRegistration { password_hash } => UserFlowView::LoadingRegistration {
                password_hash: password_hash@,
            },
            UserFlow::AddingUser => UserFlowView::AddingUser,
            UserFlow::FindingUser => UserFlowView::FindingUser,
            UserFlow::RecordingSession { token } => UserFlowView::RecordingSession {
                token: token@,
            },
            UserFlow::FindingUserData { user_id } => UserFlowView::FindingUserData {
                user_id: *user_id,
            },
            UserFlow::Finished => UserFlowView::Finished,
        }
    }
}

/// A passcode: six digits.
pub open spec fn is_passcode(code: Seq<char>) -> bool {
    &&& code.len() == 6
    &&& forall|i: int| 0 <= i < code.len() ==> is_digit(#[trigger] code[i])
}

/// What is stored of a password: the SHA-256 digest of its bytes in UTF-8,
/// in URL-safe base64 without padding.
pub open spec fn password_hash_text(password: Seq<char>) -> Seq<char> {
    base64url_text(sha256_digest(encode_utf8(password)))
}

/// Where the picture of a user is found: under the SHA-256 digest of the
/// bytes of the address in UTF-8, in lower-case hexadecimal.
pub open spec fn avatar_url_text(email: Seq<char>) -> Seq<char> {
    "https://gravatar.com/avatar/"@ + hex_text(sha256_digest(encode_utf8(email)))
}

/// The key under which a pending registration is kept.
pub open spec fn registration_key_text(token: Seq<char>) -> Seq<char> {
    "create_user:"@ + token
}

/// What the mail with a passcode says.
pub open spec fn passcode_body_text(code: Seq<char>) -> Seq<char> {
    "Your passcode is: "@ + code
}

/// The use case ends with a failure.
pub open spec fn user_ends_with(e: APIErrorView) -> (UserFlowView, UserEffectView) {
    (UserFlowView::Finished, UserEffectView::Respond(UserOutcomeView::Failed(e)))
}

/// The use case ends because a reply came that it did not wait for.
pub open spec fn user_ends_unexpected() -> (UserFlowView, UserEffectView) {
    user_ends_with(failure(ErrorKind::Internal, "Unexpected reply"@))
}

/// The use case ends because the system's random source failed.
pub open spec fn user_ends_without_random() -> (UserFlowView, UserEffectView) {
    user_ends_with(failure(ErrorKind::Internal, "Random source failed"@))
}

/// Registering begins with the passcode being sent to the address given.
/// `code` is the passcode that was drawn, or nothing where the random source
/// failed.
pub open spec fn passcode_sent(user: CreateUserRequestModelView, code: Option<Seq<char>>) -> (
    UserFlowView,
    UserEffectView,
) {
    match code {
        None => user_ends_without_random(),
        Some(code) => (
            UserFlowView::SendingPasscode { user },
            UserEffectView::SendPasscode { code, mail_to: user.email },
        ),
    }
}

/// Once the passcode is sent, the registration is kept for an hour under a
/// fresh token.
pub open spec fn registration_kept(user: CreateUserRequestModelView, nonce: Option<Seq<u8>>) -> (
    UserFlowView,
    UserEffectView,
) {
    match nonce {
        None => user_ends_without_random(),
        Some(nonce) => (
            UserFlowView::StoringRegistration { token: base64url_text(nonce) },
            UserEffectView::StoreRegistration {
                key: registration_key_text(base64url_text(nonce)),
                user,
                seconds: REGISTRATION_SECONDS,
            },
        ),
    }
}

/// A session is opened for a user by recording the nonce of a fresh token
/// beside the user id.
pub open spec fn session_opened(user_id: i32, nonce: Option<Seq<u8>>) -> (
    UserFlowView,
    UserEffectView,
) {
    match nonce {
        None => user_ends_without_random(),
        Some(nonce) => (
            UserFlowView::RecordingSession { token: token_text(TokenView { user_id, nonce }) },
            UserEffectView::RecordSession { nonce: base64url_text(nonce), user_id },
        ),
    }
}

/// Whether a step draws a fresh nonce.
pub open spec fn draws_nonce(flow: UserFlowView, reply: UserReplyView) -> bool {
    ||| flow is SendingPasscode && reply is Completed
    ||| flow is AddingUser && reply is UserAdded
    ||| flow is FindingUser && reply matches UserReplyView::UserFound(Some(_))
}

/// What a use case does with a reply that is no failure. `nonce` is the
/// nonce that was drawn for the step, if one was drawn and the random source
/// gave one.
pub open spec fn user_proceeds(
    flow: UserFlowView,
    reply: UserReplyView,
    nonce: Option<Seq<u8>>,
) -> (UserFlowView, UserEffectView) {
    match (flow, reply) {
        (UserFlowView::SendingPasscode { user }, UserReplyView::Completed) => registration_kept(
            user,
            nonce,
        ),
        (UserFlowView::StoringRegistration { token }, UserReplyView::Completed) => (
            UserFlowView::Finished,
            UserEffectView::Respond(UserOutcomeView::Pending(token)),
        ),
        (
            UserFlowView::LoadingRegistration { password_hash },
            UserReplyView::Registration(found),
        ) => match found {
            None => user_ends_with(failure(ErrorKind::NotFound, "User data not found"@)),
            Some(user) => (
                UserFlowView::AddingUser,
                UserEffectView::AddUser {
                    username: user.username,
                    email: user.email,
                    password_hash,
                },
            ),
        },
        (UserFlowView::AddingUser, UserReplyView::UserAdded(user_id)) => session_opened(
            user_id,
            nonce,
        ),
        (UserFlowView::FindingUser, UserReplyView::UserFound(found)) => match found {
            None => user_ends_with(
                failure(ErrorKind::Unauthorized, "Invalid email or password"@),
            ),
            Some(user_id) => session_opened(user_id, nonce),
        },
        (UserFlowView::RecordingSession { token }, UserReplyView::Completed) => (
            UserFlowView::Finished,
            UserEffectView::Respond(UserOutcomeView::Session(token)),
        ),
        (UserFlowView::FindingUserData { user_id }, UserReplyView::UserData(found)) => match found {
            None => user_ends_with(failure(ErrorKind::NotFound, "User not found"@)),
            Some((username, email)) => (
                UserFlowView::Finished,
                UserEffectView::Respond(
                    UserOutcomeView::User(
                        GetUserDataResponseModelView {
                            username,
                            email,
                            avatar_url: avatar_url_text(email),
                            id: user_id,
                        },
                    ),
                ),
            ),
        },
        _ => user_ends_unexpected(),
    }
}

/// What a use case does with a reply.
pub open spec fn user_next_step(
    flow: UserFlowView,
    reply: UserReplyView,
    nonce: Option<Seq<u8>>,
) -> (UserFlowView, UserEffectView) {
    if flow is Finished {
        user_ends_unexpected()
    } else {
        match reply {
            UserReplyView::Broken(message) => user_ends_with(
                failure(ErrorKind::Internal, message),
            ),
            _ => user_proceeds(flow, reply, nonce),
        }
    }
}

/// A nonce as a sequence of bytes.
pub open spec fn nonce_bytes(nonce: Option<[u8; 32]>) -> Option<Seq<u8>> {
    match nonce {
        Some(n) => Some(n@),
        None => None,
    }
}

/// What is stored of a password.
pub fn password_hash(password: &str) -> (r: String)
    ensures
        r@ == password_hash_text(password@),
{
    let digest = sha256(password.as_bytes());
    encode_base64url(digest.as_slice())
}

/// Where the picture of a user is found.
pub fn avatar_url(email: &str) -> (r: String)
    ensures
        r@ == avatar_url_text(email@),
{
    let digest = sha256(email.as_bytes());
    let mut url = String::from_str("https://gravatar.com/avatar/");
    append_hex(&mut url, digest.as_slice());
    url
}

/// The key under which a pending registration is kept.
pub fn registration_key(token: &str) -> (r: String)
    ensures
        r@ == registration_key_text(token@),
{
    let mut key = String::from_str("create_user:");
    key.append(token);
    key
}

/// The subject of the mail with a passcode.
pub fn passcode_subject() -> (r: &'static str)
    ensures
        r@ == "Your passcode"@,
{
    "Your passcode"
}

/// What the mail with a passcode says.
pub fn passcode_body(code: &str) -> (r: String)
    ensures
        r@ == passcode_body_text(code@),
{
    let mut body = String::from_str("Your passcode is: ");
    body.append(code);
    body
}

/// A fresh passcode: six random digits. Fails only where the system's
/// random source does.
pub fn passcode() -> (r: Option<String>)
    ensures
        r matches Some(code) ==> is_passcode(code@),
{
    let mut generator = match seeded_generator() {
        Ok(generator) => generator,
        Err(_) => {
            return None;
        },
    };
    let mut digits: [u8; 6] = [0u8; 6];
    let mut i: usize = 0;
    while i < 6
        invariant
            i <= 6,
            forall|j: int| 0 <= j < i ==> digits@[j] < 10,
        decreases 6 - i,
    {
        let d: u8 = draw_below(&mut generator, 10);
        digits[i] = d;
        i = i + 1;
    }
    proof {
        lemma_spelled_is_passcode(digits@);
    }
    passcode_of(&digits)
}

/// The digit characters of numbers below ten, one for each, in order.
pub open spec fn digits_text(digits: Seq<u8>) -> Seq<char> {
    Seq::new(digits.len(), |i: int| digit_char(digits[i] as nat))
}

/// The passcode that drawn numbers spell: their digit characters, where
/// there are six of them and each is below ten.
pub open spec fn passcode_spelled(digits: Seq<u8>) -> Option<Seq<char>> {
    if digits.len() == 6 && (forall|i: int| 0 <= i < digits.len() ==> #[trigger] digits[i] < 10) {
        Some(digits_text(digits))
    } else {
        None
    }
}

/// What drawn numbers spell is a passcode.
pub proof fn lemma_spelled_is_passcode(digits: Seq<u8>)
    ensures
        passcode_spelled(digits) matches Some(code) ==> is_passcode(code),
{
    if passcode_spelled(digits) is Some {
        let code = digits_text(digits);
        assert forall|i: int| 0 <= i < code.len() implies is_digit(#[trigger] code[i]) by {
            assert(digits[i] < 10);
            lemma_digit_char_value(digits[i] as nat);
        }
    }
}

/// The passcode that six drawn numbers spell: nothing where one of them is
/// not below ten.
pub fn passcode_of(digits: &[u8; 6]) -> (r: Option<String>)
    ensures
        r.deep_view() == passcode_spelled(digits@),
{
    let mut code = String::new();
    let mut i: usize = 0;
    while i < 6
        invariant
            i <= 6,
            forall|j: int| 0 <= j < i ==> digits@[j] < 10,
            code@ == digits_text(digits@.take(i as int)),
        decreases 6 - i,
    {
        let d: u8 = digits[i];
        if d >= 10 {
            return None;
        }
        code.append(digit_str(d));
        proof {
            assert(code@ =~= digits_text(digits@.take(i + 1)));
        }
        i = i + 1;
    }
    proof {
        assert(digits@.take(6) =~= digits@);
    }
    Some(code)
}

/// Ends a use case with a failure.
fn user_end_with(e: APIError) -> (r: (UserFlow, UserEffect))
    ensures
        r.deep_view() == user_ends_with(e.deep_view()),
{
    (UserFlow::Finished, UserEffect::Respond(UserOutcome::Failed(e)))
}

/// Keeps a registration under a fresh token.
fn keep_registration(user: CreateUserRequestModel, nonce: Option<[u8; 32]>) -> (r: (
    UserFlow,
    UserEffect,
))
    ensures
        r.deep_view() == registration_kept(user.deep_view(), nonce_bytes(nonce)),
{
    match nonce {
        None => user_end_with(APIError::internal_server_error("Random source failed")),
        Some(nonce) => {
            let token = nonce_text(&nonce);
            let key = registration_key(token.as_str());
            (
                UserFlow::StoringRegistration { token },
                UserEffect::StoreRegistration { key, user, seconds: REGISTRATION_SECONDS },
            )
        },
    }
}

/// Opens a session for a user with a fresh token. The text that will be
/// handed out reads back as a token with the session key that is recorded.
fn open_session(user_id: i32, nonce: Option<[u8; 32]>) -> (r: (UserFlow, UserEffect))
    ensures
        r.deep_view() == session_opened(user_id, nonce_bytes(nonce)),
        r.deep_view().0 matches UserFlowView::RecordingSession { token } ==> opens_recorded_session(
            token,
            r.deep_view().1,
        ),
{
    match nonce {
        None => user_end_with(APIError::internal_server_error("Random source failed")),
        Some(nonce) => {
            let token = Token::with_nonce(user_id, nonce);
            let text = token.text();
            (
                UserFlow::RecordingSession { token: text },
                UserEffect::RecordSession { nonce: token.get_nonce_as_string(), user_id },
            )
        },
    }
}

/// The text of a token reads back as a token with the session key that the
/// effect asks to record.
pub open spec fn opens_recorded_session(token: Seq<char>, effect: UserEffectView) -> bool {
    &&& effect is RecordSession
    &&& token_of_text(token) matches Ok(read) && session_key(read) == (
        effect->RecordSession_nonce,
        effect->RecordSession_user_id,
    )
}

/// Begins a registration with a fresh passcode.
pub fn create_user(payload: CreateUserRequestModel) -> (r: (UserFlow, UserEffect))
    ensures
        exists|code: Option<Seq<char>>|
            (code matches Some(c) ==> is_passcode(c)) && r.deep_view() == #[trigger] passcode_sent(
                payload.deep_view(),
                code,
            ),
{
    let code = passcode();
    create_user_with_code(payload, code)
}

/// Begins a registration with the passcode that was drawn: nothing where
/// the random source failed.
pub fn create_user_with_code(payload: CreateUserRequestModel, code: Option<String>) -> (r: (
    UserFlow,
    UserEffect,
))
    ensures
        r.deep_view() == passcode_sent(payload.deep_view(), code.deep_view()),
{
    match code {
        None => user_end_with(APIError::internal_server_error("Random source failed")),
        Some(code) => {
            let mail_to = payload.email.clone();
            (
                UserFlow::SendingPasscode { user: payload },
                UserEffect::SendPasscode { code, mail_to },
            )
        },
    }
}

/// Begins the completion of a registration.
pub fn register_user(payload: RegisterUserRequestModel) -> (r: (UserFlow, UserEffect))
    ensures
        r.deep_view() == (
            UserFlowView::LoadingRegistration {
                password_hash: password_hash_text(payload.password@),
            },
            UserEffectView::LoadRegistration { key: registration_key_text(payload.token@) },
        ),
{
    (
        UserFlow::LoadingRegistration { password_hash: password_hash(payload.password.as_str()) },
        UserEffect::LoadRegistration { key: registration_key(payload.token.as_str()) },
    )
}

/// Begins a login.
pub fn issue_user_token(payload: IssueUserTokenRequestModel) -> (r: (UserFlow, UserEffect))
    ensures
        r.deep_view() == (
            UserFlowView::FindingUser,
            UserEffectView::FindUser {
                email: payload.email@,
                password_hash: password_hash_text(payload.password@),
            },
        ),
{
    let password_hash = password_hash(payload.password.as_str());
    (UserFlow::FindingUser, UserEffect::FindUser { email: payload.email, password_hash })
}

/// Begins the reading of a user's own data.
pub fn get_user(user_id: i32) -> (r: (UserFlow, UserEffect))
    ensures
        r.deep_view() == (
            UserFlowView::FindingUserData { user_id },
            UserEffectView::FindUserData { user_id },
        ),
{
    (UserFlow::FindingUserData { user_id }, UserEffect::FindUserData { user_id })
}

impl UserFlow {
    /// Whether this use case is over.
    pub fn is_finished(&self) -> (r: bool)
        ensures
            r == (self.deep_view() is Finished),
    {
        match self {
            UserFlow::Finished => true,
            _ => false,
        }
    }

    /// Whether the step that `reply` leads to draws a fresh nonce.
    pub fn draws(&self, reply: &UserReply) -> (r: bool)
        ensures
            r == draws_nonce(self.deep_view(), reply.deep_view()),
    {
        match (self, reply) {
            (UserFlow::SendingPasscode { .. }, UserReply::Completed) => true,
            (UserFlow::AddingUser, UserReply::UserAdded(_)) => true,
            (UserFlow::FindingUser, UserReply::UserFound(Some(_))) => true,
            _ => false,
        }
    }
}

/// Goes on with a reply that is no failure.
fn user_proceed(flow: UserFlow, reply: UserReply, nonce: Option<[u8; 32]>) -> (r: (
    UserFlow,
    UserEffect,
))
    ensures
        r.deep_view() == user_proceeds(flow.deep_view(), reply.deep_view(), nonce_bytes(nonce)),
        r.deep_view().0 matches UserFlowView::RecordingSession { token } ==> opens_recorded_session(
            token,
            r.deep_view().1,
        ),
{
    match (flow, reply) {
        (UserFlow::SendingPasscode { user }, UserReply::Completed) => keep_registration(
            user,
            nonce,
        ),
        (UserFlow::StoringRegistration { token }, UserReply::Completed) => (
            UserFlow::Finished,
            UserEffect::Respond(UserOutcome::Pending(CreateUserResponseModel { token })),
        ),
        (UserFlow::LoadingRegistration { password_hash }, UserReply::Registration(found)) => {
            match found {
                None => user_end_with(APIError::not_found("User data not found")),
                Some(user) => (
                    UserFlow::AddingUser,
                    UserEffect::AddUser {
                        username: user.username,
                        email: user.email,
                        password_hash,
                    },
                ),
            }
        },
        (UserFlow::AddingUser, UserReply::UserAdded(user_id)) => open_session(user_id, nonce),
        (UserFlow::FindingUser, UserReply::UserFound(found)) => match found {
            None => user_end_with(APIError::unauthorized("Invalid email or password")),
            Some(user_id) => open_session(user_id, nonce),
        },
        (UserFlow::RecordingSession { token }, UserReply::Completed) => (
            UserFlow::Finished,
            UserEffect::Respond(UserOutcome::Session(token)),
        ),
        (UserFlow::FindingUserData { user_id }, UserReply::UserData(found)) => match found {
            None => user_end_with(APIError::not_found("User not found")),
            Some((username, email)) => {
                let avatar_url = avatar_url(email.as_str());
                (
                    UserFlow::Finished,
                    UserEffect::Respond(
                        UserOutcome::User(
                            GetUserDataResponseModel { username, email, avatar_url, id: user_id },
                        ),
                    ),
                )
            },
        },
        _ => user_end_with(APIError::internal_server_error("Unexpected reply")),
    }
}

/// Goes on with a use case, with the nonce that was drawn for the step:
/// nothing where none was drawn, or where the random source failed.
pub fn advance_user_with(flow: UserFlow, reply: UserReply, nonce: Option<[u8; 32]>) -> (r: (
    UserFlow,
    UserEffect,
))
    ensures
        r.deep_view() == user_next_step(flow.deep_view(), reply.deep_view(), nonce_bytes(nonce)),
        r.deep_view().0 matches UserFlowView::RecordingSession { token } ==> opens_recorded_session(
            token,
            r.deep_view().1,
        ),
{
    if flow.is_finished() {
        return user_end_with(APIError::internal_server_error("Unexpected reply"));
    }
    match reply {
        UserReply::Broken(message) => user_end_with(
            APIError { kind: ErrorKind::Internal, message },
        ),
        other => user_proceed(flow, other, nonce),
    }
}

/// Goes on with a use case: takes the reply to what was done last, and says
/// what is to be done next. Where the step opens a session or keeps a
/// registration, a fresh nonce is drawn for it.
pub fn advance_user(flow: UserFlow, reply: UserReply) -> (r: (UserFlow, UserEffect))
    ensures
        !draws_nonce(flow.deep_view(), reply.deep_view()) ==> r.deep_view() == user_next_step(
            flow.deep_view(),
            reply.deep_view(),
            None,
        ),
        draws_nonce(flow.deep_view(), reply.deep_view()) ==> exists|nonce: Option<Seq<u8>>|
            (nonce matches Some(n) ==> n.len() == 32) && r.deep_view() == #[trigger] user_next_step(
                flow.deep_view(),
                reply.deep_view(),
                nonce,
            ),
        r.deep_view().0 matches UserFlowView::RecordingSession { token } ==> opens_recorded_session(
            token,
            r.deep_view().1,
        ),
{
    let nonce: Option<[u8; 32]> = if flow.draws(&reply) {
        match random_nonce() {
            Ok(nonce) => Some(nonce),
            Err(_) => None,
        }
    } else {
        None
    };
    advance_user_with(flow, reply, nonce)
}

/// How many steps a use case of accounts can still take before it is over.
pub open spec fn user_steps_left(flow: UserFlowView) -> nat {
    match flow {
        UserFlowView::SendingPasscode { .. } => 2,
        UserFlowView::StoringRegistration { .. } => 1,
        UserFlowView::LoadingRegistration { .. } => 3,
        UserFlowView::AddingUser => 2,
        UserFlowView::FindingUser => 2,
        UserFlowView::RecordingSession { .. } => 1,
        UserFlowView::FindingUserData { .. } => 1,
        UserFlowView::Finished => 0,
    }
}

/// Every step brings a use case nearer to its end, and a use case is over
/// exactly when the effect is to respond.
pub proof fn lemma_user_step_nears_the_end(
    flow: UserFlowView,
    reply: UserReplyView,
    nonce: Option<Seq<u8>>,
)
    ensures
        user_next_step(flow, reply, nonce).0 is Finished <==> user_next_step(flow, reply, nonce).1
            is Respond,
        !(flow is Finished) ==> user_steps_left(user_next_step(flow, reply, nonce).0)
            < user_steps_left(flow),
{
}

/// A session token is handed out only in reply to its session having been
/// recorded, and it is the token that the use case was waiting to hand out.
pub proof fn lemma_token_is_answered_after_record(
    flow: UserFlowView,
    reply: UserReplyView,
    nonce: Option<Seq<u8>>,
)
    requires
        user_next_step(flow, reply, nonce).1 matches UserEffectView::Respond(
            UserOutcomeView::Session(_),
        ),
    ensures
        reply is Completed,
        flow is RecordingSession,
        user_next_step(flow, reply, nonce).1 == UserEffectView::Respond(
            UserOutcomeView::Session(flow->RecordingSession_token),
        ),
{
}

/// Where the session could not be recorded, no token is handed out: the use
/// case ends with an internal failure.
pub proof fn lemma_unrecorded_session_gives_no_token(
    token: Seq<char>,
    message: Seq<char>,
    nonce: Option<Seq<u8>>,
)
    ensures
        user_next_step(
            UserFlowView::RecordingSession { token },
            UserReplyView::Broken(message),
            nonce,
        ) == user_ends_with(failure(ErrorKind::Internal, message)),
{
}

/// A session is opened only for the user that the store gave: the one that
/// was added, or the one that was found with the address and the password.
/// A login that finds no user is answered as unauthorized.
pub proof fn lemma_session_is_for_the_stored_user(
    flow: UserFlowView,
    reply: UserReplyView,
    nonce: Option<Seq<u8>>,
)
    ensures
        user_next_step(flow, reply, nonce).1 matches UserEffectView::RecordSession {
            user_id,
            ..
        } ==> (flow is AddingUser && reply == UserReplyView::UserAdded(user_id)) || (flow
            is FindingUser && reply == UserReplyView::UserFound(Some(user_id))),
        user_next_step(UserFlowView::FindingUser, UserReplyView::UserFound(None), nonce)
            == user_ends_with(failure(ErrorKind::Unauthorized, "Invalid email or password"@)),
{
}

} // verus!
