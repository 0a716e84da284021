//! Session tokens: a user id bound to a random nonce, the text a token
//! travels as, and the decision whether a presented token opens a session.
//!
//! On the wire a token is 37 bytes: the user id as four bytes, most
//! significant first, a dot, and the 32 bytes of the nonce. The text of a
//! token is those bytes in the URL-safe base64 alphabet without padding.
//! Only the nonce is recorded on the server, in the same alphabet, beside
//! the user id: a token opens a session where that record exists.

use base64::Engine;
use vstd::prelude::*;
use vstd::string::*;
use crate::error::{APIError, APIErrorView, ErrorKind, failure};

verus! {

/// The error of `base64`'s decoder. Nothing is read from it.
#[verifier::external_type_specification]
#[verifier::external_body]
pub struct ExDecodeError(base64::DecodeError);

/// The error of `getrandom`. Nothing is read from it.
#[verifier::external_type_specification]
#[verifier::external_body]
pub struct ExRandomError(getrandom::Error);

/// What `base64`'s engine `URL_SAFE_NO_PAD` encodes a sequence of bytes to.
pub uninterp spec fn base64url_text(bytes: Seq<u8>) -> Seq<char>;

/// What `base64`'s engine `URL_SAFE_NO_PAD` decodes a text to: the bytes, or
/// nothing where it reports an error.
pub uninterp spec fn base64url_bytes(text: Seq<char>) -> Option<Seq<u8>>;

/// The length of a nonce in bytes.
pub const NONCE_LEN: usize = 32;

/// The length of a token on the wire in bytes.
pub const WIRE_LEN: usize = 37;

/// The byte between the user id and the nonce: a dot.
pub const SEPARATOR: u8 = 46;

/// Calls `Engine::encode` of `base64` on the engine `URL_SAFE_NO_PAD`. The
/// contract names the text that comes back, and claims that the same engine
/// decodes that text to the bytes it was made from. The bound keeps the
/// length of the text within `usize`, beyond which the call panics.
#[verifier::external_body]
pub(crate) fn encode_base64url(bytes: &[u8]) -> (r: String)
    requires
        bytes@.len() <= 0x3fff_ffff,
    ensures
        r@ == base64url_text(bytes@),
        base64url_bytes(r@) == Some(bytes@),
{
    base64::engine::general_purpose::URL_SAFE_NO_PAD.encode(bytes)
}

/// Calls `Engine::decode` of `base64` on the engine `URL_SAFE_NO_PAD`. The
/// contract names what comes back, bytes or an error, and claims no more.
#[verifier::external_body]
fn decode_base64url(text: &str) -> (r: Result<Vec<u8>, base64::DecodeError>)
    ensures
        match r {
            Ok(bytes) => base64url_bytes(text@) == Some(bytes@),
            Err(_) => base64url_bytes(text@) is None,
        },
{
    base64::engine::general_purpose::URL_SAFE_NO_PAD.decode(text)
}

/// Calls `getrandom::fill` on the 32 bytes of a nonce. Nothing is claimed
/// of the bytes, nor that the call succeeds.
#[verifier::external_body]
fn fill_random(nonce: &mut [u8; 32]) -> (r: Result<(), getrandom::Error>) {
    getrandom::fill(nonce)
}

/// Why no token came about.
#[derive(Clone, Copy, PartialEq, Eq, Debug, Structural)]
pub enum TokenError {
    /// The system's random source failed.
    RandomSource,
    /// The text is not URL-safe base64 without padding.
    InvalidEncoding,
    /// The text does not decode to `WIRE_LEN` bytes.
    InvalidLength,
    /// The fifth byte is not the separator.
    InvalidSeparator,
}

/// A session token.
#[derive(Clone, Copy, PartialEq, Eq, Debug)]
pub struct Token {
    pub user_id: i32,
    pub nonce: [u8; 32],
}

/// A token with its nonce as a sequence of bytes.
pub struct TokenView {
    pub user_id: i32,
    pub nonce: Seq<u8>,
}

impl View for Token {
    type V = TokenView;

    open spec fn view(&self) -> TokenView {
        TokenView { user_id: self.user_id, nonce: self.nonce@ }
    }
}

/// The session record that a token is looked up by: the nonce as text, and
/// the user id.
#[derive(Clone, Debug, PartialEq, Eq)]
pub struct SessionKey {
    pub nonce: String,
    pub user_id: i32,
}

/// A user id as four bytes, most significant first, negative ids in two's
/// complement.
pub open spec fn user_id_bytes(user_id: i32) -> Seq<u8> {
    let u: int = if user_id < 0 {
        user_id + 0x1_0000_0000
    } else {
        user_id as int
    };
    seq![
        (u / 16777216) as u8,
        ((u / 65536) % 256) as u8,
        ((u / 256) % 256) as u8,
        (u % 256) as u8,
    ]
}

/// The user id that four bytes stand for.
pub open spec fn user_id_of(bytes: Seq<u8>) -> i32
    recommends
        bytes.len() == 4,
{
    let u: int = bytes[0] * 16777216 + bytes[1] * 65536 + bytes[2] * 256 + bytes[3];
    if u >= 0x8000_0000 {
        (u - 0x1_0000_0000) as i32
    } else {
        u as i32
    }
}

/// A token on the wire.
pub open spec fn wire_bytes(token: TokenView) -> Seq<u8> {
    user_id_bytes(token.user_id) + seq![SEPARATOR] + token.nonce
}

/// The token that bytes on the wire stand for, or why they stand for none.
pub open spec fn token_of_wire(bytes: Seq<u8>) -> Result<TokenView, TokenError> {
    if bytes.len() != WIRE_LEN {
        Err(TokenError::InvalidLength)
    } else if bytes[4] != SEPARATOR {
        Err(TokenError::InvalidSeparator)
    } else {
        Ok(TokenView { user_id: user_id_of(bytes.take(4)), nonce: bytes.skip(5) })
    }
}

/// The token that a decoded text stands for: `decoded` is what the text
/// decodes to.
pub open spec fn token_of_decoded(decoded: Option<Seq<u8>>) -> Result<TokenView, TokenError> {
    match decoded {
        None => Err(TokenError::InvalidEncoding),
        Some(bytes) => token_of_wire(bytes),
    }
}

/// What came out of the decoder, as a sequence of bytes.
pub open spec fn decoded_bytes(decoded: Option<Vec<u8>>) -> Option<Seq<u8>> {
    match decoded {
        Some(bytes) => Some(bytes@),
        None => None,
    }
}

/// The text of a token.
pub open spec fn token_text(token: TokenView) -> Seq<char> {
    base64url_text(wire_bytes(token))
}

/// The token that a text stands for, or why it stands for none.
pub open spec fn token_of_text(text: Seq<char>) -> Result<TokenView, TokenError> {
    token_of_decoded(base64url_bytes(text))
}

/// The record that a token is looked up by.
pub open spec fn session_key(token: TokenView) -> (Seq<char>, i32) {
    (base64url_text(token.nonce), token.user_id)
}

/// Four bytes made from a user id stand for that user id.
pub proof fn lemma_user_id_round_trip(user_id: i32)
    ensures
        user_id_bytes(user_id).len() == 4,
        user_id_of(user_id_bytes(user_id)) == user_id,
{
}

/// The bytes of a token on the wire stand for that token.
pub proof fn lemma_wire_round_trip(token: TokenView)
    requires
        token.nonce.len() == NONCE_LEN,
    ensures
        wire_bytes(token).len() == WIRE_LEN,
        token_of_wire(wire_bytes(token)) == Ok::<TokenView, TokenError>(token),
{
    lemma_user_id_round_trip(token.user_id);
    let w = wire_bytes(token);
    assert(w.take(4) =~= user_id_bytes(token.user_id));
    assert(w.skip(5) =~= token.nonce);
    assert(w[4] == SEPARATOR);
}

/// A number below `2^32` is made of its four digits to the base 256.
proof fn lemma_base_256(b0: int, b1: int, b2: int, b3: int)
    requires
        0 <= b0 < 256,
        0 <= b1 < 256,
        0 <= b2 < 256,
        0 <= b3 < 256,
    ensures
        0 <= b0 * 16777216 + b1 * 65536 + b2 * 256 + b3 < 0x1_0000_0000,
        (b0 * 16777216 + b1 * 65536 + b2 * 256 + b3) / 16777216 == b0,
        ((b0 * 16777216 + b1 * 65536 + b2 * 256 + b3) / 65536) % 256 == b1,
        ((b0 * 16777216 + b1 * 65536 + b2 * 256 + b3) / 256) % 256 == b2,
        (b0 * 16777216 + b1 * 65536 + b2 * 256 + b3) % 256 == b3,
{
}

/// Four bytes that stand for a user id are the bytes made from it.
pub proof fn lemma_user_id_bytes_are_unique(bytes: Seq<u8>)
    requires
        bytes.len() == 4,
    ensures
        user_id_bytes(user_id_of(bytes)) == bytes,
{
    lemma_base_256(bytes[0] as int, bytes[1] as int, bytes[2] as int, bytes[3] as int);
    let u: int = bytes[0] * 16777216 + bytes[1] * 65536 + bytes[2] * 256 + bytes[3];
    let id = user_id_of(bytes);
    let back: int = if id < 0 {
        id + 0x1_0000_0000
    } else {
        id as int
    };
    assert(back == u);
    assert(user_id_bytes(id) =~= bytes);
}

/// Bytes that stand for a token are the bytes of that token on the wire: no
/// two sequences of bytes stand for the same token.
pub proof fn lemma_wire_is_unique(bytes: Seq<u8>)
    requires
        token_of_wire(bytes) is Ok,
    ensures
        wire_bytes(token_of_wire(bytes)->Ok_0) == bytes,
{
    let token = token_of_wire(bytes)->Ok_0;
    lemma_user_id_bytes_are_unique(bytes.take(4));
    assert(wire_bytes(token) =~= bytes);
}

/// What a request presents: the text after `Bearer`, if the header is
/// there.
pub open spec fn bearer_text(bearer: Option<&str>) -> Option<Seq<char>> {
    match bearer {
        Some(text) => Some(text@),
        None => None,
    }
}

/// The token that a request presents, or the failure it is answered with.
pub open spec fn presented_token(bearer: Option<Seq<char>>) -> Result<TokenView, APIErrorView> {
    match bearer {
        None => Err(failure(ErrorKind::Unauthorized, "Missing authorization header"@)),
        Some(text) => match token_of_text(text) {
            Ok(token) => Ok(token),
            Err(_) => Err(failure(ErrorKind::Unauthorized, "Invalid token"@)),
        },
    }
}

/// Whether a well-formed token opens a session: it does where its record
/// exists.
pub open spec fn admitted_token(token: TokenView, recorded: bool) -> Result<
    TokenView,
    APIErrorView,
> {
    if recorded {
        Ok(token)
    } else {
        Err(failure(ErrorKind::Unauthorized, "Invalid token"@))
    }
}

/// What presenting `bearer` ends in where `records` are the session records
/// on the server.
pub open spec fn authorization(bearer: Option<Seq<char>>, records: Set<(Seq<char>, i32)>) -> Result<
    TokenView,
    APIErrorView,
> {
    match presented_token(bearer) {
        Err(e) => Err(e),
        Ok(token) => admitted_token(token, records.contains(session_key(token))),
    }
}

/// A request is authorized exactly where its text is a token whose record
/// exists; every other request is answered as unauthorized.
pub proof fn lemma_authorized_iff_recorded(text: Seq<char>, records: Set<(Seq<char>, i32)>)
    ensures
        authorization(Some(text), records) is Ok <==> token_of_text(text) is Ok && records.contains(
            session_key(token_of_text(text)->Ok_0),
        ),
        authorization(Some(text), records) matches Ok(token) ==> token_of_text(text) == Ok::<
            TokenView,
            TokenError,
        >(token),
        authorization(Some(text), records) matches Err(e) ==> e.kind == ErrorKind::Unauthorized,
{
}

/// Where no session was ever recorded, no request is authorized, however
/// well its token is formed.
pub proof fn lemma_unrecorded_is_unauthorized(bearer: Option<Seq<char>>)
    ensures
        authorization(bearer, Set::<(Seq<char>, i32)>::empty()) matches Err(e) && e.kind
            == ErrorKind::Unauthorized,
{
}

/// Whether the record of a session exists, from the number of records that
/// match its key.
pub fn session_exists(matching_records: i64) -> (r: bool)
    ensures
        r == (matching_records >= 1),
{
    matching_records >= 1
}

/// A fresh random nonce. Fails only where the system's random source does.
pub fn random_nonce() -> (r: Result<[u8; 32], TokenError>)
    ensures
        r matches Err(e) ==> e == TokenError::RandomSource,
{
    let mut nonce: [u8; 32] = [0u8; 32];
    match fill_random(&mut nonce) {
        Ok(()) => Ok(nonce),
        Err(_) => Err(TokenError::RandomSource),
    }
}

/// A nonce as text.
pub fn nonce_text(nonce: &[u8; 32]) -> (r: String)
    ensures
        r@ == base64url_text(nonce@),
{
    encode_base64url(nonce.as_slice())
}

impl Token {
    /// A token for a user with a fresh random nonce. Fails only where the
    /// system's random source does.
    pub fn new(user_id: i32) -> (r: Result<Token, TokenError>)
        ensures
            match r {
                Ok(token) => token.user_id == user_id,
                Err(e) => e == TokenError::RandomSource,
            },
    {
        match random_nonce() {
            Ok(nonce) => Ok(Token::with_nonce(user_id, nonce)),
            Err(e) => Err(e),
        }
    }

    /// The token of a user and a nonce.
    pub fn with_nonce(user_id: i32, nonce: [u8; 32]) -> (r: Token)
        ensures
            r@ == (TokenView { user_id, nonce: nonce@ }),
    {
        Token { user_id, nonce }
    }

    /// The token on the wire.
    pub fn to_wire(&self) -> (r: Vec<u8>)
        ensures
            r@ == wire_bytes(self@),
            r@.len() == WIRE_LEN,
    {
        let u: u32 = if self.user_id < 0 {
            (self.user_id as i64 + 0x1_0000_0000) as u32
        } else {
            self.user_id as u32
        };
        let mut wire: Vec<u8> = Vec::new();
        wire.push((u / 16777216) as u8);
        wire.push(((u / 65536) % 256) as u8);
        wire.push(((u / 256) % 256) as u8);
        wire.push((u % 256) as u8);
        wire.push(SEPARATOR);
        assert(wire@ =~= user_id_bytes(self.user_id) + seq![SEPARATOR]);
        let mut i: usize = 0;
        while i < NONCE_LEN
            invariant
                i <= NONCE_LEN,
                wire@ == user_id_bytes(self.user_id) + seq![SEPARATOR] + self.nonce@.take(i as int),
            decreases NONCE_LEN - i,
        {
            wire.push(self.nonce[i]);
            proof {
                assert(self.nonce@.take(i + 1) =~= self.nonce@.take(i as int).push(
                    self.nonce@[i as int],
                ));
                assert(wire@ =~= user_id_bytes(self.user_id) + seq![SEPARATOR] + self.nonce@.take(
                    i + 1,
                ));
            }
            i = i + 1;
        }
        proof {
            assert(self.nonce@.take(32) =~= self.nonce@);
        }
        wire
    }

    /// The token that bytes on the wire stand for.
    pub fn from_wire(bytes: &[u8]) -> (r: Result<Token, TokenError>)
        ensures
            match r {
                Ok(token) => token_of_wire(bytes@) == Ok::<TokenView, TokenError>(token@),
                Err(e) => token_of_wire(bytes@) == Err::<TokenView, TokenError>(e),
            },
    {
        if bytes.len() != WIRE_LEN {
            return Err(TokenError::InvalidLength);
        }
        if bytes[4] != SEPARATOR {
            return Err(TokenError::InvalidSeparator);
        }
        let u: u32 = (bytes[0] as u32) * 16777216 + (bytes[1] as u32) * 65536 + (bytes[2] as u32)
            * 256 + (bytes[3] as u32);
        let user_id: i32 = if u >= 0x8000_0000 {
            (u as i64 - 0x1_0000_0000) as i32
        } else {
            u as i32
        };
        let mut nonce: [u8; 32] = [0u8; 32];
        let mut i: usize = 0;
        while i < NONCE_LEN
            invariant
                i <= NONCE_LEN,
                bytes@.len() == WIRE_LEN,
                forall|j: int| 0 <= j < i ==> nonce@[j] == bytes@[5 + j],
            decreases NONCE_LEN - i,
        {
            nonce[i] = bytes[5 + i];
            i = i + 1;
        }
        proof {
            assert(nonce@ =~= bytes@.skip(5));
            assert(bytes@.take(4)[0] == bytes@[0]);
            assert(bytes@.take(4)[1] == bytes@[1]);
            assert(bytes@.take(4)[2] == bytes@[2]);
            assert(bytes@.take(4)[3] == bytes@[3]);
        }
        Ok(Token { user_id, nonce })
    }

    /// The text of the token. Reading the text gives the token back.
    pub fn text(&self) -> (r: String)
        ensures
            r@ == token_text(self@),
            token_of_text(r@) == Ok::<TokenView, TokenError>(self@),
    {
        let wire = self.to_wire();
        let text = encode_base64url(wire.as_slice());
        proof {
            lemma_wire_round_trip(self@);
        }
        text
    }

    /// The text of the token, which never fails to come about. Reading the
    /// text gives the token back.
    pub fn generate(&self) -> (r: Result<String, TokenError>)
        ensures
            r matches Ok(text) && text@ == token_text(self@) && token_of_text(text@) == Ok::<
                TokenView,
                TokenError,
            >(self@),
    {
        Ok(self.text())
    }

    /// The token that a text stands for.
    pub fn parse(token: String) -> (r: Result<Token, TokenError>)
        ensures
            match r {
                Ok(parsed) => token_of_text(token@) == Ok::<TokenView, TokenError>(parsed@),
                Err(e) => token_of_text(token@) == Err::<TokenView, TokenError>(e),
            },
    {
        match decode_base64url(token.as_str()) {
            Ok(bytes) => Token::from_decoded(Some(bytes)),
            Err(_) => Token::from_decoded(None),
        }
    }

    /// The token that a decoded text stands for: `decoded` is what the text
    /// decoded to, or nothing where it did not decode.
    pub fn from_decoded(decoded: Option<Vec<u8>>) -> (r: Result<Token, TokenError>)
        ensures
            match r {
                Ok(token) => token_of_decoded(decoded_bytes(decoded)) == Ok::<
                    TokenView,
                    TokenError,
                >(token@),
                Err(e) => token_of_decoded(decoded_bytes(decoded)) == Err::<TokenView, TokenError>(
                    e,
                ),
            },
    {
        match decoded {
            None => Err(TokenError::InvalidEncoding),
            Some(bytes) => Token::from_wire(bytes.as_slice()),
        }
    }

    /// The nonce as text, as it is recorded on the server.
    pub fn get_nonce_as_string(&self) -> (r: String)
        ensures
            r@ == base64url_text(self.nonce@),
    {
        nonce_text(&self.nonce)
    }

    /// The record that this token is looked up by.
    pub fn session_key(&self) -> (r: SessionKey)
        ensures
            (r.nonce@, r.user_id) == session_key(self@),
    {
        SessionKey { nonce: self.get_nonce_as_string(), user_id: self.user_id }
    }

    /// The token that a request presents. A missing header and a text that
    /// is no token are both answered as unauthorized.
    pub fn from_bearer(bearer: Option<&str>) -> (r: Result<Token, APIError>)
        ensures
            match r {
                Ok(token) => presented_token(bearer_text(bearer)) == Ok::<TokenView, APIErrorView>(
                    token@,
                ),
                Err(e) => presented_token(bearer_text(bearer)) == Err::<TokenView, APIErrorView>(
                    e.deep_view(),
                ),
            },
    {
        match bearer {
            None => Err(APIError::unauthorized("Missing authorization header")),
            Some(text) => match Token::parse(String::from_str(text)) {
                Ok(token) => Ok(token),
                Err(_) => Err(APIError::unauthorized("Invalid token")),
            },
        }
    }

    /// Opens the session of a presented token: `recorded` says whether the
    /// record of `session_key` exists on the server.
    pub fn authorize(self, recorded: bool) -> (r: Result<Token, APIError>)
        ensures
            match r {
                Ok(token) => admitted_token(self@, recorded) == Ok::<TokenView, APIErrorView>(
                    token@,
                ),
                Err(e) => admitted_token(self@, recorded) == Err::<TokenView, APIErrorView>(
                    e.deep_view(),
                ),
            },
    {
        if recorded {
            Ok(self)
        } else {
            Err(APIError::unauthorized("Invalid token"))
        }
    }
}

} // verus!
